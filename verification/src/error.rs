//! The error type of the control interface.
//!
//! The native `mallctl` family of functions returns `0` on success and an
//! `errno`-style code otherwise. This module fixes the closed set of codes
//! the interface uses and wraps them in a typed error value.

use vstd::prelude::*;

verus! {

/// `errno` code: a buffer length does not match the value's size, or a
/// returned string is not valid UTF-8.
pub const EINVAL: i32 = 22;

/// `errno` code: the name or MIB does not denote a known control key.
pub const ENOENT: i32 = 2;

/// `errno` code: an attempt to read a write-only value or to write a
/// read-only value.
pub const EPERM: i32 = 1;

/// `errno` code: a memory allocation failure occurred inside the control
/// call itself.
pub const EAGAIN: i32 = 11;

/// `errno` code: an operation with side effects failed in a way unrelated
/// to read/write processing.
pub const EFAULT: i32 = 14;

/// Maps a C integer type to the unsigned type able to carry its nonzero
/// error codes.
pub trait NonZeroT {
    /// The carrier type.
    type T;
}

impl NonZeroT for i32 {
    type T = u32;
}

impl NonZeroT for i64 {
    type T = u64;
}

/// An error of the control interface: a nonzero `errno`-style status code.
#[derive(Copy, Clone, PartialEq, Eq, Structural, Debug)]
pub struct Error {
    /// The nonzero status code the native call returned.
    pub code: i32,
}

impl Error {
    /// The `InvalidArgument` error value.
    pub open spec fn spec_einval() -> Error {
        Error { code: EINVAL }
    }

    /// The `UnknownKey` error value.
    pub open spec fn spec_enoent() -> Error {
        Error { code: ENOENT }
    }

    /// The `PermissionDenied` error value.
    pub open spec fn spec_eperm() -> Error {
        Error { code: EPERM }
    }

    /// The `InvalidArgument` error value.
    #[verifier::when_used_as_spec(spec_einval)]
    pub fn einval() -> (r: Error)
        ensures
            r == Self::spec_einval(),
    {
        Error { code: EINVAL }
    }

    /// The `UnknownKey` error value.
    #[verifier::when_used_as_spec(spec_enoent)]
    pub fn enoent() -> (r: Error)
        ensures
            r == Self::spec_enoent(),
    {
        Error { code: ENOENT }
    }

    /// The `PermissionDenied` error value.
    #[verifier::when_used_as_spec(spec_eperm)]
    pub fn eperm() -> (r: Error)
        ensures
            r == Self::spec_eperm(),
    {
        Error { code: EPERM }
    }

    /// The fixed explanation attached to this status code.
    pub open spec fn spec_description(self) -> Seq<char> {
        if self.code == EINVAL {
            "`newp` is not `NULL`, and `newlen` is too large or too small. Alternatively, `*oldlenp` is too large or too small; in this case as much data as possible are read despite the error."@
        } else if self.code == ENOENT {
            "`name` or `mib` specifies an unknown/invalid value."@
        } else if self.code == EPERM {
            "Attempt to read or write `void` value, or attempt to write read-only value."@
        } else if self.code == EAGAIN {
            "A memory allocation failure occurred."@
        } else if self.code == EFAULT {
            "An interface with side effects failed in some way not directly related to `mallctl*()` read/write processing."@
        } else {
            "Unknown error code."@
        }
    }

    /// Returns the fixed explanation attached to this status code.
    pub fn description(&self) -> (r: String)
        ensures
            r@ == self.spec_description(),
    {
        if self.code == EINVAL {
            "`newp` is not `NULL`, and `newlen` is too large or too small. Alternatively, `*oldlenp` is too large or too small; in this case as much data as possible are read despite the error.".to_owned()
        } else if self.code == ENOENT {
            "`name` or `mib` specifies an unknown/invalid value.".to_owned()
        } else if self.code == EPERM {
            "Attempt to read or write `void` value, or attempt to write read-only value.".to_owned()
        } else if self.code == EAGAIN {
            "A memory allocation failure occurred.".to_owned()
        } else if self.code == EFAULT {
            "An interface with side effects failed in some way not directly related to `mallctl*()` read/write processing.".to_owned()
        } else {
            "Unknown error code.".to_owned()
        }
    }
}

/// Converts a native status code into a typed result: `0` is success and
/// every other value is the corresponding error.
pub fn cvt(ret: i32) -> (r: Result<(), Error>)
    ensures
        ret == 0 ==> r == Ok::<(), Error>(()),
        ret != 0 ==> r == Err::<(), Error>(Error { code: ret }),
{
    if ret == 0 {
        Ok(())
    } else {
        Err(Error { code: ret })
    }
}

} // verus!
