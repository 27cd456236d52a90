//! Information about the run-time configuration, controlled by the `MALLOC_CONF` environment variable of the native allocator.

use vstd::prelude::*;
use vstd::pervasive::unreached;
use vstd::utf8::decode_utf8;
use crate::raw::str_prefix;
use crate::ctl::Ctl;
use crate::ctl::Key;
use crate::ctl::key_name_vec;
use crate::ctl::lemma_mib_path_roundtrip;
use crate::ctl::mib_path;
use crate::error::Error;
use crate::raw;
use crate::raw::Mib;
use crate::raw::lemma_key_of_own_name;

verus! {

/// Determines whether the allocator calls `abort` on most warnings.
pub fn abort(ctl: &Ctl) -> (r: Result<bool, Error>)
    ensures
        r == Ok::<bool, Error>(ctl.opt_abort),
{
    let name = key_name_vec(Key::OptAbort);
    proof {
        lemma_key_of_own_name(Key::OptAbort);
    }
    raw::get_bool(ctl, name.as_slice())
}

/// A type providing repeated access to `"opt.abort"` through its resolved MIB.
pub struct Abort {
    mib: Mib,
}

impl Abort {
    /// The stored path is the `"opt.abort"` key's resolved MIB.
    pub closed spec fn wf(&self) -> bool {
        self.mib@ == mib_path(Key::OptAbort)
    }

    /// Resolves the key's MIB once, for repeated access without string
    /// parsing. Resolution of a key of the namespace always succeeds.
    pub fn new() -> (r: Result<Abort, Error>)
        ensures
            r is Ok,
            r->Ok_0.wf(),
    {
        let name = key_name_vec(Key::OptAbort);
        let mut path: Vec<usize> = Vec::new();
        path.push(0);
        path.push(0);
        proof {
            lemma_key_of_own_name(Key::OptAbort);
        }
        match raw::name_to_mib(name.as_slice(), &mut path) {
            Ok(()) => Ok(Abort { mib: Mib { path } }),
            Err(_) => unreached(),
        }
    }

    /// Determines whether the allocator calls `abort` on most warnings.
    pub fn get(&self, ctl: &Ctl) -> (r: Result<bool, Error>)
        requires
            self.wf(),
        ensures
            r == Ok::<bool, Error>(ctl.opt_abort),
    {
        proof {
            lemma_mib_path_roundtrip(Key::OptAbort);
        }
        raw::get_bool_mib(ctl, &self.mib)
    }

}

/// Returns the `sbrk` allocation precedence as related to `mmap` allocation.
///
/// Reading a string-valued key of a well-formed control state always
/// succeeds, and the result decodes the value's bytes through their
/// null terminator.
pub fn dss(ctl: &Ctl) -> (r: Result<String, Error>)
    requires
        ctl.wf(),
    ensures
        r is Ok,
        r->Ok_0@ == decode_utf8(str_prefix(ctl.opt_dss@)),
{
    let name = key_name_vec(Key::OptDss);
    proof {
        lemma_key_of_own_name(Key::OptDss);
    }
    raw::get_str(ctl, name.as_slice())
}

/// A type providing repeated access to `"opt.dss"` through its resolved MIB.
pub struct Dss {
    mib: Mib,
}

impl Dss {
    /// The stored path is the `"opt.dss"` key's resolved MIB.
    pub closed spec fn wf(&self) -> bool {
        self.mib@ == mib_path(Key::OptDss)
    }

    /// Resolves the key's MIB once, for repeated access without string
    /// parsing. Resolution of a key of the namespace always succeeds.
    pub fn new() -> (r: Result<Dss, Error>)
        ensures
            r is Ok,
            r->Ok_0.wf(),
    {
        let name = key_name_vec(Key::OptDss);
        let mut path: Vec<usize> = Vec::new();
        path.push(0);
        path.push(0);
        proof {
            lemma_key_of_own_name(Key::OptDss);
        }
        match raw::name_to_mib(name.as_slice(), &mut path) {
            Ok(()) => Ok(Dss { mib: Mib { path } }),
            Err(_) => unreached(),
        }
    }

    /// Returns the `sbrk` allocation precedence as related to `mmap` allocation.
    pub fn get(&self, ctl: &Ctl) -> (r: Result<String, Error>)
        requires
            self.wf(),
            ctl.wf(),
        ensures
            r is Ok,
            r->Ok_0@ == decode_utf8(str_prefix(ctl.opt_dss@)),
    {
        proof {
            lemma_mib_path_roundtrip(Key::OptDss);
        }
        raw::get_str_mib(ctl, &self.mib)
    }

}

/// Returns the configured maximum number of arenas.
pub fn narenas(ctl: &Ctl) -> (r: Result<u32, Error>)
    ensures
        r == Ok::<u32, Error>(ctl.opt_narenas),
{
    let name = key_name_vec(Key::OptNarenas);
    proof {
        lemma_key_of_own_name(Key::OptNarenas);
    }
    raw::get_u32(ctl, name.as_slice())
}

/// A type providing repeated access to `"opt.narenas"` through its resolved MIB.
pub struct NArenas {
    mib: Mib,
}

impl NArenas {
    /// The stored path is the `"opt.narenas"` key's resolved MIB.
    pub closed spec fn wf(&self) -> bool {
        self.mib@ == mib_path(Key::OptNarenas)
    }

    /// Resolves the key's MIB once, for repeated access without string
    /// parsing. Resolution of a key of the namespace always succeeds.
    pub fn new() -> (r: Result<NArenas, Error>)
        ensures
            r is Ok,
            r->Ok_0.wf(),
    {
        let name = key_name_vec(Key::OptNarenas);
        let mut path: Vec<usize> = Vec::new();
        path.push(0);
        path.push(0);
        proof {
            lemma_key_of_own_name(Key::OptNarenas);
        }
        match raw::name_to_mib(name.as_slice(), &mut path) {
            Ok(()) => Ok(NArenas { mib: Mib { path } }),
            Err(_) => unreached(),
        }
    }

    /// Returns the configured maximum number of arenas.
    pub fn get(&self, ctl: &Ctl) -> (r: Result<u32, Error>)
        requires
            self.wf(),
        ensures
            r == Ok::<u32, Error>(ctl.opt_narenas),
    {
        proof {
            lemma_mib_path_roundtrip(Key::OptNarenas);
        }
        raw::get_u32_mib(ctl, &self.mib)
    }

}

/// Returns the junk-filling mode for allocated memory.
///
/// Reading a string-valued key of a well-formed control state always
/// succeeds, and the result decodes the value's bytes through their
/// null terminator.
pub fn junk(ctl: &Ctl) -> (r: Result<String, Error>)
    requires
        ctl.wf(),
    ensures
        r is Ok,
        r->Ok_0@ == decode_utf8(str_prefix(ctl.opt_junk@)),
{
    let name = key_name_vec(Key::OptJunk);
    proof {
        lemma_key_of_own_name(Key::OptJunk);
    }
    raw::get_str(ctl, name.as_slice())
}

/// A type providing repeated access to `"opt.junk"` through its resolved MIB.
pub struct Junk {
    mib: Mib,
}

impl Junk {
    /// The stored path is the `"opt.junk"` key's resolved MIB.
    pub closed spec fn wf(&self) -> bool {
        self.mib@ == mib_path(Key::OptJunk)
    }

    /// Resolves the key's MIB once, for repeated access without string
    /// parsing. Resolution of a key of the namespace always succeeds.
    pub fn new() -> (r: Result<Junk, Error>)
        ensures
            r is Ok,
            r->Ok_0.wf(),
    {
        let name = key_name_vec(Key::OptJunk);
        let mut path: Vec<usize> = Vec::new();
        path.push(0);
        path.push(0);
        proof {
            lemma_key_of_own_name(Key::OptJunk);
        }
        match raw::name_to_mib(name.as_slice(), &mut path) {
            Ok(()) => Ok(Junk { mib: Mib { path } }),
            Err(_) => unreached(),
        }
    }

    /// Returns the junk-filling mode for allocated memory.
    pub fn get(&self, ctl: &Ctl) -> (r: Result<String, Error>)
        requires
            self.wf(),
            ctl.wf(),
        ensures
            r is Ok,
            r->Ok_0@ == decode_utf8(str_prefix(ctl.opt_junk@)),
    {
        proof {
            lemma_mib_path_roundtrip(Key::OptJunk);
        }
        raw::get_str_mib(ctl, &self.mib)
    }

}

/// Determines whether allocated memory is zero-filled.
pub fn zero(ctl: &Ctl) -> (r: Result<bool, Error>)
    ensures
        r == Ok::<bool, Error>(ctl.opt_zero),
{
    let name = key_name_vec(Key::OptZero);
    proof {
        lemma_key_of_own_name(Key::OptZero);
    }
    raw::get_bool(ctl, name.as_slice())
}

/// A type providing repeated access to `"opt.zero"` through its resolved MIB.
pub struct Zero {
    mib: Mib,
}

impl Zero {
    /// The stored path is the `"opt.zero"` key's resolved MIB.
    pub closed spec fn wf(&self) -> bool {
        self.mib@ == mib_path(Key::OptZero)
    }

    /// Resolves the key's MIB once, for repeated access without string
    /// parsing. Resolution of a key of the namespace always succeeds.
    pub fn new() -> (r: Result<Zero, Error>)
        ensures
            r is Ok,
            r->Ok_0.wf(),
    {
        let name = key_name_vec(Key::OptZero);
        let mut path: Vec<usize> = Vec::new();
        path.push(0);
        path.push(0);
        proof {
            lemma_key_of_own_name(Key::OptZero);
        }
        match raw::name_to_mib(name.as_slice(), &mut path) {
            Ok(()) => Ok(Zero { mib: Mib { path } }),
            Err(_) => unreached(),
        }
    }

    /// Determines whether allocated memory is zero-filled.
    pub fn get(&self, ctl: &Ctl) -> (r: Result<bool, Error>)
        requires
            self.wf(),
        ensures
            r == Ok::<bool, Error>(ctl.opt_zero),
    {
        proof {
            lemma_mib_path_roundtrip(Key::OptZero);
        }
        raw::get_bool_mib(ctl, &self.mib)
    }

}

/// Determines whether the thread-local allocation cache is enabled.
pub fn tcache(ctl: &Ctl) -> (r: Result<bool, Error>)
    ensures
        r == Ok::<bool, Error>(ctl.opt_tcache),
{
    let name = key_name_vec(Key::OptTcache);
    proof {
        lemma_key_of_own_name(Key::OptTcache);
    }
    raw::get_bool(ctl, name.as_slice())
}

/// A type providing repeated access to `"opt.tcache"` through its resolved MIB.
pub struct Tcache {
    mib: Mib,
}

impl Tcache {
    /// The stored path is the `"opt.tcache"` key's resolved MIB.
    pub closed spec fn wf(&self) -> bool {
        self.mib@ == mib_path(Key::OptTcache)
    }

    /// Resolves the key's MIB once, for repeated access without string
    /// parsing. Resolution of a key of the namespace always succeeds.
    pub fn new() -> (r: Result<Tcache, Error>)
        ensures
            r is Ok,
            r->Ok_0.wf(),
    {
        let name = key_name_vec(Key::OptTcache);
        let mut path: Vec<usize> = Vec::new();
        path.push(0);
        path.push(0);
        proof {
            lemma_key_of_own_name(Key::OptTcache);
        }
        match raw::name_to_mib(name.as_slice(), &mut path) {
            Ok(()) => Ok(Tcache { mib: Mib { path } }),
            Err(_) => unreached(),
        }
    }

    /// Determines whether the thread-local allocation cache is enabled.
    pub fn get(&self, ctl: &Ctl) -> (r: Result<bool, Error>)
        requires
            self.wf(),
        ensures
            r == Ok::<bool, Error>(ctl.opt_tcache),
    {
        proof {
            lemma_mib_path_roundtrip(Key::OptTcache);
        }
        raw::get_bool_mib(ctl, &self.mib)
    }

}

/// Returns the base-two logarithm of the maximum size class cached per thread.
pub fn lg_tcache_max(ctl: &Ctl) -> (r: Result<usize, Error>)
    ensures
        r == Ok::<usize, Error>(ctl.opt_lg_tcache_max),
{
    let name = key_name_vec(Key::OptLgTcacheMax);
    proof {
        lemma_key_of_own_name(Key::OptLgTcacheMax);
    }
    raw::get_usize(ctl, name.as_slice())
}

/// A type providing repeated access to `"opt.lg_tcache_max"` through its resolved MIB.
pub struct LgTcacheMax {
    mib: Mib,
}

impl LgTcacheMax {
    /// The stored path is the `"opt.lg_tcache_max"` key's resolved MIB.
    pub closed spec fn wf(&self) -> bool {
        self.mib@ == mib_path(Key::OptLgTcacheMax)
    }

    /// Resolves the key's MIB once, for repeated access without string
    /// parsing. Resolution of a key of the namespace always succeeds.
    pub fn new() -> (r: Result<LgTcacheMax, Error>)
        ensures
            r is Ok,
            r->Ok_0.wf(),
    {
        let name = key_name_vec(Key::OptLgTcacheMax);
        let mut path: Vec<usize> = Vec::new();
        path.push(0);
        path.push(0);
        proof {
            lemma_key_of_own_name(Key::OptLgTcacheMax);
        }
        match raw::name_to_mib(name.as_slice(), &mut path) {
            Ok(()) => Ok(LgTcacheMax { mib: Mib { path } }),
            Err(_) => unreached(),
        }
    }

    /// Returns the base-two logarithm of the maximum size class cached per thread.
    pub fn get(&self, ctl: &Ctl) -> (r: Result<usize, Error>)
        requires
            self.wf(),
        ensures
            r == Ok::<usize, Error>(ctl.opt_lg_tcache_max),
    {
        proof {
            lemma_mib_path_roundtrip(Key::OptLgTcacheMax);
        }
        raw::get_usize_mib(ctl, &self.mib)
    }

}

/// Determines whether background threads are enabled by default.
pub fn background_thread(ctl: &Ctl) -> (r: Result<bool, Error>)
    ensures
        r == Ok::<bool, Error>(ctl.opt_background_thread),
{
    let name = key_name_vec(Key::OptBackgroundThread);
    proof {
        lemma_key_of_own_name(Key::OptBackgroundThread);
    }
    raw::get_bool(ctl, name.as_slice())
}

/// A type providing repeated access to `"opt.background_thread"` through its resolved MIB.
pub struct BackgroundThread {
    mib: Mib,
}

impl BackgroundThread {
    /// The stored path is the `"opt.background_thread"` key's resolved MIB.
    pub closed spec fn wf(&self) -> bool {
        self.mib@ == mib_path(Key::OptBackgroundThread)
    }

    /// Resolves the key's MIB once, for repeated access without string
    /// parsing. Resolution of a key of the namespace always succeeds.
    pub fn new() -> (r: Result<BackgroundThread, Error>)
        ensures
            r is Ok,
            r->Ok_0.wf(),
    {
        let name = key_name_vec(Key::OptBackgroundThread);
        let mut path: Vec<usize> = Vec::new();
        path.push(0);
        path.push(0);
        proof {
            lemma_key_of_own_name(Key::OptBackgroundThread);
        }
        match raw::name_to_mib(name.as_slice(), &mut path) {
            Ok(()) => Ok(BackgroundThread { mib: Mib { path } }),
            Err(_) => unreached(),
        }
    }

    /// Determines whether background threads are enabled by default.
    pub fn get(&self, ctl: &Ctl) -> (r: Result<bool, Error>)
        requires
            self.wf(),
        ensures
            r == Ok::<bool, Error>(ctl.opt_background_thread),
    {
        proof {
            lemma_mib_path_roundtrip(Key::OptBackgroundThread);
        }
        raw::get_bool_mib(ctl, &self.mib)
    }

}

} // verus!
