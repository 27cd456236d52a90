//! Epoch access.
//!
//! Many of the statistics the allocator tracks are cached. The epoch
//! counter controls when they are refreshed: writing any value to the
//! epoch key advances the counter, and the value read back is the
//! counter's value before the advance.

use vstd::prelude::*;
use vstd::pervasive::unreached;
use crate::ctl::Ctl;
use crate::ctl::Key;
use crate::ctl::bumped;
use crate::ctl::key_name_vec;
use crate::ctl::lemma_mib_path_roundtrip;
use crate::ctl::mib_path;
use crate::error::Error;
use crate::raw;
use crate::raw::Mib;
use crate::raw::lemma_key_of_own_name;

verus! {

/// Advances the epoch, returning its value before the advance.
///
/// The epoch advances by one every time it is advanced, so two
/// successive calls return strictly increasing values (short of the
/// counter wrapping around).
pub fn epoch(ctl: &mut Ctl) -> (r: Result<u64, Error>)
    ensures
        r == Ok::<u64, Error>(old(ctl).epoch),
        *final(ctl) == (Ctl { epoch: bumped(old(ctl).epoch), ..*old(ctl) }),
{
    let name = key_name_vec(Key::Epoch);
    proof {
        lemma_key_of_own_name(Key::Epoch);
    }
    raw::get_set_u64(ctl, name.as_slice(), 1)
}

/// A type providing repeated access to the epoch through its resolved
/// MIB.
pub struct Epoch {
    mib: Mib,
}

impl Epoch {
    /// The stored path is the `"epoch"` key's resolved MIB.
    pub closed spec fn wf(&self) -> bool {
        self.mib@ == mib_path(Key::Epoch)
    }

    /// Resolves the key's MIB once, for repeated access without string
    /// parsing. Resolution of a key of the namespace always succeeds.
    pub fn new() -> (r: Result<Epoch, Error>)
        ensures
            r is Ok,
            r->Ok_0.wf(),
    {
        let name = key_name_vec(Key::Epoch);
        let mut path: Vec<usize> = Vec::new();
        path.push(0);
        proof {
            lemma_key_of_own_name(Key::Epoch);
        }
        match raw::name_to_mib(name.as_slice(), &mut path) {
            Ok(()) => Ok(Epoch { mib: Mib { path } }),
            Err(_) => unreached(),
        }
    }

    /// Advances the epoch, returning its value before the advance.
    pub fn advance(&self, ctl: &mut Ctl) -> (r: Result<u64, Error>)
        requires
            self.wf(),
        ensures
            r == Ok::<u64, Error>(old(ctl).epoch),
            *final(ctl) == (Ctl { epoch: bumped(old(ctl).epoch), ..*old(ctl) }),
    {
        proof {
            lemma_mib_path_roundtrip(Key::Epoch);
        }
        raw::get_set_u64_mib(ctl, &self.mib, 1)
    }
}

/// Advancing the epoch twice returns strictly increasing values, each
/// call returning the counter's value before its own advance and
/// leaving the counter one higher.
pub proof fn lemma_epoch_advances_strictly(c: Ctl)
    requires
        c.epoch + 2 <= u64::MAX,
    ensures
        bumped(c.epoch) == c.epoch + 1,
        bumped(bumped(c.epoch)) == c.epoch + 2,
        c.epoch < bumped(c.epoch) < bumped(bumped(c.epoch)),
{
}

} // verus!
