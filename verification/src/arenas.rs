//! Arena operations.

use vstd::prelude::*;
use vstd::pervasive::unreached;
use crate::ctl::Ctl;
use crate::ctl::Key;
use crate::ctl::key_name_vec;
use crate::ctl::lemma_mib_path_roundtrip;
use crate::ctl::mib_path;
use crate::error::Error;
use crate::raw;
use crate::raw::Mib;
use crate::raw::lemma_key_of_own_name;

verus! {

/// Returns the current limit on the number of arenas.
pub fn narenas(ctl: &Ctl) -> (r: Result<u32, Error>)
    ensures
        r == Ok::<u32, Error>(ctl.arenas_narenas),
{
    let name = key_name_vec(Key::ArenasNarenas);
    proof {
        lemma_key_of_own_name(Key::ArenasNarenas);
    }
    raw::get_u32(ctl, name.as_slice())
}

/// A type providing repeated access to the arena limit through its resolved MIB.
pub struct NArenas {
    mib: Mib,
}

impl NArenas {
    /// The stored path is the `"arenas.narenas"` key's resolved MIB.
    pub closed spec fn wf(&self) -> bool {
        self.mib@ == mib_path(Key::ArenasNarenas)
    }

    /// Resolves the key's MIB once, for repeated access without string
    /// parsing. Resolution of a key of the namespace always succeeds.
    pub fn new() -> (r: Result<NArenas, Error>)
        ensures
            r is Ok,
            r->Ok_0.wf(),
    {
        let name = key_name_vec(Key::ArenasNarenas);
        let mut path: Vec<usize> = Vec::new();
        path.push(0);
        path.push(0);
        proof {
            lemma_key_of_own_name(Key::ArenasNarenas);
        }
        match raw::name_to_mib(name.as_slice(), &mut path) {
            Ok(()) => Ok(NArenas { mib: Mib { path } }),
            Err(_) => unreached(),
        }
    }

    /// Returns the maximum number of arenas.
    pub fn get(&self, ctl: &Ctl) -> (r: Result<u32, Error>)
        requires
            self.wf(),
        ensures
            r == Ok::<u32, Error>(ctl.arenas_narenas),
    {
        proof {
            lemma_mib_path_roundtrip(Key::ArenasNarenas);
        }
        raw::get_u32_mib(ctl, &self.mib)
    }

}

} // verus!
