//! Information about the compile-time configuration.

use vstd::prelude::*;
use vstd::pervasive::unreached;
use vstd::utf8::decode_utf8;
use crate::raw::str_prefix;
use crate::ctl::Ctl;
use crate::ctl::Key;
use crate::ctl::key_name_vec;
use crate::ctl::lemma_mib_path_roundtrip;
use crate::ctl::mib_path;
use crate::error::Error;
use crate::raw;
use crate::raw::Mib;
use crate::raw::lemma_key_of_own_name;

verus! {

/// Returns the embedded configure-time-specified run-time options configuration.
///
/// Reading a string-valued key of a well-formed control state always
/// succeeds, and the result decodes the value's bytes through their
/// null terminator.
pub fn malloc_conf(ctl: &Ctl) -> (r: Result<String, Error>)
    requires
        ctl.wf(),
    ensures
        r is Ok,
        r->Ok_0@ == decode_utf8(str_prefix(ctl.malloc_conf@)),
{
    let name = key_name_vec(Key::ConfigMallocConf);
    proof {
        lemma_key_of_own_name(Key::ConfigMallocConf);
    }
    raw::get_str(ctl, name.as_slice())
}

/// A type providing repeated access to the embedded configuration string through its resolved MIB.
pub struct MallocConf {
    mib: Mib,
}

impl MallocConf {
    /// The stored path is the `"config.malloc_conf"` key's resolved MIB.
    pub closed spec fn wf(&self) -> bool {
        self.mib@ == mib_path(Key::ConfigMallocConf)
    }

    /// Resolves the key's MIB once, for repeated access without string
    /// parsing. Resolution of a key of the namespace always succeeds.
    pub fn new() -> (r: Result<MallocConf, Error>)
        ensures
            r is Ok,
            r->Ok_0.wf(),
    {
        let name = key_name_vec(Key::ConfigMallocConf);
        let mut path: Vec<usize> = Vec::new();
        path.push(0);
        path.push(0);
        proof {
            lemma_key_of_own_name(Key::ConfigMallocConf);
        }
        match raw::name_to_mib(name.as_slice(), &mut path) {
            Ok(()) => Ok(MallocConf { mib: Mib { path } }),
            Err(_) => unreached(),
        }
    }

    /// Returns the embedded configure-time-specified run-time options configuration.
    pub fn get(&self, ctl: &Ctl) -> (r: Result<String, Error>)
        requires
            self.wf(),
            ctl.wf(),
        ensures
            r is Ok,
            r->Ok_0@ == decode_utf8(str_prefix(ctl.malloc_conf@)),
    {
        proof {
            lemma_mib_path_roundtrip(Key::ConfigMallocConf);
        }
        raw::get_str_mib(ctl, &self.mib)
    }

}

} // verus!
