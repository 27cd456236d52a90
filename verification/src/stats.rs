//! Allocator statistics. Many of these are cached and only refreshed when the epoch is advanced.

use vstd::prelude::*;
use vstd::pervasive::unreached;
use crate::ctl::Ctl;
use crate::ctl::Key;
use crate::ctl::key_name_vec;
use crate::ctl::lemma_mib_path_roundtrip;
use crate::ctl::mib_path;
use crate::error::Error;
use crate::raw;
use crate::raw::Mib;
use crate::raw::lemma_key_of_own_name;

verus! {

/// Returns the total number of bytes allocated by the application.
pub fn allocated(ctl: &Ctl) -> (r: Result<usize, Error>)
    ensures
        r == Ok::<usize, Error>(ctl.stats_allocated),
{
    let name = key_name_vec(Key::StatsAllocated);
    proof {
        lemma_key_of_own_name(Key::StatsAllocated);
    }
    raw::get_usize(ctl, name.as_slice())
}

/// A type providing repeated access to `"stats.allocated"` through its resolved MIB.
pub struct Allocated {
    mib: Mib,
}

impl Allocated {
    /// The stored path is the `"stats.allocated"` key's resolved MIB.
    pub closed spec fn wf(&self) -> bool {
        self.mib@ == mib_path(Key::StatsAllocated)
    }

    /// Resolves the key's MIB once, for repeated access without string
    /// parsing. Resolution of a key of the namespace always succeeds.
    pub fn new() -> (r: Result<Allocated, Error>)
        ensures
            r is Ok,
            r->Ok_0.wf(),
    {
        let name = key_name_vec(Key::StatsAllocated);
        let mut path: Vec<usize> = Vec::new();
        path.push(0);
        path.push(0);
        proof {
            lemma_key_of_own_name(Key::StatsAllocated);
        }
        match raw::name_to_mib(name.as_slice(), &mut path) {
            Ok(()) => Ok(Allocated { mib: Mib { path } }),
            Err(_) => unreached(),
        }
    }

    /// Returns the total number of bytes allocated by the application.
    pub fn get(&self, ctl: &Ctl) -> (r: Result<usize, Error>)
        requires
            self.wf(),
        ensures
            r == Ok::<usize, Error>(ctl.stats_allocated),
    {
        proof {
            lemma_mib_path_roundtrip(Key::StatsAllocated);
        }
        raw::get_usize_mib(ctl, &self.mib)
    }

}

/// Returns the total number of bytes in active pages allocated by the application.
pub fn active(ctl: &Ctl) -> (r: Result<usize, Error>)
    ensures
        r == Ok::<usize, Error>(ctl.stats_active),
{
    let name = key_name_vec(Key::StatsActive);
    proof {
        lemma_key_of_own_name(Key::StatsActive);
    }
    raw::get_usize(ctl, name.as_slice())
}

/// A type providing repeated access to `"stats.active"` through its resolved MIB.
pub struct Active {
    mib: Mib,
}

impl Active {
    /// The stored path is the `"stats.active"` key's resolved MIB.
    pub closed spec fn wf(&self) -> bool {
        self.mib@ == mib_path(Key::StatsActive)
    }

    /// Resolves the key's MIB once, for repeated access without string
    /// parsing. Resolution of a key of the namespace always succeeds.
    pub fn new() -> (r: Result<Active, Error>)
        ensures
            r is Ok,
            r->Ok_0.wf(),
    {
        let name = key_name_vec(Key::StatsActive);
        let mut path: Vec<usize> = Vec::new();
        path.push(0);
        path.push(0);
        proof {
            lemma_key_of_own_name(Key::StatsActive);
        }
        match raw::name_to_mib(name.as_slice(), &mut path) {
            Ok(()) => Ok(Active { mib: Mib { path } }),
            Err(_) => unreached(),
        }
    }

    /// Returns the total number of bytes in active pages allocated by the application.
    pub fn get(&self, ctl: &Ctl) -> (r: Result<usize, Error>)
        requires
            self.wf(),
        ensures
            r == Ok::<usize, Error>(ctl.stats_active),
    {
        proof {
            lemma_mib_path_roundtrip(Key::StatsActive);
        }
        raw::get_usize_mib(ctl, &self.mib)
    }

}

/// Returns the total number of bytes dedicated to allocator metadata.
pub fn metadata(ctl: &Ctl) -> (r: Result<usize, Error>)
    ensures
        r == Ok::<usize, Error>(ctl.stats_metadata),
{
    let name = key_name_vec(Key::StatsMetadata);
    proof {
        lemma_key_of_own_name(Key::StatsMetadata);
    }
    raw::get_usize(ctl, name.as_slice())
}

/// A type providing repeated access to `"stats.metadata"` through its resolved MIB.
pub struct Metadata {
    mib: Mib,
}

impl Metadata {
    /// The stored path is the `"stats.metadata"` key's resolved MIB.
    pub closed spec fn wf(&self) -> bool {
        self.mib@ == mib_path(Key::StatsMetadata)
    }

    /// Resolves the key's MIB once, for repeated access without string
    /// parsing. Resolution of a key of the namespace always succeeds.
    pub fn new() -> (r: Result<Metadata, Error>)
        ensures
            r is Ok,
            r->Ok_0.wf(),
    {
        let name = key_name_vec(Key::StatsMetadata);
        let mut path: Vec<usize> = Vec::new();
        path.push(0);
        path.push(0);
        proof {
            lemma_key_of_own_name(Key::StatsMetadata);
        }
        match raw::name_to_mib(name.as_slice(), &mut path) {
            Ok(()) => Ok(Metadata { mib: Mib { path } }),
            Err(_) => unreached(),
        }
    }

    /// Returns the total number of bytes dedicated to allocator metadata.
    pub fn get(&self, ctl: &Ctl) -> (r: Result<usize, Error>)
        requires
            self.wf(),
        ensures
            r == Ok::<usize, Error>(ctl.stats_metadata),
    {
        proof {
            lemma_mib_path_roundtrip(Key::StatsMetadata);
        }
        raw::get_usize_mib(ctl, &self.mib)
    }

}

/// Returns the total number of bytes in physically resident data pages mapped by the allocator.
pub fn resident(ctl: &Ctl) -> (r: Result<usize, Error>)
    ensures
        r == Ok::<usize, Error>(ctl.stats_resident),
{
    let name = key_name_vec(Key::StatsResident);
    proof {
        lemma_key_of_own_name(Key::StatsResident);
    }
    raw::get_usize(ctl, name.as_slice())
}

/// A type providing repeated access to `"stats.resident"` through its resolved MIB.
pub struct Resident {
    mib: Mib,
}

impl Resident {
    /// The stored path is the `"stats.resident"` key's resolved MIB.
    pub closed spec fn wf(&self) -> bool {
        self.mib@ == mib_path(Key::StatsResident)
    }

    /// Resolves the key's MIB once, for repeated access without string
    /// parsing. Resolution of a key of the namespace always succeeds.
    pub fn new() -> (r: Result<Resident, Error>)
        ensures
            r is Ok,
            r->Ok_0.wf(),
    {
        let name = key_name_vec(Key::StatsResident);
        let mut path: Vec<usize> = Vec::new();
        path.push(0);
        path.push(0);
        proof {
            lemma_key_of_own_name(Key::StatsResident);
        }
        match raw::name_to_mib(name.as_slice(), &mut path) {
            Ok(()) => Ok(Resident { mib: Mib { path } }),
            Err(_) => unreached(),
        }
    }

    /// Returns the total number of bytes in physically resident data pages mapped by the allocator.
    pub fn get(&self, ctl: &Ctl) -> (r: Result<usize, Error>)
        requires
            self.wf(),
        ensures
            r == Ok::<usize, Error>(ctl.stats_resident),
    {
        proof {
            lemma_mib_path_roundtrip(Key::StatsResident);
        }
        raw::get_usize_mib(ctl, &self.mib)
    }

}

/// Returns the total number of bytes in active extents mapped by the allocator.
pub fn mapped(ctl: &Ctl) -> (r: Result<usize, Error>)
    ensures
        r == Ok::<usize, Error>(ctl.stats_mapped),
{
    let name = key_name_vec(Key::StatsMapped);
    proof {
        lemma_key_of_own_name(Key::StatsMapped);
    }
    raw::get_usize(ctl, name.as_slice())
}

/// A type providing repeated access to `"stats.mapped"` through its resolved MIB.
pub struct Mapped {
    mib: Mib,
}

impl Mapped {
    /// The stored path is the `"stats.mapped"` key's resolved MIB.
    pub closed spec fn wf(&self) -> bool {
        self.mib@ == mib_path(Key::StatsMapped)
    }

    /// Resolves the key's MIB once, for repeated access without string
    /// parsing. Resolution of a key of the namespace always succeeds.
    pub fn new() -> (r: Result<Mapped, Error>)
        ensures
            r is Ok,
            r->Ok_0.wf(),
    {
        let name = key_name_vec(Key::StatsMapped);
        let mut path: Vec<usize> = Vec::new();
        path.push(0);
        path.push(0);
        proof {
            lemma_key_of_own_name(Key::StatsMapped);
        }
        match raw::name_to_mib(name.as_slice(), &mut path) {
            Ok(()) => Ok(Mapped { mib: Mib { path } }),
            Err(_) => unreached(),
        }
    }

    /// Returns the total number of bytes in active extents mapped by the allocator.
    pub fn get(&self, ctl: &Ctl) -> (r: Result<usize, Error>)
        requires
            self.wf(),
        ensures
            r == Ok::<usize, Error>(ctl.stats_mapped),
    {
        proof {
            lemma_mib_path_roundtrip(Key::StatsMapped);
        }
        raw::get_usize_mib(ctl, &self.mib)
    }

}

/// Returns the total number of bytes in virtual memory mappings retained rather than returned to the operating system.
pub fn retained(ctl: &Ctl) -> (r: Result<usize, Error>)
    ensures
        r == Ok::<usize, Error>(ctl.stats_retained),
{
    let name = key_name_vec(Key::StatsRetained);
    proof {
        lemma_key_of_own_name(Key::StatsRetained);
    }
    raw::get_usize(ctl, name.as_slice())
}

/// A type providing repeated access to `"stats.retained"` through its resolved MIB.
pub struct Retained {
    mib: Mib,
}

impl Retained {
    /// The stored path is the `"stats.retained"` key's resolved MIB.
    pub closed spec fn wf(&self) -> bool {
        self.mib@ == mib_path(Key::StatsRetained)
    }

    /// Resolves the key's MIB once, for repeated access without string
    /// parsing. Resolution of a key of the namespace always succeeds.
    pub fn new() -> (r: Result<Retained, Error>)
        ensures
            r is Ok,
            r->Ok_0.wf(),
    {
        let name = key_name_vec(Key::StatsRetained);
        let mut path: Vec<usize> = Vec::new();
        path.push(0);
        path.push(0);
        proof {
            lemma_key_of_own_name(Key::StatsRetained);
        }
        match raw::name_to_mib(name.as_slice(), &mut path) {
            Ok(()) => Ok(Retained { mib: Mib { path } }),
            Err(_) => unreached(),
        }
    }

    /// Returns the total number of bytes in virtual memory mappings retained rather than returned to the operating system.
    pub fn get(&self, ctl: &Ctl) -> (r: Result<usize, Error>)
        requires
            self.wf(),
        ensures
            r == Ok::<usize, Error>(ctl.stats_retained),
    {
        proof {
            lemma_mib_path_roundtrip(Key::StatsRetained);
        }
        raw::get_usize_mib(ctl, &self.mib)
    }

}

} // verus!
