//! Thread-specific operations.
//!
//! The native allocator exposes per-thread allocation counters through
//! pointers that are only valid on the thread that obtained them. The
//! handle type here stands for such a pointer: it must not be moved to
//! another thread, and the model's handle carries the counter value
//! observed when it was obtained.

use vstd::prelude::*;
use vstd::pervasive::unreached;
use crate::ctl::Ctl;
use crate::ctl::Key;
use crate::ctl::key_name_vec;
use crate::ctl::lemma_mib_path_roundtrip;
use crate::ctl::mib_path;
use crate::error::Error;
use crate::raw;
use crate::raw::Mib;
use crate::raw::lemma_key_of_own_name;

verus! {

/// A handle to a thread-local counter of the allocator.
pub struct ThreadLocal<T> {
    value: T,
}

impl<T: Copy> ThreadLocal<T> {
    /// The counter value the handle refers to.
    pub closed spec fn spec_get(self) -> T {
        self.value
    }

    /// Returns the current value at the handle.
    pub fn get(self) -> (r: T)
        ensures
            r == self.spec_get(),
    {
        self.value
    }
}

/// Returns a handle to the total number of bytes ever allocated by the
/// calling thread. Unlike the global statistics, this counter only ever
/// grows, and only in response to the calling thread's own allocations.
pub fn allocatedp(ctl: &Ctl) -> (r: Result<ThreadLocal<u64>, Error>)
    ensures
        r is Ok,
        r->Ok_0.spec_get() == ctl.thread_allocated,
{
    let name = key_name_vec(Key::ThreadAllocatedP);
    proof {
        lemma_key_of_own_name(Key::ThreadAllocatedP);
    }
    match raw::get_ptr_u64(ctl, name.as_slice()) {
        Ok(v) => Ok(ThreadLocal { value: v }),
        Err(_) => unreached(),
    }
}

/// Returns a handle to the total number of bytes ever deallocated by
/// the calling thread.
pub fn deallocatedp(ctl: &Ctl) -> (r: Result<ThreadLocal<u64>, Error>)
    ensures
        r is Ok,
        r->Ok_0.spec_get() == ctl.thread_deallocated,
{
    let name = key_name_vec(Key::ThreadDeallocatedP);
    proof {
        lemma_key_of_own_name(Key::ThreadDeallocatedP);
    }
    match raw::get_ptr_u64(ctl, name.as_slice()) {
        Ok(v) => Ok(ThreadLocal { value: v }),
        Err(_) => unreached(),
    }
}

/// A type providing repeated access to the calling thread's allocation
/// counter through its resolved MIB.
pub struct AllocatedP {
    mib: Mib,
}

impl AllocatedP {
    /// The stored path is the `"thread.allocatedp"` key's resolved MIB.
    pub closed spec fn wf(&self) -> bool {
        self.mib@ == mib_path(Key::ThreadAllocatedP)
    }

    /// Resolves the key's MIB once, for repeated access without string
    /// parsing. Resolution of a key of the namespace always succeeds.
    pub fn new() -> (r: Result<AllocatedP, Error>)
        ensures
            r is Ok,
            r->Ok_0.wf(),
    {
        let name = key_name_vec(Key::ThreadAllocatedP);
        let mut path: Vec<usize> = Vec::new();
        path.push(0);
        path.push(0);
        proof {
            lemma_key_of_own_name(Key::ThreadAllocatedP);
        }
        match raw::name_to_mib(name.as_slice(), &mut path) {
            Ok(()) => Ok(AllocatedP { mib: Mib { path } }),
            Err(_) => unreached(),
        }
    }

    /// Returns a handle to the calling thread's allocation counter.
    pub fn get(&self, ctl: &Ctl) -> (r: Result<ThreadLocal<u64>, Error>)
        requires
            self.wf(),
        ensures
            r is Ok,
            r->Ok_0.spec_get() == ctl.thread_allocated,
    {
        proof {
            lemma_mib_path_roundtrip(Key::ThreadAllocatedP);
        }
        match raw::get_ptr_u64_mib(ctl, &self.mib) {
            Ok(v) => Ok(ThreadLocal { value: v }),
            Err(_) => unreached(),
        }
    }
}

/// A type providing repeated access to the calling thread's
/// deallocation counter through its resolved MIB.
pub struct DeallocatedP {
    mib: Mib,
}

impl DeallocatedP {
    /// The stored path is the `"thread.deallocatedp"` key's resolved
    /// MIB.
    pub closed spec fn wf(&self) -> bool {
        self.mib@ == mib_path(Key::ThreadDeallocatedP)
    }

    /// Resolves the key's MIB once, for repeated access without string
    /// parsing. Resolution of a key of the namespace always succeeds.
    pub fn new() -> (r: Result<DeallocatedP, Error>)
        ensures
            r is Ok,
            r->Ok_0.wf(),
    {
        let name = key_name_vec(Key::ThreadDeallocatedP);
        let mut path: Vec<usize> = Vec::new();
        path.push(0);
        path.push(0);
        proof {
            lemma_key_of_own_name(Key::ThreadDeallocatedP);
        }
        match raw::name_to_mib(name.as_slice(), &mut path) {
            Ok(()) => Ok(DeallocatedP { mib: Mib { path } }),
            Err(_) => unreached(),
        }
    }

    /// Returns a handle to the calling thread's deallocation counter.
    pub fn get(&self, ctl: &Ctl) -> (r: Result<ThreadLocal<u64>, Error>)
        requires
            self.wf(),
        ensures
            r is Ok,
            r->Ok_0.spec_get() == ctl.thread_deallocated,
    {
        proof {
            lemma_mib_path_roundtrip(Key::ThreadDeallocatedP);
        }
        match raw::get_ptr_u64_mib(ctl, &self.mib) {
            Ok(v) => Ok(ThreadLocal { value: v }),
            Err(_) => unreached(),
        }
    }
}

} // verus!
