//! Background thread operations.

use vstd::prelude::*;
use vstd::pervasive::unreached;
use crate::ctl::Ctl;
use crate::ctl::Key;
use crate::ctl::key_name_vec;
use crate::ctl::lemma_mib_path_roundtrip;
use crate::ctl::mib_path;
use crate::error::Error;
use crate::raw;
use crate::raw::Mib;
use crate::raw::lemma_key_of_own_name;

verus! {

/// Returns the state of internal background worker threads.
pub fn background_thread(ctl: &Ctl) -> (r: Result<bool, Error>)
    ensures
        r == Ok::<bool, Error>(ctl.background_thread),
{
    let name = key_name_vec(Key::BackgroundThread);
    proof {
        lemma_key_of_own_name(Key::BackgroundThread);
    }
    raw::get_bool(ctl, name.as_slice())
}

/// Enables or disables internal background worker threads.
pub fn set_background_thread(ctl: &mut Ctl, background_thread: bool) -> (r: Result<(), Error>)
    ensures
        r == Ok::<(), Error>(()),
        *final(ctl) == (Ctl { background_thread: background_thread, ..*old(ctl) }),
{
    let name = key_name_vec(Key::BackgroundThread);
    proof {
        lemma_key_of_own_name(Key::BackgroundThread);
    }
    raw::set_bool(ctl, name.as_slice(), background_thread)
}

/// A type providing repeated access to the background thread state through its resolved MIB.
pub struct BackgroundThread {
    mib: Mib,
}

impl BackgroundThread {
    /// The stored path is the `"background_thread"` key's resolved MIB.
    pub closed spec fn wf(&self) -> bool {
        self.mib@ == mib_path(Key::BackgroundThread)
    }

    /// Resolves the key's MIB once, for repeated access without string
    /// parsing. Resolution of a key of the namespace always succeeds.
    pub fn new() -> (r: Result<BackgroundThread, Error>)
        ensures
            r is Ok,
            r->Ok_0.wf(),
    {
        let name = key_name_vec(Key::BackgroundThread);
        let mut path: Vec<usize> = Vec::new();
        path.push(0);
        proof {
            lemma_key_of_own_name(Key::BackgroundThread);
        }
        match raw::name_to_mib(name.as_slice(), &mut path) {
            Ok(()) => Ok(BackgroundThread { mib: Mib { path } }),
            Err(_) => unreached(),
        }
    }

    /// Returns the current background thread state.
    pub fn get(&self, ctl: &Ctl) -> (r: Result<bool, Error>)
        requires
            self.wf(),
        ensures
            r == Ok::<bool, Error>(ctl.background_thread),
    {
        proof {
            lemma_mib_path_roundtrip(Key::BackgroundThread);
        }
        raw::get_bool_mib(ctl, &self.mib)
    }

    /// Sets the background thread state.
    pub fn set(&self, ctl: &mut Ctl, background_thread: bool) -> (r: Result<(), Error>)
        requires
            self.wf(),
        ensures
            r == Ok::<(), Error>(()),
            *final(ctl) == (Ctl { background_thread: background_thread, ..*old(ctl) }),
    {
        proof {
            lemma_mib_path_roundtrip(Key::BackgroundThread);
        }
        raw::set_bool_mib(ctl, &self.mib, background_thread)
    }

}

/// Returns the maximum number of background threads that will be created.
pub fn max_background_threads(ctl: &Ctl) -> (r: Result<usize, Error>)
    ensures
        r == Ok::<usize, Error>(ctl.max_background_threads),
{
    let name = key_name_vec(Key::MaxBackgroundThreads);
    proof {
        lemma_key_of_own_name(Key::MaxBackgroundThreads);
    }
    raw::get_usize(ctl, name.as_slice())
}

/// Sets the maximum number of background threads that will be created.
pub fn set_max_background_threads(ctl: &mut Ctl, max_background_threads: usize) -> (r: Result<(), Error>)
    ensures
        r == Ok::<(), Error>(()),
        *final(ctl) == (Ctl { max_background_threads: max_background_threads, ..*old(ctl) }),
{
    let name = key_name_vec(Key::MaxBackgroundThreads);
    proof {
        lemma_key_of_own_name(Key::MaxBackgroundThreads);
    }
    raw::set_usize(ctl, name.as_slice(), max_background_threads)
}

/// A type providing repeated access to the background thread limit through its resolved MIB.
pub struct MaxBackgroundThreads {
    mib: Mib,
}

impl MaxBackgroundThreads {
    /// The stored path is the `"max_background_threads"` key's resolved MIB.
    pub closed spec fn wf(&self) -> bool {
        self.mib@ == mib_path(Key::MaxBackgroundThreads)
    }

    /// Resolves the key's MIB once, for repeated access without string
    /// parsing. Resolution of a key of the namespace always succeeds.
    pub fn new() -> (r: Result<MaxBackgroundThreads, Error>)
        ensures
            r is Ok,
            r->Ok_0.wf(),
    {
        let name = key_name_vec(Key::MaxBackgroundThreads);
        let mut path: Vec<usize> = Vec::new();
        path.push(0);
        proof {
            lemma_key_of_own_name(Key::MaxBackgroundThreads);
        }
        match raw::name_to_mib(name.as_slice(), &mut path) {
            Ok(()) => Ok(MaxBackgroundThreads { mib: Mib { path } }),
            Err(_) => unreached(),
        }
    }

    /// Returns the current background thread limit.
    pub fn get(&self, ctl: &Ctl) -> (r: Result<usize, Error>)
        requires
            self.wf(),
        ensures
            r == Ok::<usize, Error>(ctl.max_background_threads),
    {
        proof {
            lemma_mib_path_roundtrip(Key::MaxBackgroundThreads);
        }
        raw::get_usize_mib(ctl, &self.mib)
    }

    /// Sets the background thread limit.
    pub fn set(&self, ctl: &mut Ctl, max_background_threads: usize) -> (r: Result<(), Error>)
        requires
            self.wf(),
        ensures
            r == Ok::<(), Error>(()),
            *final(ctl) == (Ctl { max_background_threads: max_background_threads, ..*old(ctl) }),
    {
        proof {
            lemma_mib_path_roundtrip(Key::MaxBackgroundThreads);
        }
        raw::set_usize_mib(ctl, &self.mib, max_background_threads)
    }

}

} // verus!
