//! A verified model of a jemalloc-style `mallctl` control interface.
//!
//! The native allocator exposes a tree of named control keys (`"epoch"`,
//! `"stats.allocated"`, ...). Each key can be resolved once into a numeric
//! path, a MIB (Management Information Base), which later reads and writes
//! reuse to avoid repeated string parsing. This crate implements, and proves
//! correct, the two layers that sit directly on top of that interface:
//!
//! * the translation of an allocation alignment into the allocator's flag
//!   encoding, and
//! * the resolution of dotted key names into MIBs together with the typed
//!   read / write / update accessors built on them.
//!
//! The allocator's own state behind the control interface is represented by
//! an explicit `Ctl` value that callers pass to every operation, so that
//! the behaviour of each operation is a proved function of that state.
//!
//! Each control key is available both through a convenience function that
//! parses the dotted name on every call and through a type whose
//! constructor performs the MIB resolution once; reads through either
//! route are proved to return the same value.

use vstd::prelude::*;

pub mod arenas;
mod background_threads;
pub mod config;
pub mod ctl;
mod epoch;
pub mod error;
pub mod flags;
pub mod opt;
pub mod raw;
pub mod stats;
pub mod thread;
mod version;

pub use background_threads::BackgroundThread;
pub use background_threads::MaxBackgroundThreads;
pub use background_threads::background_thread;
pub use background_threads::max_background_threads;
pub use background_threads::set_background_thread;
pub use background_threads::set_max_background_threads;
pub use ctl::Ctl;
pub use ctl::Key;
pub use ctl::Kind;
pub use epoch::Epoch;
pub use epoch::epoch;
pub use epoch::lemma_epoch_advances_strictly;
pub use error::Error;
pub use error::cvt;
pub use flags::Jemalloc;
pub use flags::MALLOCX_ALIGN;
pub use flags::ZeroedAllocCall;
pub use flags::alloc_zeroed_call;
pub use flags::realloc_flags;
pub use flags::MALLOCX_ZERO;
pub use flags::MIN_ALIGN;
pub use flags::align_to_flags;
pub use flags::align_to_flags_zeroed;
pub use flags::mallocx_align;
pub use raw::Mib;
pub use version::Version;
pub use version::version;
