//! The control-key namespace and the modeled allocator state.
//!
//! The native allocator organises its tunables and statistics as a tree of
//! dotted names. This module fixes the portion of that namespace the crate
//! models: each key's dotted name, its numeric path (MIB), the kind of
//! value it carries, and whether it may be written. It also defines
//! [`Ctl`], the explicit state value behind the control interface, and the
//! specification-level meaning of every read and write.

use vstd::prelude::*;

verus! {

/// A key of the modeled control namespace.
#[derive(Copy, Clone, PartialEq, Eq, Structural, Debug)]
pub enum Key {
    /// `"version"`.
    Version,
    /// `"epoch"`.
    Epoch,
    /// `"background_thread"`.
    BackgroundThread,
    /// `"max_background_threads"`.
    MaxBackgroundThreads,
    /// `"config.malloc_conf"`.
    ConfigMallocConf,
    /// `"opt.abort"`.
    OptAbort,
    /// `"opt.dss"`.
    OptDss,
    /// `"opt.narenas"`.
    OptNarenas,
    /// `"opt.junk"`.
    OptJunk,
    /// `"opt.zero"`.
    OptZero,
    /// `"opt.tcache"`.
    OptTcache,
    /// `"opt.lg_tcache_max"`.
    OptLgTcacheMax,
    /// `"opt.background_thread"`.
    OptBackgroundThread,
    /// `"arenas.narenas"`.
    ArenasNarenas,
    /// `"stats.allocated"`.
    StatsAllocated,
    /// `"stats.active"`.
    StatsActive,
    /// `"stats.metadata"`.
    StatsMetadata,
    /// `"stats.resident"`.
    StatsResident,
    /// `"stats.mapped"`.
    StatsMapped,
    /// `"stats.retained"`.
    StatsRetained,
    /// `"thread.allocatedp"`.
    ThreadAllocatedP,
    /// `"thread.deallocatedp"`.
    ThreadDeallocatedP,
}

/// The kind of value a control key carries.
#[derive(Copy, Clone, PartialEq, Eq, Structural, Debug)]
pub enum Kind {
    /// A boolean value.
    KBool,
    /// A 32-bit unsigned value.
    KU32,
    /// A 64-bit unsigned value.
    KU64,
    /// A pointer-sized unsigned value.
    KUsize,
    /// A pointer to a static, null-terminated character string.
    KStr,
    /// A pointer to a thread-local 64-bit counter.
    KPtr,
}

/// The dotted name of a key, as bytes, without the null terminator.
pub open spec fn key_path(k: Key) -> Seq<u8> {
    match k {
        // "version"
        Key::Version => seq![118u8, 101u8, 114u8, 115u8, 105u8, 111u8, 110u8],
        // "epoch"
        Key::Epoch => seq![101u8, 112u8, 111u8, 99u8, 104u8],
        // "background_thread"
        Key::BackgroundThread => seq![98u8, 97u8, 99u8, 107u8, 103u8, 114u8, 111u8, 117u8, 110u8, 100u8, 95u8, 116u8, 104u8, 114u8, 101u8, 97u8, 100u8],
        // "max_background_threads"
        Key::MaxBackgroundThreads => seq![109u8, 97u8, 120u8, 95u8, 98u8, 97u8, 99u8, 107u8, 103u8, 114u8, 111u8, 117u8, 110u8, 100u8, 95u8, 116u8, 104u8, 114u8, 101u8, 97u8, 100u8, 115u8],
        // "config.malloc_conf"
        Key::ConfigMallocConf => seq![99u8, 111u8, 110u8, 102u8, 105u8, 103u8, 46u8, 109u8, 97u8, 108u8, 108u8, 111u8, 99u8, 95u8, 99u8, 111u8, 110u8, 102u8],
        // "opt.abort"
        Key::OptAbort => seq![111u8, 112u8, 116u8, 46u8, 97u8, 98u8, 111u8, 114u8, 116u8],
        // "opt.dss"
        Key::OptDss => seq![111u8, 112u8, 116u8, 46u8, 100u8, 115u8, 115u8],
        // "opt.narenas"
        Key::OptNarenas => seq![111u8, 112u8, 116u8, 46u8, 110u8, 97u8, 114u8, 101u8, 110u8, 97u8, 115u8],
        // "opt.junk"
        Key::OptJunk => seq![111u8, 112u8, 116u8, 46u8, 106u8, 117u8, 110u8, 107u8],
        // "opt.zero"
        Key::OptZero => seq![111u8, 112u8, 116u8, 46u8, 122u8, 101u8, 114u8, 111u8],
        // "opt.tcache"
        Key::OptTcache => seq![111u8, 112u8, 116u8, 46u8, 116u8, 99u8, 97u8, 99u8, 104u8, 101u8],
        // "opt.lg_tcache_max"
        Key::OptLgTcacheMax => seq![111u8, 112u8, 116u8, 46u8, 108u8, 103u8, 95u8, 116u8, 99u8, 97u8, 99u8, 104u8, 101u8, 95u8, 109u8, 97u8, 120u8],
        // "opt.background_thread"
        Key::OptBackgroundThread => seq![111u8, 112u8, 116u8, 46u8, 98u8, 97u8, 99u8, 107u8, 103u8, 114u8, 111u8, 117u8, 110u8, 100u8, 95u8, 116u8, 104u8, 114u8, 101u8, 97u8, 100u8],
        // "arenas.narenas"
        Key::ArenasNarenas => seq![97u8, 114u8, 101u8, 110u8, 97u8, 115u8, 46u8, 110u8, 97u8, 114u8, 101u8, 110u8, 97u8, 115u8],
        // "stats.allocated"
        Key::StatsAllocated => seq![115u8, 116u8, 97u8, 116u8, 115u8, 46u8, 97u8, 108u8, 108u8, 111u8, 99u8, 97u8, 116u8, 101u8, 100u8],
        // "stats.active"
        Key::StatsActive => seq![115u8, 116u8, 97u8, 116u8, 115u8, 46u8, 97u8, 99u8, 116u8, 105u8, 118u8, 101u8],
        // "stats.metadata"
        Key::StatsMetadata => seq![115u8, 116u8, 97u8, 116u8, 115u8, 46u8, 109u8, 101u8, 116u8, 97u8, 100u8, 97u8, 116u8, 97u8],
        // "stats.resident"
        Key::StatsResident => seq![115u8, 116u8, 97u8, 116u8, 115u8, 46u8, 114u8, 101u8, 115u8, 105u8, 100u8, 101u8, 110u8, 116u8],
        // "stats.mapped"
        Key::StatsMapped => seq![115u8, 116u8, 97u8, 116u8, 115u8, 46u8, 109u8, 97u8, 112u8, 112u8, 101u8, 100u8],
        // "stats.retained"
        Key::StatsRetained => seq![115u8, 116u8, 97u8, 116u8, 115u8, 46u8, 114u8, 101u8, 116u8, 97u8, 105u8, 110u8, 101u8, 100u8],
        // "thread.allocatedp"
        Key::ThreadAllocatedP => seq![116u8, 104u8, 114u8, 101u8, 97u8, 100u8, 46u8, 97u8, 108u8, 108u8, 111u8, 99u8, 97u8, 116u8, 101u8, 100u8, 112u8],
        // "thread.deallocatedp"
        Key::ThreadDeallocatedP => seq![116u8, 104u8, 114u8, 101u8, 97u8, 100u8, 46u8, 100u8, 101u8, 97u8, 108u8, 108u8, 111u8, 99u8, 97u8, 116u8, 101u8, 100u8, 112u8],
    }
}

/// The numeric path (MIB) of a key in the modeled namespace.
pub open spec fn mib_path(k: Key) -> Seq<usize> {
    match k {
        Key::Version => seq![0usize],
        Key::Epoch => seq![1usize],
        Key::BackgroundThread => seq![2usize],
        Key::MaxBackgroundThreads => seq![3usize],
        Key::ConfigMallocConf => seq![4usize, 0usize],
        Key::OptAbort => seq![5usize, 0usize],
        Key::OptDss => seq![5usize, 1usize],
        Key::OptNarenas => seq![5usize, 2usize],
        Key::OptJunk => seq![5usize, 3usize],
        Key::OptZero => seq![5usize, 4usize],
        Key::OptTcache => seq![5usize, 5usize],
        Key::OptLgTcacheMax => seq![5usize, 6usize],
        Key::OptBackgroundThread => seq![5usize, 7usize],
        Key::ArenasNarenas => seq![6usize, 0usize],
        Key::StatsAllocated => seq![7usize, 0usize],
        Key::StatsActive => seq![7usize, 1usize],
        Key::StatsMetadata => seq![7usize, 2usize],
        Key::StatsResident => seq![7usize, 3usize],
        Key::StatsMapped => seq![7usize, 4usize],
        Key::StatsRetained => seq![7usize, 5usize],
        Key::ThreadAllocatedP => seq![8usize, 0usize],
        Key::ThreadDeallocatedP => seq![8usize, 1usize],
    }
}

/// The kind of value each key carries.
pub open spec fn kind_of(k: Key) -> Kind {
    match k {
        Key::Version => Kind::KStr,
        Key::Epoch => Kind::KU64,
        Key::BackgroundThread => Kind::KBool,
        Key::MaxBackgroundThreads => Kind::KUsize,
        Key::ConfigMallocConf => Kind::KStr,
        Key::OptAbort => Kind::KBool,
        Key::OptDss => Kind::KStr,
        Key::OptNarenas => Kind::KU32,
        Key::OptJunk => Kind::KStr,
        Key::OptZero => Kind::KBool,
        Key::OptTcache => Kind::KBool,
        Key::OptLgTcacheMax => Kind::KUsize,
        Key::OptBackgroundThread => Kind::KBool,
        Key::ArenasNarenas => Kind::KU32,
        Key::StatsAllocated => Kind::KUsize,
        Key::StatsActive => Kind::KUsize,
        Key::StatsMetadata => Kind::KUsize,
        Key::StatsResident => Kind::KUsize,
        Key::StatsMapped => Kind::KUsize,
        Key::StatsRetained => Kind::KUsize,
        Key::ThreadAllocatedP => Kind::KPtr,
        Key::ThreadDeallocatedP => Kind::KPtr,
    }
}

/// Whether a key accepts writes. Every key of the model is readable.
pub open spec fn writable(k: Key) -> bool {
    match k {
        Key::Version => false,
        Key::Epoch => true,
        Key::BackgroundThread => true,
        Key::MaxBackgroundThreads => true,
        Key::ConfigMallocConf => false,
        Key::OptAbort => false,
        Key::OptDss => false,
        Key::OptNarenas => false,
        Key::OptJunk => false,
        Key::OptZero => false,
        Key::OptTcache => false,
        Key::OptLgTcacheMax => false,
        Key::OptBackgroundThread => false,
        Key::ArenasNarenas => false,
        Key::StatsAllocated => false,
        Key::StatsActive => false,
        Key::StatsMetadata => false,
        Key::StatsResident => false,
        Key::StatsMapped => false,
        Key::StatsRetained => false,
        Key::ThreadAllocatedP => false,
        Key::ThreadDeallocatedP => false,
    }
}

/// True when `name` is the dotted name of `k` followed by a null byte:
/// exactly the bytes the native string parser would accept for `k`,
/// whatever follows the terminator.
pub open spec fn names_key(name: Seq<u8>, k: Key) -> bool {
    let p = key_path(k);
    name.len() > p.len() && name.subrange(0, p.len() as int) == p && name[p.len() as int] == 0
}

/// The key a null-terminated name denotes, if any.
pub open spec fn key_of(name: Seq<u8>) -> Option<Key> {
    if names_key(name, Key::Version) {
        Some(Key::Version)
    } else if names_key(name, Key::Epoch) {
        Some(Key::Epoch)
    } else if names_key(name, Key::BackgroundThread) {
        Some(Key::BackgroundThread)
    } else if names_key(name, Key::MaxBackgroundThreads) {
        Some(Key::MaxBackgroundThreads)
    } else if names_key(name, Key::ConfigMallocConf) {
        Some(Key::ConfigMallocConf)
    } else if names_key(name, Key::OptAbort) {
        Some(Key::OptAbort)
    } else if names_key(name, Key::OptDss) {
        Some(Key::OptDss)
    } else if names_key(name, Key::OptNarenas) {
        Some(Key::OptNarenas)
    } else if names_key(name, Key::OptJunk) {
        Some(Key::OptJunk)
    } else if names_key(name, Key::OptZero) {
        Some(Key::OptZero)
    } else if names_key(name, Key::OptTcache) {
        Some(Key::OptTcache)
    } else if names_key(name, Key::OptLgTcacheMax) {
        Some(Key::OptLgTcacheMax)
    } else if names_key(name, Key::OptBackgroundThread) {
        Some(Key::OptBackgroundThread)
    } else if names_key(name, Key::ArenasNarenas) {
        Some(Key::ArenasNarenas)
    } else if names_key(name, Key::StatsAllocated) {
        Some(Key::StatsAllocated)
    } else if names_key(name, Key::StatsActive) {
        Some(Key::StatsActive)
    } else if names_key(name, Key::StatsMetadata) {
        Some(Key::StatsMetadata)
    } else if names_key(name, Key::StatsResident) {
        Some(Key::StatsResident)
    } else if names_key(name, Key::StatsMapped) {
        Some(Key::StatsMapped)
    } else if names_key(name, Key::StatsRetained) {
        Some(Key::StatsRetained)
    } else if names_key(name, Key::ThreadAllocatedP) {
        Some(Key::ThreadAllocatedP)
    } else if names_key(name, Key::ThreadDeallocatedP) {
        Some(Key::ThreadDeallocatedP)
    } else {
        None
    }
}

/// The key a numeric path denotes, if any.
pub open spec fn key_of_mib(m: Seq<usize>) -> Option<Key> {
    if m.len() == 1 {
        if m[0] == 0 {
            Some(Key::Version)
        } else if m[0] == 1 {
            Some(Key::Epoch)
        } else if m[0] == 2 {
            Some(Key::BackgroundThread)
        } else if m[0] == 3 {
            Some(Key::MaxBackgroundThreads)
        } else {
            None
        }
    } else if m.len() == 2 {
        if m[0] == 4 && m[1] == 0 {
            Some(Key::ConfigMallocConf)
        } else if m[0] == 5 && m[1] == 0 {
            Some(Key::OptAbort)
        } else if m[0] == 5 && m[1] == 1 {
            Some(Key::OptDss)
        } else if m[0] == 5 && m[1] == 2 {
            Some(Key::OptNarenas)
        } else if m[0] == 5 && m[1] == 3 {
            Some(Key::OptJunk)
        } else if m[0] == 5 && m[1] == 4 {
            Some(Key::OptZero)
        } else if m[0] == 5 && m[1] == 5 {
            Some(Key::OptTcache)
        } else if m[0] == 5 && m[1] == 6 {
            Some(Key::OptLgTcacheMax)
        } else if m[0] == 5 && m[1] == 7 {
            Some(Key::OptBackgroundThread)
        } else if m[0] == 6 && m[1] == 0 {
            Some(Key::ArenasNarenas)
        } else if m[0] == 7 && m[1] == 0 {
            Some(Key::StatsAllocated)
        } else if m[0] == 7 && m[1] == 1 {
            Some(Key::StatsActive)
        } else if m[0] == 7 && m[1] == 2 {
            Some(Key::StatsMetadata)
        } else if m[0] == 7 && m[1] == 3 {
            Some(Key::StatsResident)
        } else if m[0] == 7 && m[1] == 4 {
            Some(Key::StatsMapped)
        } else if m[0] == 7 && m[1] == 5 {
            Some(Key::StatsRetained)
        } else if m[0] == 8 && m[1] == 0 {
            Some(Key::ThreadAllocatedP)
        } else if m[0] == 8 && m[1] == 1 {
            Some(Key::ThreadDeallocatedP)
        } else {
            None
        }
    } else {
        None
    }
}

/// Resolving a key's numeric path leads back to the same key: the MIB
/// paths of distinct keys are distinct.
pub proof fn lemma_mib_path_roundtrip(k: Key)
    ensures
        key_of_mib(mib_path(k)) == Some(k),
{
}

/// A null-terminated, ASCII-only byte string: the representation the
/// native side uses for string-valued keys.
pub open spec fn ascii_cstr(s: Seq<u8>) -> bool {
    &&& s.len() >= 1
    &&& s.last() == 0
    &&& forall|i: int| 0 <= i < s.len() ==> s[i] < 0x80
}

/// The state behind the modeled control interface: every value the
/// namespace exposes, as one explicit record.
pub struct Ctl {
    /// The allocator's version string (`"version"`).
    pub version: Vec<u8>,
    /// The statistics-refresh counter (`"epoch"`).
    pub epoch: u64,
    /// Whether background worker threads run (`"background_thread"`).
    pub background_thread: bool,
    /// The background thread limit (`"max_background_threads"`).
    pub max_background_threads: usize,
    /// The compiled-in configuration string (`"config.malloc_conf"`).
    pub malloc_conf: Vec<u8>,
    /// Abort-on-warning behaviour (`"opt.abort"`).
    pub opt_abort: bool,
    /// The `sbrk` allocation precedence (`"opt.dss"`).
    pub opt_dss: Vec<u8>,
    /// The configured arena limit (`"opt.narenas"`).
    pub opt_narenas: u32,
    /// The junk-filling mode (`"opt.junk"`).
    pub opt_junk: Vec<u8>,
    /// Whether allocations are zero-filled (`"opt.zero"`).
    pub opt_zero: bool,
    /// Whether the thread cache is enabled (`"opt.tcache"`).
    pub opt_tcache: bool,
    /// Log of the largest cached size class (`"opt.lg_tcache_max"`).
    pub opt_lg_tcache_max: usize,
    /// The configured background thread default (`"opt.background_thread"`).
    pub opt_background_thread: bool,
    /// The current arena limit (`"arenas.narenas"`).
    pub arenas_narenas: u32,
    /// Bytes allocated by the application (`"stats.allocated"`).
    pub stats_allocated: usize,
    /// Bytes in active pages (`"stats.active"`).
    pub stats_active: usize,
    /// Bytes dedicated to metadata (`"stats.metadata"`).
    pub stats_metadata: usize,
    /// Bytes in physically resident pages (`"stats.resident"`).
    pub stats_resident: usize,
    /// Bytes in active extents (`"stats.mapped"`).
    pub stats_mapped: usize,
    /// Bytes retained but unused (`"stats.retained"`).
    pub stats_retained: usize,
    /// Bytes ever allocated by the calling thread (`"thread.allocatedp"`).
    pub thread_allocated: u64,
    /// Bytes ever deallocated by the calling thread (`"thread.deallocatedp"`).
    pub thread_deallocated: u64,
}

impl Ctl {
    /// Well-formedness of the control state: string values are
    /// null-terminated ASCII, and the epoch counter has been advanced at
    /// least once since boot.
    pub open spec fn wf(self) -> bool {
        &&& ascii_cstr(self.version@)
        &&& ascii_cstr(self.malloc_conf@)
        &&& ascii_cstr(self.opt_dss@)
        &&& ascii_cstr(self.opt_junk@)
        &&& self.epoch >= 1
    }
}

/// The boolean value of a key, meaningful for keys of boolean kind.
pub open spec fn bool_val(c: Ctl, k: Key) -> bool {
    match k {
        Key::BackgroundThread => c.background_thread,
        Key::OptAbort => c.opt_abort,
        Key::OptZero => c.opt_zero,
        Key::OptTcache => c.opt_tcache,
        Key::OptBackgroundThread => c.opt_background_thread,
        _ => false,
    }
}

/// The 32-bit value of a key, meaningful for keys of 32-bit kind.
pub open spec fn u32_val(c: Ctl, k: Key) -> u32 {
    match k {
        Key::OptNarenas => c.opt_narenas,
        Key::ArenasNarenas => c.arenas_narenas,
        _ => 0,
    }
}

/// The 64-bit value of a key, meaningful for keys of 64-bit kind.
pub open spec fn u64_val(c: Ctl, k: Key) -> u64 {
    match k {
        Key::Epoch => c.epoch,
        _ => 0,
    }
}

/// The pointer-sized value of a key, meaningful for keys of
/// pointer-sized kind.
pub open spec fn usize_val(c: Ctl, k: Key) -> usize {
    match k {
        Key::MaxBackgroundThreads => c.max_background_threads,
        Key::OptLgTcacheMax => c.opt_lg_tcache_max,
        Key::StatsAllocated => c.stats_allocated,
        Key::StatsActive => c.stats_active,
        Key::StatsMetadata => c.stats_metadata,
        Key::StatsResident => c.stats_resident,
        Key::StatsMapped => c.stats_mapped,
        Key::StatsRetained => c.stats_retained,
        _ => 0,
    }
}

/// The bytes of a string-valued key, meaningful for keys of string kind.
pub open spec fn str_val(c: Ctl, k: Key) -> Seq<u8> {
    match k {
        Key::Version => c.version@,
        Key::ConfigMallocConf => c.malloc_conf@,
        Key::OptDss => c.opt_dss@,
        Key::OptJunk => c.opt_junk@,
        _ => seq![0u8],
    }
}

/// The thread-local counter a pointer-valued key exposes, meaningful for
/// keys of pointer kind.
pub open spec fn ptr_val(c: Ctl, k: Key) -> u64 {
    match k {
        Key::ThreadAllocatedP => c.thread_allocated,
        Key::ThreadDeallocatedP => c.thread_deallocated,
        _ => 0,
    }
}

/// The epoch counter after one advance: it grows by one, and restarts at
/// one in the (unreachable in practice) case of wrap-around, so that it
/// always stays positive.
pub open spec fn bumped(e: u64) -> u64 {
    if e == u64::MAX {
        1u64
    } else {
        (e + 1) as u64
    }
}

/// The state after writing boolean `v` to key `k`, meaningful for
/// writable boolean keys.
pub open spec fn written_bool(c: Ctl, k: Key, v: bool) -> Ctl {
    match k {
        Key::BackgroundThread => Ctl { background_thread: v, ..c },
        _ => c,
    }
}

/// The state after writing 64-bit `v` to key `k`, meaningful for
/// writable 64-bit keys. Writing the epoch key advances the counter and
/// ignores the value written, as the native interface does.
pub open spec fn written_u64(c: Ctl, k: Key, v: u64) -> Ctl {
    match k {
        Key::Epoch => Ctl { epoch: bumped(c.epoch), ..c },
        _ => c,
    }
}

/// The state after writing pointer-sized `v` to key `k`, meaningful for
/// writable pointer-sized keys.
pub open spec fn written_usize(c: Ctl, k: Key, v: usize) -> Ctl {
    match k {
        Key::MaxBackgroundThreads => Ctl { max_background_threads: v, ..c },
        _ => c,
    }
}

/// The model's version string. (`"5.1.0-0-g0"`, null-terminated.)
pub open spec fn default_version() -> Seq<u8> {
    seq![53u8, 46u8, 49u8, 46u8, 48u8, 45u8, 48u8, 45u8, 103u8, 48u8, 0u8]
}

fn default_version_vec() -> (r: Vec<u8>)
    ensures
        r@ == default_version(),
{
    let mut v: Vec<u8> = Vec::new();
    v.push(53u8);
    v.push(46u8);
    v.push(49u8);
    v.push(46u8);
    v.push(48u8);
    v.push(45u8);
    v.push(48u8);
    v.push(45u8);
    v.push(103u8);
    v.push(48u8);
    v.push(0u8);
    proof {
        assert(v@ =~= default_version());
    }
    v
}

/// The model's compiled-in configuration string: empty. (`""`, null-terminated.)
pub open spec fn default_malloc_conf() -> Seq<u8> {
    seq![0u8]
}

fn default_malloc_conf_vec() -> (r: Vec<u8>)
    ensures
        r@ == default_malloc_conf(),
{
    let mut v: Vec<u8> = Vec::new();
    v.push(0u8);
    proof {
        assert(v@ =~= default_malloc_conf());
    }
    v
}

/// The model's `sbrk` precedence setting. (`"secondary"`, null-terminated.)
pub open spec fn default_opt_dss() -> Seq<u8> {
    seq![115u8, 101u8, 99u8, 111u8, 110u8, 100u8, 97u8, 114u8, 121u8, 0u8]
}

fn default_opt_dss_vec() -> (r: Vec<u8>)
    ensures
        r@ == default_opt_dss(),
{
    let mut v: Vec<u8> = Vec::new();
    v.push(115u8);
    v.push(101u8);
    v.push(99u8);
    v.push(111u8);
    v.push(110u8);
    v.push(100u8);
    v.push(97u8);
    v.push(114u8);
    v.push(121u8);
    v.push(0u8);
    proof {
        assert(v@ =~= default_opt_dss());
    }
    v
}

/// The model's junk-filling mode. (`"false"`, null-terminated.)
pub open spec fn default_opt_junk() -> Seq<u8> {
    seq![102u8, 97u8, 108u8, 115u8, 101u8, 0u8]
}

fn default_opt_junk_vec() -> (r: Vec<u8>)
    ensures
        r@ == default_opt_junk(),
{
    let mut v: Vec<u8> = Vec::new();
    v.push(102u8);
    v.push(97u8);
    v.push(108u8);
    v.push(115u8);
    v.push(101u8);
    v.push(0u8);
    proof {
        assert(v@ =~= default_opt_junk());
    }
    v
}

impl Ctl {
    /// A control state holding the model's boot configuration.
    pub fn new() -> (r: Ctl)
        ensures
            r.wf(),
            r.version@ == default_version(),
            r.malloc_conf@ == default_malloc_conf(),
            r.opt_dss@ == default_opt_dss(),
            r.opt_junk@ == default_opt_junk(),
            r.epoch == 1u64,
            r.background_thread == false,
            r.max_background_threads == 4usize,
            r.opt_abort == false,
            r.opt_narenas == 8u32,
            r.opt_zero == false,
            r.opt_tcache == true,
            r.opt_lg_tcache_max == 15usize,
            r.opt_background_thread == false,
            r.arenas_narenas == 8u32,
            r.stats_allocated == 65536usize,
            r.stats_active == 81920usize,
            r.stats_metadata == 8192usize,
            r.stats_resident == 98304usize,
            r.stats_mapped == 131072usize,
            r.stats_retained == 16384usize,
            r.thread_allocated == 0u64,
            r.thread_deallocated == 0u64,
    {
        let r = Ctl {
            version: default_version_vec(),
            malloc_conf: default_malloc_conf_vec(),
            opt_dss: default_opt_dss_vec(),
            opt_junk: default_opt_junk_vec(),
            epoch: 1u64,
            background_thread: false,
            max_background_threads: 4usize,
            opt_abort: false,
            opt_narenas: 8u32,
            opt_zero: false,
            opt_tcache: true,
            opt_lg_tcache_max: 15usize,
            opt_background_thread: false,
            arenas_narenas: 8u32,
            stats_allocated: 65536usize,
            stats_active: 81920usize,
            stats_metadata: 8192usize,
            stats_resident: 98304usize,
            stats_mapped: 131072usize,
            stats_retained: 16384usize,
            thread_allocated: 0u64,
            thread_deallocated: 0u64,
        };
        proof {
            assert(ascii_cstr(r.version@));
            assert(ascii_cstr(r.malloc_conf@));
            assert(ascii_cstr(r.opt_dss@));
            assert(ascii_cstr(r.opt_junk@));
        }
        r
    }
}

/// The dotted name of `k`, as a null-terminated byte vector.
pub fn key_name_vec(k: Key) -> (r: Vec<u8>)
    ensures
        r@ == key_path(k).push(0u8),
{
    match k {
        Key::Version => {
            let mut v: Vec<u8> = Vec::new();
            v.push(118u8);
            v.push(101u8);
            v.push(114u8);
            v.push(115u8);
            v.push(105u8);
            v.push(111u8);
            v.push(110u8);
            v.push(0u8);
            proof {
                assert(v@ =~= key_path(Key::Version).push(0u8));
            }
            v
        },
        Key::Epoch => {
            let mut v: Vec<u8> = Vec::new();
            v.push(101u8);
            v.push(112u8);
            v.push(111u8);
            v.push(99u8);
            v.push(104u8);
            v.push(0u8);
            proof {
                assert(v@ =~= key_path(Key::Epoch).push(0u8));
            }
            v
        },
        Key::BackgroundThread => {
            let mut v: Vec<u8> = Vec::new();
            v.push(98u8);
            v.push(97u8);
            v.push(99u8);
            v.push(107u8);
            v.push(103u8);
            v.push(114u8);
            v.push(111u8);
            v.push(117u8);
            v.push(110u8);
            v.push(100u8);
            v.push(95u8);
            v.push(116u8);
            v.push(104u8);
            v.push(114u8);
            v.push(101u8);
            v.push(97u8);
            v.push(100u8);
            v.push(0u8);
            proof {
                assert(v@ =~= key_path(Key::BackgroundThread).push(0u8));
            }
            v
        },
        Key::MaxBackgroundThreads => {
            let mut v: Vec<u8> = Vec::new();
            v.push(109u8);
            v.push(97u8);
            v.push(120u8);
            v.push(95u8);
            v.push(98u8);
            v.push(97u8);
            v.push(99u8);
            v.push(107u8);
            v.push(103u8);
            v.push(114u8);
            v.push(111u8);
            v.push(117u8);
            v.push(110u8);
            v.push(100u8);
            v.push(95u8);
            v.push(116u8);
            v.push(104u8);
            v.push(114u8);
            v.push(101u8);
            v.push(97u8);
            v.push(100u8);
            v.push(115u8);
            v.push(0u8);
            proof {
                assert(v@ =~= key_path(Key::MaxBackgroundThreads).push(0u8));
            }
            v
        },
        Key::ConfigMallocConf => {
            let mut v: Vec<u8> = Vec::new();
            v.push(99u8);
            v.push(111u8);
            v.push(110u8);
            v.push(102u8);
            v.push(105u8);
            v.push(103u8);
            v.push(46u8);
            v.push(109u8);
            v.push(97u8);
            v.push(108u8);
            v.push(108u8);
            v.push(111u8);
            v.push(99u8);
            v.push(95u8);
            v.push(99u8);
            v.push(111u8);
            v.push(110u8);
            v.push(102u8);
            v.push(0u8);
            proof {
                assert(v@ =~= key_path(Key::ConfigMallocConf).push(0u8));
            }
            v
        },
        Key::OptAbort => {
            let mut v: Vec<u8> = Vec::new();
            v.push(111u8);
            v.push(112u8);
            v.push(116u8);
            v.push(46u8);
            v.push(97u8);
            v.push(98u8);
            v.push(111u8);
            v.push(114u8);
            v.push(116u8);
            v.push(0u8);
            proof {
                assert(v@ =~= key_path(Key::OptAbort).push(0u8));
            }
            v
        },
        Key::OptDss => {
            let mut v: Vec<u8> = Vec::new();
            v.push(111u8);
            v.push(112u8);
            v.push(116u8);
            v.push(46u8);
            v.push(100u8);
            v.push(115u8);
            v.push(115u8);
            v.push(0u8);
            proof {
                assert(v@ =~= key_path(Key::OptDss).push(0u8));
            }
            v
        },
        Key::OptNarenas => {
            let mut v: Vec<u8> = Vec::new();
            v.push(111u8);
            v.push(112u8);
            v.push(116u8);
            v.push(46u8);
            v.push(110u8);
            v.push(97u8);
            v.push(114u8);
            v.push(101u8);
            v.push(110u8);
            v.push(97u8);
            v.push(115u8);
            v.push(0u8);
            proof {
                assert(v@ =~= key_path(Key::OptNarenas).push(0u8));
            }
            v
        },
        Key::OptJunk => {
            let mut v: Vec<u8> = Vec::new();
            v.push(111u8);
            v.push(112u8);
            v.push(116u8);
            v.push(46u8);
            v.push(106u8);
            v.push(117u8);
            v.push(110u8);
            v.push(107u8);
            v.push(0u8);
            proof {
                assert(v@ =~= key_path(Key::OptJunk).push(0u8));
            }
            v
        },
        Key::OptZero => {
            let mut v: Vec<u8> = Vec::new();
            v.push(111u8);
            v.push(112u8);
            v.push(116u8);
            v.push(46u8);
            v.push(122u8);
            v.push(101u8);
            v.push(114u8);
            v.push(111u8);
            v.push(0u8);
            proof {
                assert(v@ =~= key_path(Key::OptZero).push(0u8));
            }
            v
        },
        Key::OptTcache => {
            let mut v: Vec<u8> = Vec::new();
            v.push(111u8);
            v.push(112u8);
            v.push(116u8);
            v.push(46u8);
            v.push(116u8);
            v.push(99u8);
            v.push(97u8);
            v.push(99u8);
            v.push(104u8);
            v.push(101u8);
            v.push(0u8);
            proof {
                assert(v@ =~= key_path(Key::OptTcache).push(0u8));
            }
            v
        },
        Key::OptLgTcacheMax => {
            let mut v: Vec<u8> = Vec::new();
            v.push(111u8);
            v.push(112u8);
            v.push(116u8);
            v.push(46u8);
            v.push(108u8);
            v.push(103u8);
            v.push(95u8);
            v.push(116u8);
            v.push(99u8);
            v.push(97u8);
            v.push(99u8);
            v.push(104u8);
            v.push(101u8);
            v.push(95u8);
            v.push(109u8);
            v.push(97u8);
            v.push(120u8);
            v.push(0u8);
            proof {
                assert(v@ =~= key_path(Key::OptLgTcacheMax).push(0u8));
            }
            v
        },
        Key::OptBackgroundThread => {
            let mut v: Vec<u8> = Vec::new();
            v.push(111u8);
            v.push(112u8);
            v.push(116u8);
            v.push(46u8);
            v.push(98u8);
            v.push(97u8);
            v.push(99u8);
            v.push(107u8);
            v.push(103u8);
            v.push(114u8);
            v.push(111u8);
            v.push(117u8);
            v.push(110u8);
            v.push(100u8);
            v.push(95u8);
            v.push(116u8);
            v.push(104u8);
            v.push(114u8);
            v.push(101u8);
            v.push(97u8);
            v.push(100u8);
            v.push(0u8);
            proof {
                assert(v@ =~= key_path(Key::OptBackgroundThread).push(0u8));
            }
            v
        },
        Key::ArenasNarenas => {
            let mut v: Vec<u8> = Vec::new();
            v.push(97u8);
            v.push(114u8);
            v.push(101u8);
            v.push(110u8);
            v.push(97u8);
            v.push(115u8);
            v.push(46u8);
            v.push(110u8);
            v.push(97u8);
            v.push(114u8);
            v.push(101u8);
            v.push(110u8);
            v.push(97u8);
            v.push(115u8);
            v.push(0u8);
            proof {
                assert(v@ =~= key_path(Key::ArenasNarenas).push(0u8));
            }
            v
        },
        Key::StatsAllocated => {
            let mut v: Vec<u8> = Vec::new();
            v.push(115u8);
            v.push(116u8);
            v.push(97u8);
            v.push(116u8);
            v.push(115u8);
            v.push(46u8);
            v.push(97u8);
            v.push(108u8);
            v.push(108u8);
            v.push(111u8);
            v.push(99u8);
            v.push(97u8);
            v.push(116u8);
            v.push(101u8);
            v.push(100u8);
            v.push(0u8);
            proof {
                assert(v@ =~= key_path(Key::StatsAllocated).push(0u8));
            }
            v
        },
        Key::StatsActive => {
            let mut v: Vec<u8> = Vec::new();
            v.push(115u8);
            v.push(116u8);
            v.push(97u8);
            v.push(116u8);
            v.push(115u8);
            v.push(46u8);
            v.push(97u8);
            v.push(99u8);
            v.push(116u8);
            v.push(105u8);
            v.push(118u8);
            v.push(101u8);
            v.push(0u8);
            proof {
                assert(v@ =~= key_path(Key::StatsActive).push(0u8));
            }
            v
        },
        Key::StatsMetadata => {
            let mut v: Vec<u8> = Vec::new();
            v.push(115u8);
            v.push(116u8);
            v.push(97u8);
            v.push(116u8);
            v.push(115u8);
            v.push(46u8);
            v.push(109u8);
            v.push(101u8);
            v.push(116u8);
            v.push(97u8);
            v.push(100u8);
            v.push(97u8);
            v.push(116u8);
            v.push(97u8);
            v.push(0u8);
            proof {
                assert(v@ =~= key_path(Key::StatsMetadata).push(0u8));
            }
            v
        },
        Key::StatsResident => {
            let mut v: Vec<u8> = Vec::new();
            v.push(115u8);
            v.push(116u8);
            v.push(97u8);
            v.push(116u8);
            v.push(115u8);
            v.push(46u8);
            v.push(114u8);
            v.push(101u8);
            v.push(115u8);
            v.push(105u8);
            v.push(100u8);
            v.push(101u8);
            v.push(110u8);
            v.push(116u8);
            v.push(0u8);
            proof {
                assert(v@ =~= key_path(Key::StatsResident).push(0u8));
            }
            v
        },
        Key::StatsMapped => {
            let mut v: Vec<u8> = Vec::new();
            v.push(115u8);
            v.push(116u8);
            v.push(97u8);
            v.push(116u8);
            v.push(115u8);
            v.push(46u8);
            v.push(109u8);
            v.push(97u8);
            v.push(112u8);
            v.push(112u8);
            v.push(101u8);
            v.push(100u8);
            v.push(0u8);
            proof {
                assert(v@ =~= key_path(Key::StatsMapped).push(0u8));
            }
            v
        },
        Key::StatsRetained => {
            let mut v: Vec<u8> = Vec::new();
            v.push(115u8);
            v.push(116u8);
            v.push(97u8);
            v.push(116u8);
            v.push(115u8);
            v.push(46u8);
            v.push(114u8);
            v.push(101u8);
            v.push(116u8);
            v.push(97u8);
            v.push(105u8);
            v.push(110u8);
            v.push(101u8);
            v.push(100u8);
            v.push(0u8);
            proof {
                assert(v@ =~= key_path(Key::StatsRetained).push(0u8));
            }
            v
        },
        Key::ThreadAllocatedP => {
            let mut v: Vec<u8> = Vec::new();
            v.push(116u8);
            v.push(104u8);
            v.push(114u8);
            v.push(101u8);
            v.push(97u8);
            v.push(100u8);
            v.push(46u8);
            v.push(97u8);
            v.push(108u8);
            v.push(108u8);
            v.push(111u8);
            v.push(99u8);
            v.push(97u8);
            v.push(116u8);
            v.push(101u8);
            v.push(100u8);
            v.push(112u8);
            v.push(0u8);
            proof {
                assert(v@ =~= key_path(Key::ThreadAllocatedP).push(0u8));
            }
            v
        },
        Key::ThreadDeallocatedP => {
            let mut v: Vec<u8> = Vec::new();
            v.push(116u8);
            v.push(104u8);
            v.push(114u8);
            v.push(101u8);
            v.push(97u8);
            v.push(100u8);
            v.push(46u8);
            v.push(100u8);
            v.push(101u8);
            v.push(97u8);
            v.push(108u8);
            v.push(108u8);
            v.push(111u8);
            v.push(99u8);
            v.push(97u8);
            v.push(116u8);
            v.push(101u8);
            v.push(100u8);
            v.push(112u8);
            v.push(0u8);
            proof {
                assert(v@ =~= key_path(Key::ThreadDeallocatedP).push(0u8));
            }
            v
        },
    }
}

/// The numeric path of `k`, as a vector.
pub fn key_mib_vec(k: Key) -> (r: Vec<usize>)
    ensures
        r@ == mib_path(k),
{
    match k {
        Key::Version => {
            let mut v: Vec<usize> = Vec::new();
            v.push(0usize);
            proof {
                assert(v@ =~= mib_path(Key::Version));
            }
            v
        },
        Key::Epoch => {
            let mut v: Vec<usize> = Vec::new();
            v.push(1usize);
            proof {
                assert(v@ =~= mib_path(Key::Epoch));
            }
            v
        },
        Key::BackgroundThread => {
            let mut v: Vec<usize> = Vec::new();
            v.push(2usize);
            proof {
                assert(v@ =~= mib_path(Key::BackgroundThread));
            }
            v
        },
        Key::MaxBackgroundThreads => {
            let mut v: Vec<usize> = Vec::new();
            v.push(3usize);
            proof {
                assert(v@ =~= mib_path(Key::MaxBackgroundThreads));
            }
            v
        },
        Key::ConfigMallocConf => {
            let mut v: Vec<usize> = Vec::new();
            v.push(4usize);
            v.push(0usize);
            proof {
                assert(v@ =~= mib_path(Key::ConfigMallocConf));
            }
            v
        },
        Key::OptAbort => {
            let mut v: Vec<usize> = Vec::new();
            v.push(5usize);
            v.push(0usize);
            proof {
                assert(v@ =~= mib_path(Key::OptAbort));
            }
            v
        },
        Key::OptDss => {
            let mut v: Vec<usize> = Vec::new();
            v.push(5usize);
            v.push(1usize);
            proof {
                assert(v@ =~= mib_path(Key::OptDss));
            }
            v
        },
        Key::OptNarenas => {
            let mut v: Vec<usize> = Vec::new();
            v.push(5usize);
            v.push(2usize);
            proof {
                assert(v@ =~= mib_path(Key::OptNarenas));
            }
            v
        },
        Key::OptJunk => {
            let mut v: Vec<usize> = Vec::new();
            v.push(5usize);
            v.push(3usize);
            proof {
                assert(v@ =~= mib_path(Key::OptJunk));
            }
            v
        },
        Key::OptZero => {
            let mut v: Vec<usize> = Vec::new();
            v.push(5usize);
            v.push(4usize);
            proof {
                assert(v@ =~= mib_path(Key::OptZero));
            }
            v
        },
        Key::OptTcache => {
            let mut v: Vec<usize> = Vec::new();
            v.push(5usize);
            v.push(5usize);
            proof {
                assert(v@ =~= mib_path(Key::OptTcache));
            }
            v
        },
        Key::OptLgTcacheMax => {
            let mut v: Vec<usize> = Vec::new();
            v.push(5usize);
            v.push(6usize);
            proof {
                assert(v@ =~= mib_path(Key::OptLgTcacheMax));
            }
            v
        },
        Key::OptBackgroundThread => {
            let mut v: Vec<usize> = Vec::new();
            v.push(5usize);
            v.push(7usize);
            proof {
                assert(v@ =~= mib_path(Key::OptBackgroundThread));
            }
            v
        },
        Key::ArenasNarenas => {
            let mut v: Vec<usize> = Vec::new();
            v.push(6usize);
            v.push(0usize);
            proof {
                assert(v@ =~= mib_path(Key::ArenasNarenas));
            }
            v
        },
        Key::StatsAllocated => {
            let mut v: Vec<usize> = Vec::new();
            v.push(7usize);
            v.push(0usize);
            proof {
                assert(v@ =~= mib_path(Key::StatsAllocated));
            }
            v
        },
        Key::StatsActive => {
            let mut v: Vec<usize> = Vec::new();
            v.push(7usize);
            v.push(1usize);
            proof {
                assert(v@ =~= mib_path(Key::StatsActive));
            }
            v
        },
        Key::StatsMetadata => {
            let mut v: Vec<usize> = Vec::new();
            v.push(7usize);
            v.push(2usize);
            proof {
                assert(v@ =~= mib_path(Key::StatsMetadata));
            }
            v
        },
        Key::StatsResident => {
            let mut v: Vec<usize> = Vec::new();
            v.push(7usize);
            v.push(3usize);
            proof {
                assert(v@ =~= mib_path(Key::StatsResident));
            }
            v
        },
        Key::StatsMapped => {
            let mut v: Vec<usize> = Vec::new();
            v.push(7usize);
            v.push(4usize);
            proof {
                assert(v@ =~= mib_path(Key::StatsMapped));
            }
            v
        },
        Key::StatsRetained => {
            let mut v: Vec<usize> = Vec::new();
            v.push(7usize);
            v.push(5usize);
            proof {
                assert(v@ =~= mib_path(Key::StatsRetained));
            }
            v
        },
        Key::ThreadAllocatedP => {
            let mut v: Vec<usize> = Vec::new();
            v.push(8usize);
            v.push(0usize);
            proof {
                assert(v@ =~= mib_path(Key::ThreadAllocatedP));
            }
            v
        },
        Key::ThreadDeallocatedP => {
            let mut v: Vec<usize> = Vec::new();
            v.push(8usize);
            v.push(1usize);
            proof {
                assert(v@ =~= mib_path(Key::ThreadDeallocatedP));
            }
            v
        },
    }
}

} // verus!
