//! Raw getters and setters of the control interface.
//!
//! Every operation takes the control key either as a null-terminated
//! dotted name or as a previously resolved numeric path (MIB), and reads
//! or writes the modeled control state. Reads of string-valued keys go
//! through the same null-terminated-byte-string decoding the native
//! interface requires.

use vstd::prelude::*;
use vstd::pervasive::unreached;
use vstd::utf8::decode_utf8;
use vstd::utf8::is_leading_byte_width_1;
use vstd::utf8::pop_first_scalar;
use vstd::utf8::valid_first_scalar;
use vstd::utf8::valid_utf8;
use crate::ctl::Ctl;
use crate::ctl::ascii_cstr;
use crate::ctl::Key;
use crate::ctl::Kind;
use crate::ctl::bool_val;
use crate::ctl::key_mib_vec;
use crate::ctl::key_of;
use crate::ctl::key_of_mib;
use crate::ctl::key_path;
use crate::ctl::kind_of;
use crate::ctl::lemma_mib_path_roundtrip;
use crate::ctl::mib_path;
use crate::ctl::names_key;
use crate::ctl::ptr_val;
use crate::ctl::str_val;
use crate::ctl::u32_val;
use crate::ctl::u64_val;
use crate::ctl::usize_val;
use crate::ctl::writable;
use crate::ctl::written_bool;
use crate::ctl::written_u64;
use crate::ctl::written_usize;
use crate::error::EINVAL;
use crate::error::Error;

verus! {

/// A name the control interface accepts: a non-empty byte string whose
/// last byte is the null terminator the native parser scans for.
pub open spec fn is_name(name: Seq<u8>) -> bool {
    name.len() > 0 && name.last() == 0
}

/// Checks that a byte string is non-empty and null-terminated. Callers
/// of the by-name operations must only pass names this accepts.
pub fn validate_name(name: &[u8]) -> (r: bool)
    ensures
        r == is_name(name@),
{
    name.len() > 0 && name[name.len() - 1] == 0
}

/// True when `name` matches the dotted name of `k` up to a null
/// terminator.
fn name_matches(name: &[u8], k: Key) -> (r: bool)
    ensures
        r == names_key(name@, k),
{
    let p = key_name_path(k);
    if name.len() <= p.len() {
        proof {
            assert(!names_key(name@, k));
        }
        return false;
    }
    let mut i: usize = 0;
    while i < p.len()
        invariant
            i <= p.len() < name@.len(),
            p@ == key_path(k),
            forall|j: int| 0 <= j < i ==> name@[j] == p@[j],
        decreases p.len() - i,
    {
        if name[i] != p[i] {
            proof {
                assert(name@.subrange(0, p@.len() as int)[i as int] != p@[i as int]);
            }
            return false;
        }
        i += 1;
    }
    proof {
        if name@[p@.len() as int] == 0 {
            assert(name@.subrange(0, p@.len() as int) =~= p@);
        }
    }
    name[p.len()] == 0
}

/// The dotted name of `k`, without the terminator.
fn key_name_path(k: Key) -> (r: Vec<u8>)
    ensures
        r@ == key_path(k),
{
    let mut v = crate::ctl::key_name_vec(k);
    let _last = v.pop();
    proof {
        assert(v@ =~= key_path(k));
    }
    v
}

/// Finds the key a null-terminated name denotes, scanning the namespace
/// exactly as the spec-level `key_of` does.
pub fn lookup_key(name: &[u8]) -> (r: Option<Key>)
    ensures
        r == key_of(name@),
{
    if name_matches(name, Key::Version) {
        Some(Key::Version)
    } else if name_matches(name, Key::Epoch) {
        Some(Key::Epoch)
    } else if name_matches(name, Key::BackgroundThread) {
        Some(Key::BackgroundThread)
    } else if name_matches(name, Key::MaxBackgroundThreads) {
        Some(Key::MaxBackgroundThreads)
    } else if name_matches(name, Key::ConfigMallocConf) {
        Some(Key::ConfigMallocConf)
    } else if name_matches(name, Key::OptAbort) {
        Some(Key::OptAbort)
    } else if name_matches(name, Key::OptDss) {
        Some(Key::OptDss)
    } else if name_matches(name, Key::OptNarenas) {
        Some(Key::OptNarenas)
    } else if name_matches(name, Key::OptJunk) {
        Some(Key::OptJunk)
    } else if name_matches(name, Key::OptZero) {
        Some(Key::OptZero)
    } else if name_matches(name, Key::OptTcache) {
        Some(Key::OptTcache)
    } else if name_matches(name, Key::OptLgTcacheMax) {
        Some(Key::OptLgTcacheMax)
    } else if name_matches(name, Key::OptBackgroundThread) {
        Some(Key::OptBackgroundThread)
    } else if name_matches(name, Key::ArenasNarenas) {
        Some(Key::ArenasNarenas)
    } else if name_matches(name, Key::StatsAllocated) {
        Some(Key::StatsAllocated)
    } else if name_matches(name, Key::StatsActive) {
        Some(Key::StatsActive)
    } else if name_matches(name, Key::StatsMetadata) {
        Some(Key::StatsMetadata)
    } else if name_matches(name, Key::StatsResident) {
        Some(Key::StatsResident)
    } else if name_matches(name, Key::StatsMapped) {
        Some(Key::StatsMapped)
    } else if name_matches(name, Key::StatsRetained) {
        Some(Key::StatsRetained)
    } else if name_matches(name, Key::ThreadAllocatedP) {
        Some(Key::ThreadAllocatedP)
    } else if name_matches(name, Key::ThreadDeallocatedP) {
        Some(Key::ThreadDeallocatedP)
    } else {
        None
    }
}

/// Finds the key a numeric path denotes.
pub fn lookup_mib(path: &[usize]) -> (r: Option<Key>)
    ensures
        r == key_of_mib(path@),
{
    if path.len() == 1 {
        if path[0] == 0 {
            Some(Key::Version)
        } else if path[0] == 1 {
            Some(Key::Epoch)
        } else if path[0] == 2 {
            Some(Key::BackgroundThread)
        } else if path[0] == 3 {
            Some(Key::MaxBackgroundThreads)
        } else {
            None
        }
    } else if path.len() == 2 {
        if path[0] == 4 && path[1] == 0 {
            Some(Key::ConfigMallocConf)
        } else if path[0] == 5 && path[1] == 0 {
            Some(Key::OptAbort)
        } else if path[0] == 5 && path[1] == 1 {
            Some(Key::OptDss)
        } else if path[0] == 5 && path[1] == 2 {
            Some(Key::OptNarenas)
        } else if path[0] == 5 && path[1] == 3 {
            Some(Key::OptJunk)
        } else if path[0] == 5 && path[1] == 4 {
            Some(Key::OptZero)
        } else if path[0] == 5 && path[1] == 5 {
            Some(Key::OptTcache)
        } else if path[0] == 5 && path[1] == 6 {
            Some(Key::OptLgTcacheMax)
        } else if path[0] == 5 && path[1] == 7 {
            Some(Key::OptBackgroundThread)
        } else if path[0] == 6 && path[1] == 0 {
            Some(Key::ArenasNarenas)
        } else if path[0] == 7 && path[1] == 0 {
            Some(Key::StatsAllocated)
        } else if path[0] == 7 && path[1] == 1 {
            Some(Key::StatsActive)
        } else if path[0] == 7 && path[1] == 2 {
            Some(Key::StatsMetadata)
        } else if path[0] == 7 && path[1] == 3 {
            Some(Key::StatsResident)
        } else if path[0] == 7 && path[1] == 4 {
            Some(Key::StatsMapped)
        } else if path[0] == 7 && path[1] == 5 {
            Some(Key::StatsRetained)
        } else if path[0] == 8 && path[1] == 0 {
            Some(Key::ThreadAllocatedP)
        } else if path[0] == 8 && path[1] == 1 {
            Some(Key::ThreadDeallocatedP)
        } else {
            None
        }
    } else {
        None
    }
}

/// A resolved numeric path into the control namespace, reusable for
/// repeated reads and writes without parsing the name again.
pub struct Mib {
    /// The numeric path components.
    pub path: Vec<usize>,
}

impl View for Mib {
    type V = Seq<usize>;

    open spec fn view(&self) -> Seq<usize> {
        self.path@
    }
}

/// Translates a null-terminated name into its numeric path, filling the
/// caller's buffer. The buffer length must equal the path's depth;
/// a name outside the namespace leaves the buffer unchanged and reports
/// `ENOENT`, a depth mismatch `EINVAL`.
pub fn name_to_mib(name: &[u8], mib: &mut Vec<usize>) -> (r: Result<(), Error>)
    requires
        is_name(name@),
    ensures
        match key_of(name@) {
            None => r == Err::<(), Error>(Error::spec_enoent()) && final(mib)@ == old(mib)@,
            Some(k) => {
                if old(mib)@.len() == mib_path(k).len() {
                    r == Ok::<(), Error>(()) && final(mib)@ == mib_path(k)
                } else {
                    r == Err::<(), Error>(Error::spec_einval()) && final(mib)@ == old(mib)@
                }
            },
        },
{
    match lookup_key(name) {
        None => Err(Error::enoent()),
        Some(k) => {
            let path = key_mib_vec(k);
            if mib.len() != path.len() {
                Err(Error::einval())
            } else {
                *mib = path;
                Ok(())
            }
        },
    }
}


/// The outcome of a boolean read of key `k`.
pub open spec fn spec_get_bool(c: Ctl, k: Key) -> Result<bool, Error> {
    if kind_of(k) == Kind::KBool {
        Ok(bool_val(c, k))
    } else {
        Err(Error::spec_einval())
    }
}

/// The outcome of a 32-bit read of key `k`.
pub open spec fn spec_get_u32(c: Ctl, k: Key) -> Result<u32, Error> {
    if kind_of(k) == Kind::KU32 {
        Ok(u32_val(c, k))
    } else {
        Err(Error::spec_einval())
    }
}

/// The outcome of a 64-bit read of key `k`.
pub open spec fn spec_get_u64(c: Ctl, k: Key) -> Result<u64, Error> {
    if kind_of(k) == Kind::KU64 {
        Ok(u64_val(c, k))
    } else {
        Err(Error::spec_einval())
    }
}

/// The outcome of a pointer-sized read of key `k`.
pub open spec fn spec_get_usize(c: Ctl, k: Key) -> Result<usize, Error> {
    if kind_of(k) == Kind::KUsize {
        Ok(usize_val(c, k))
    } else {
        Err(Error::spec_einval())
    }
}

/// The outcome of a thread-local-pointer read of key `k`: the counter
/// value the returned pointer refers to.
pub open spec fn spec_get_ptr(c: Ctl, k: Key) -> Result<u64, Error> {
    if kind_of(k) == Kind::KPtr {
        Ok(ptr_val(c, k))
    } else {
        Err(Error::spec_einval())
    }
}

/// The outcome of a string read of key `k`: the decoded characters of
/// the value's bytes through their null terminator.
pub open spec fn spec_get_str(c: Ctl, k: Key) -> Result<Seq<char>, Error> {
    if kind_of(k) == Kind::KStr {
        Ok(decode_utf8(str_prefix(str_val(c, k))))
    } else {
        Err(Error::spec_einval())
    }
}

/// The outcome and new state of writing boolean `v` to key `k`.
pub open spec fn spec_set_bool(c: Ctl, k: Key, v: bool) -> (Ctl, Result<(), Error>) {
    if !writable(k) {
        (c, Err(Error::spec_eperm()))
    } else if kind_of(k) != Kind::KBool {
        (c, Err(Error::spec_einval()))
    } else {
        (written_bool(c, k, v), Ok(()))
    }
}

/// The outcome and new state of writing 64-bit `v` to key `k`.
pub open spec fn spec_set_u64(c: Ctl, k: Key, v: u64) -> (Ctl, Result<(), Error>) {
    if !writable(k) {
        (c, Err(Error::spec_eperm()))
    } else if kind_of(k) != Kind::KU64 {
        (c, Err(Error::spec_einval()))
    } else {
        (written_u64(c, k, v), Ok(()))
    }
}

/// The outcome and new state of writing pointer-sized `v` to key `k`.
pub open spec fn spec_set_usize(c: Ctl, k: Key, v: usize) -> (Ctl, Result<(), Error>) {
    if !writable(k) {
        (c, Err(Error::spec_eperm()))
    } else if kind_of(k) != Kind::KUsize {
        (c, Err(Error::spec_einval()))
    } else {
        (written_usize(c, k, v), Ok(()))
    }
}

/// The outcome of a combined 64-bit read-and-write of key `k`: the value
/// before the write, and the state after it.
pub open spec fn spec_get_set_u64(c: Ctl, k: Key, v: u64) -> (Ctl, Result<u64, Error>) {
    if !writable(k) {
        (c, Err(Error::spec_eperm()))
    } else if kind_of(k) != Kind::KU64 {
        (c, Err(Error::spec_einval()))
    } else {
        (written_u64(c, k, v), Ok(u64_val(c, k)))
    }
}

fn key_get_bool(ctl: &Ctl, k: Key) -> (r: Result<bool, Error>)
    ensures
        r == spec_get_bool(*ctl, k),
{
    match k {
        Key::BackgroundThread => Ok(ctl.background_thread),
        Key::OptAbort => Ok(ctl.opt_abort),
        Key::OptZero => Ok(ctl.opt_zero),
        Key::OptTcache => Ok(ctl.opt_tcache),
        Key::OptBackgroundThread => Ok(ctl.opt_background_thread),
        _ => Err(Error::einval()),
    }
}

fn key_get_u32(ctl: &Ctl, k: Key) -> (r: Result<u32, Error>)
    ensures
        r == spec_get_u32(*ctl, k),
{
    match k {
        Key::OptNarenas => Ok(ctl.opt_narenas),
        Key::ArenasNarenas => Ok(ctl.arenas_narenas),
        _ => Err(Error::einval()),
    }
}

fn key_get_u64(ctl: &Ctl, k: Key) -> (r: Result<u64, Error>)
    ensures
        r == spec_get_u64(*ctl, k),
{
    match k {
        Key::Epoch => Ok(ctl.epoch),
        _ => Err(Error::einval()),
    }
}

fn key_get_usize(ctl: &Ctl, k: Key) -> (r: Result<usize, Error>)
    ensures
        r == spec_get_usize(*ctl, k),
{
    match k {
        Key::MaxBackgroundThreads => Ok(ctl.max_background_threads),
        Key::OptLgTcacheMax => Ok(ctl.opt_lg_tcache_max),
        Key::StatsAllocated => Ok(ctl.stats_allocated),
        Key::StatsActive => Ok(ctl.stats_active),
        Key::StatsMetadata => Ok(ctl.stats_metadata),
        Key::StatsResident => Ok(ctl.stats_resident),
        Key::StatsMapped => Ok(ctl.stats_mapped),
        Key::StatsRetained => Ok(ctl.stats_retained),
        _ => Err(Error::einval()),
    }
}

fn key_get_ptr(ctl: &Ctl, k: Key) -> (r: Result<u64, Error>)
    ensures
        r == spec_get_ptr(*ctl, k),
{
    match k {
        Key::ThreadAllocatedP => Ok(ctl.thread_allocated),
        Key::ThreadDeallocatedP => Ok(ctl.thread_deallocated),
        _ => Err(Error::einval()),
    }
}

/// The outcome of a bool read through a name.
pub open spec fn spec_get_bool_named(c: Ctl, name: Seq<u8>) -> Result<bool, Error> {
    match key_of(name) {
        None => Err(Error::spec_enoent()),
        Some(k) => spec_get_bool(c, k),
    }
}

/// The outcome of a bool read through a numeric path.
pub open spec fn spec_get_bool_at(c: Ctl, m: Seq<usize>) -> Result<bool, Error> {
    match key_of_mib(m) {
        None => Err(Error::spec_enoent()),
        Some(k) => spec_get_bool(c, k),
    }
}

/// The outcome of a u32 read through a name.
pub open spec fn spec_get_u32_named(c: Ctl, name: Seq<u8>) -> Result<u32, Error> {
    match key_of(name) {
        None => Err(Error::spec_enoent()),
        Some(k) => spec_get_u32(c, k),
    }
}

/// The outcome of a u32 read through a numeric path.
pub open spec fn spec_get_u32_at(c: Ctl, m: Seq<usize>) -> Result<u32, Error> {
    match key_of_mib(m) {
        None => Err(Error::spec_enoent()),
        Some(k) => spec_get_u32(c, k),
    }
}

/// The outcome of a u64 read through a name.
pub open spec fn spec_get_u64_named(c: Ctl, name: Seq<u8>) -> Result<u64, Error> {
    match key_of(name) {
        None => Err(Error::spec_enoent()),
        Some(k) => spec_get_u64(c, k),
    }
}

/// The outcome of a u64 read through a numeric path.
pub open spec fn spec_get_u64_at(c: Ctl, m: Seq<usize>) -> Result<u64, Error> {
    match key_of_mib(m) {
        None => Err(Error::spec_enoent()),
        Some(k) => spec_get_u64(c, k),
    }
}

/// The outcome of a usize read through a name.
pub open spec fn spec_get_usize_named(c: Ctl, name: Seq<u8>) -> Result<usize, Error> {
    match key_of(name) {
        None => Err(Error::spec_enoent()),
        Some(k) => spec_get_usize(c, k),
    }
}

/// The outcome of a usize read through a numeric path.
pub open spec fn spec_get_usize_at(c: Ctl, m: Seq<usize>) -> Result<usize, Error> {
    match key_of_mib(m) {
        None => Err(Error::spec_enoent()),
        Some(k) => spec_get_usize(c, k),
    }
}

/// The outcome of a ptr read through a name.
pub open spec fn spec_get_ptr_named(c: Ctl, name: Seq<u8>) -> Result<u64, Error> {
    match key_of(name) {
        None => Err(Error::spec_enoent()),
        Some(k) => spec_get_ptr(c, k),
    }
}

/// The outcome of a ptr read through a numeric path.
pub open spec fn spec_get_ptr_at(c: Ctl, m: Seq<usize>) -> Result<u64, Error> {
    match key_of_mib(m) {
        None => Err(Error::spec_enoent()),
        Some(k) => spec_get_ptr(c, k),
    }
}

/// The outcome of a str read through a name.
pub open spec fn spec_get_str_named(c: Ctl, name: Seq<u8>) -> Result<Seq<char>, Error> {
    match key_of(name) {
        None => Err(Error::spec_enoent()),
        Some(k) => spec_get_str(c, k),
    }
}

/// The outcome of a str read through a numeric path.
pub open spec fn spec_get_str_at(c: Ctl, m: Seq<usize>) -> Result<Seq<char>, Error> {
    match key_of_mib(m) {
        None => Err(Error::spec_enoent()),
        Some(k) => spec_get_str(c, k),
    }
}

/// Reads the value of the null-terminated name `name` as a bool value.
pub fn get_bool(ctl: &Ctl, name: &[u8]) -> (r: Result<bool, Error>)
    requires
        is_name(name@),
    ensures
        r == spec_get_bool_named(*ctl, name@),
{
    match lookup_key(name) {
        None => Err(Error::enoent()),
        Some(k) => key_get_bool(ctl, k),
    }
}

/// Reads the value at the resolved path `mib` as a bool value.
pub fn get_bool_mib(ctl: &Ctl, mib: &Mib) -> (r: Result<bool, Error>)
    ensures
        r == spec_get_bool_at(*ctl, mib@),
{
    match lookup_mib(mib.path.as_slice()) {
        None => Err(Error::enoent()),
        Some(k) => key_get_bool(ctl, k),
    }
}

/// Reads the value of the null-terminated name `name` as a u32 value.
pub fn get_u32(ctl: &Ctl, name: &[u8]) -> (r: Result<u32, Error>)
    requires
        is_name(name@),
    ensures
        r == spec_get_u32_named(*ctl, name@),
{
    match lookup_key(name) {
        None => Err(Error::enoent()),
        Some(k) => key_get_u32(ctl, k),
    }
}

/// Reads the value at the resolved path `mib` as a u32 value.
pub fn get_u32_mib(ctl: &Ctl, mib: &Mib) -> (r: Result<u32, Error>)
    ensures
        r == spec_get_u32_at(*ctl, mib@),
{
    match lookup_mib(mib.path.as_slice()) {
        None => Err(Error::enoent()),
        Some(k) => key_get_u32(ctl, k),
    }
}

/// Reads the value of the null-terminated name `name` as a u64 value.
pub fn get_u64(ctl: &Ctl, name: &[u8]) -> (r: Result<u64, Error>)
    requires
        is_name(name@),
    ensures
        r == spec_get_u64_named(*ctl, name@),
{
    match lookup_key(name) {
        None => Err(Error::enoent()),
        Some(k) => key_get_u64(ctl, k),
    }
}

/// Reads the value at the resolved path `mib` as a u64 value.
pub fn get_u64_mib(ctl: &Ctl, mib: &Mib) -> (r: Result<u64, Error>)
    ensures
        r == spec_get_u64_at(*ctl, mib@),
{
    match lookup_mib(mib.path.as_slice()) {
        None => Err(Error::enoent()),
        Some(k) => key_get_u64(ctl, k),
    }
}

/// Reads the value of the null-terminated name `name` as a usize value.
pub fn get_usize(ctl: &Ctl, name: &[u8]) -> (r: Result<usize, Error>)
    requires
        is_name(name@),
    ensures
        r == spec_get_usize_named(*ctl, name@),
{
    match lookup_key(name) {
        None => Err(Error::enoent()),
        Some(k) => key_get_usize(ctl, k),
    }
}

/// Reads the value at the resolved path `mib` as a usize value.
pub fn get_usize_mib(ctl: &Ctl, mib: &Mib) -> (r: Result<usize, Error>)
    ensures
        r == spec_get_usize_at(*ctl, mib@),
{
    match lookup_mib(mib.path.as_slice()) {
        None => Err(Error::enoent()),
        Some(k) => key_get_usize(ctl, k),
    }
}

/// Reads the value of the null-terminated name `name` as a u64 value.
pub fn get_ptr_u64(ctl: &Ctl, name: &[u8]) -> (r: Result<u64, Error>)
    requires
        is_name(name@),
    ensures
        r == spec_get_ptr_named(*ctl, name@),
{
    match lookup_key(name) {
        None => Err(Error::enoent()),
        Some(k) => key_get_ptr(ctl, k),
    }
}

/// Reads the value at the resolved path `mib` as a u64 value.
pub fn get_ptr_u64_mib(ctl: &Ctl, mib: &Mib) -> (r: Result<u64, Error>)
    ensures
        r == spec_get_ptr_at(*ctl, mib@),
{
    match lookup_mib(mib.path.as_slice()) {
        None => Err(Error::enoent()),
        Some(k) => key_get_ptr(ctl, k),
    }
}

/// True when the byte string contains a null byte somewhere: the native
/// string reader scans for it and must find one.
pub open spec fn has_nul(s: Seq<u8>) -> bool {
    exists|i: int| 0 <= i < s.len() && s[i] == 0
}

/// The bytes of a null-terminated string value through its first null
/// byte, inclusive: exactly the bytes the native string reader hands
/// back.
pub open spec fn str_prefix(s: Seq<u8>) -> Seq<u8>
    decreases s.len(),
{
    if s.len() == 0 {
        seq![]
    } else if s[0] == 0 {
        seq![0u8]
    } else {
        seq![s[0]] + str_prefix(s.drop_first())
    }
}

/// When the first null byte of `s` sits at index `n`, the string prefix
/// is the first `n + 1` bytes.
pub proof fn lemma_str_prefix_at(s: Seq<u8>, n: int)
    requires
        0 <= n < s.len(),
        s[n] == 0,
        forall|j: int| 0 <= j < n ==> s[j] != 0,
    ensures
        str_prefix(s) =~= s.subrange(0, n + 1),
    decreases n,
{
    if n == 0 {
    } else {
        lemma_str_prefix_at(s.drop_first(), n - 1);
        assert(str_prefix(s.drop_first()) =~= s.drop_first().subrange(0, n));
    }
}

/// A sequence of ASCII bytes is valid UTF-8 and decodes to one character
/// per byte.
pub proof fn lemma_ascii_valid_utf8(s: Seq<u8>)
    requires
        forall|i: int| 0 <= i < s.len() ==> s[i] < 0x80,
    ensures
        valid_utf8(s),
        decode_utf8(s).len() == s.len(),
    decreases s.len(),
{
    if s.len() > 0 {
        assert(is_leading_byte_width_1(s[0]));
        let b = s[0];
        assert((b & 0x7f) < 0xd800) by (bit_vector);
        assert(valid_first_scalar(s));
        let rest = pop_first_scalar(s);
        assert(rest =~= s.subrange(1, s.len() as int));
        lemma_ascii_valid_utf8(rest);
    }
}

/// A null-terminated ASCII string has a null byte, and its string prefix
/// is valid UTF-8 and decodes to at least one character.
pub proof fn lemma_ascii_cstr_prefix(s: Seq<u8>)
    requires
        ascii_cstr(s),
    ensures
        has_nul(s),
        valid_utf8(str_prefix(s)),
        decode_utf8(str_prefix(s)).len() >= 1,
{
    assert(s[s.len() - 1] == 0);
    let n = first_nul_of(s);
    lemma_first_nul_of(s);
    lemma_str_prefix_at(s, n);
    lemma_ascii_valid_utf8(str_prefix(s));
}

/// The index of the first null byte of `s`.
pub open spec fn first_nul_of(s: Seq<u8>) -> int
    decreases s.len(),
{
    if s.len() == 0 {
        0
    } else if s[0] == 0 {
        0
    } else {
        1 + first_nul_of(s.drop_first())
    }
}

/// When `s` has a null byte at all, `first_nul_of` finds the first one.
pub proof fn lemma_first_nul_of(s: Seq<u8>)
    requires
        has_nul(s),
    ensures
        0 <= first_nul_of(s) < s.len(),
        s[first_nul_of(s)] == 0,
        forall|j: int| 0 <= j < first_nul_of(s) ==> s[j] != 0,
    decreases s.len(),
{
    if s.len() > 0 && s[0] != 0 {
        let rest = s.drop_first();
        assert(has_nul(rest)) by {
            let i = choose|i: int| 0 <= i < s.len() && s[i] == 0;
            assert(rest[i - 1] == 0);
        }
        lemma_first_nul_of(rest);
        assert forall|j: int| 0 <= j < first_nul_of(s) implies s[j] != 0 by {
            if j > 0 {
                assert(rest[j - 1] != 0);
            }
        }
    }
}

/// Relies on `core::str::from_utf8`: it succeeds exactly on valid UTF-8
/// input and yields the string whose characters are the decoding of the
/// bytes.
#[verifier::external_body]
fn try_from_utf8(bytes: &[u8]) -> (r: Option<&str>)
    ensures
        match r {
            Some(s) => valid_utf8(bytes@) && s@ == decode_utf8(bytes@),
            None => !valid_utf8(bytes@),
        },
{
    core::str::from_utf8(bytes).ok()
}

/// The index of the first null byte: the length the native string reader
/// would measure.
pub fn strlen(cstr: &[u8]) -> (n: usize)
    requires
        has_nul(cstr@),
    ensures
        n < cstr@.len(),
        cstr@[n as int] == 0,
        forall|j: int| 0 <= j < n ==> cstr@[j] != 0,
{
    let mut i: usize = 0;
    proof {
        let k = choose|k: int| 0 <= k < cstr@.len() && cstr@[k] == 0;
    }
    while cstr[i] != 0
        invariant
            has_nul(cstr@),
            0 <= i < cstr@.len(),
            forall|j: int| 0 <= j < i ==> cstr@[j] != 0,
        decreases cstr@.len() - i,
    {
        i += 1;
        proof {
            let k = choose|k: int| 0 <= k < cstr@.len() && cstr@[k] == 0;
            assert(k >= i);
        }
    }
    i
}

/// Reinterprets a native null-terminated byte string as text: measures
/// its length, takes the bytes through the terminator, and validates
/// them as UTF-8, reporting `EINVAL` when they are not.
pub fn ptr2str(cstr: &[u8]) -> (r: Result<String, Error>)
    requires
        has_nul(cstr@),
    ensures
        valid_utf8(str_prefix(cstr@)) ==> r is Ok && r->Ok_0@ == decode_utf8(str_prefix(cstr@)),
        !valid_utf8(str_prefix(cstr@)) ==> r == Err::<String, Error>(Error::spec_einval()),
{
    let n = strlen(cstr);
    let l: usize = cstr.len();
    let sub: &[u8] = &cstr[0..n + 1];
    proof {
        lemma_str_prefix_at(cstr@, n as int);
    }
    match try_from_utf8(sub) {
        Some(s) => Ok(s.to_owned()),
        None => Err(Error::einval()),
    }
}

/// Reads the well-formed string field of a string-valued key.
fn cstr_to_string(bytes: &Vec<u8>) -> (r: String)
    requires
        ascii_cstr(bytes@),
    ensures
        r@ == decode_utf8(str_prefix(bytes@)),
{
    proof {
        lemma_ascii_cstr_prefix(bytes@);
    }
    match ptr2str(bytes.as_slice()) {
        Ok(s) => s,
        Err(_) => unreached(),
    }
}

fn key_get_str(ctl: &Ctl, k: Key) -> (r: Result<String, Error>)
    requires
        ctl.wf(),
    ensures
        match spec_get_str(*ctl, k) {
            Ok(cs) => r is Ok && r->Ok_0@ == cs,
            Err(e) => r == Err::<String, Error>(e),
        },
{
    match k {
        Key::Version => Ok(cstr_to_string(&ctl.version)),
        Key::ConfigMallocConf => Ok(cstr_to_string(&ctl.malloc_conf)),
        Key::OptDss => Ok(cstr_to_string(&ctl.opt_dss)),
        Key::OptJunk => Ok(cstr_to_string(&ctl.opt_junk)),
        _ => Err(Error::einval()),
    }
}

/// Reads the value of the null-terminated name `name` as a string.
pub fn get_str(ctl: &Ctl, name: &[u8]) -> (r: Result<String, Error>)
    requires
        ctl.wf(),
        is_name(name@),
    ensures
        match spec_get_str_named(*ctl, name@) {
            Ok(cs) => r is Ok && r->Ok_0@ == cs,
            Err(e) => r == Err::<String, Error>(e),
        },
{
    match lookup_key(name) {
        None => Err(Error::enoent()),
        Some(k) => key_get_str(ctl, k),
    }
}

/// Reads the value at the resolved path `mib` as a string.
pub fn get_str_mib(ctl: &Ctl, mib: &Mib) -> (r: Result<String, Error>)
    requires
        ctl.wf(),
    ensures
        match spec_get_str_at(*ctl, mib@) {
            Ok(cs) => r is Ok && r->Ok_0@ == cs,
            Err(e) => r == Err::<String, Error>(e),
        },
{
    match lookup_mib(mib.path.as_slice()) {
        None => Err(Error::enoent()),
        Some(k) => key_get_str(ctl, k),
    }
}
fn key_set_bool(ctl: &mut Ctl, k: Key, value: bool) -> (r: Result<(), Error>)
    ensures
        *final(ctl) == spec_set_bool(*old(ctl), k, value).0,
        r == spec_set_bool(*old(ctl), k, value).1,
{
    match k {
        Key::BackgroundThread => {
            ctl.background_thread = value;
            Ok(())
        },
        Key::Epoch => Err(Error::einval()),
        Key::MaxBackgroundThreads => Err(Error::einval()),
        _ => Err(Error::eperm()),
    }
}

fn key_set_u64(ctl: &mut Ctl, k: Key, value: u64) -> (r: Result<(), Error>)
    ensures
        *final(ctl) == spec_set_u64(*old(ctl), k, value).0,
        r == spec_set_u64(*old(ctl), k, value).1,
{
    match k {
        Key::Epoch => {
            ctl.epoch = if ctl.epoch == u64::MAX {
                1
            } else {
                ctl.epoch + 1
            };
            Ok(())
        },
        Key::BackgroundThread => Err(Error::einval()),
        Key::MaxBackgroundThreads => Err(Error::einval()),
        _ => Err(Error::eperm()),
    }
}

fn key_set_usize(ctl: &mut Ctl, k: Key, value: usize) -> (r: Result<(), Error>)
    ensures
        *final(ctl) == spec_set_usize(*old(ctl), k, value).0,
        r == spec_set_usize(*old(ctl), k, value).1,
{
    match k {
        Key::MaxBackgroundThreads => {
            ctl.max_background_threads = value;
            Ok(())
        },
        Key::Epoch => Err(Error::einval()),
        Key::BackgroundThread => Err(Error::einval()),
        _ => Err(Error::eperm()),
    }
}

fn key_get_set_u64(ctl: &mut Ctl, k: Key, value: u64) -> (r: Result<u64, Error>)
    ensures
        *final(ctl) == spec_get_set_u64(*old(ctl), k, value).0,
        r == spec_get_set_u64(*old(ctl), k, value).1,
{
    match k {
        Key::Epoch => {
            let prev = ctl.epoch;
            ctl.epoch = if ctl.epoch == u64::MAX {
                1
            } else {
                ctl.epoch + 1
            };
            Ok(prev)
        },
        Key::BackgroundThread => Err(Error::einval()),
        Key::MaxBackgroundThreads => Err(Error::einval()),
        _ => Err(Error::eperm()),
    }
}

/// The outcome and new state of a boolean write through a name.
pub open spec fn spec_set_bool_named(c: Ctl, name: Seq<u8>, v: bool) -> (Ctl, Result<(), Error>) {
    match key_of(name) {
        None => (c, Err(Error::spec_enoent())),
        Some(k) => spec_set_bool(c, k, v),
    }
}

/// The outcome and new state of a boolean write through a numeric path.
pub open spec fn spec_set_bool_at(c: Ctl, m: Seq<usize>, v: bool) -> (Ctl, Result<(), Error>) {
    match key_of_mib(m) {
        None => (c, Err(Error::spec_enoent())),
        Some(k) => spec_set_bool(c, k, v),
    }
}

/// The outcome and new state of a 64-bit write through a name.
pub open spec fn spec_set_u64_named(c: Ctl, name: Seq<u8>, v: u64) -> (Ctl, Result<(), Error>) {
    match key_of(name) {
        None => (c, Err(Error::spec_enoent())),
        Some(k) => spec_set_u64(c, k, v),
    }
}

/// The outcome and new state of a 64-bit write through a numeric path.
pub open spec fn spec_set_u64_at(c: Ctl, m: Seq<usize>, v: u64) -> (Ctl, Result<(), Error>) {
    match key_of_mib(m) {
        None => (c, Err(Error::spec_enoent())),
        Some(k) => spec_set_u64(c, k, v),
    }
}

/// The outcome and new state of a pointer-sized write through a name.
pub open spec fn spec_set_usize_named(c: Ctl, name: Seq<u8>, v: usize) -> (Ctl, Result<(), Error>) {
    match key_of(name) {
        None => (c, Err(Error::spec_enoent())),
        Some(k) => spec_set_usize(c, k, v),
    }
}

/// The outcome and new state of a pointer-sized write through a numeric
/// path.
pub open spec fn spec_set_usize_at(c: Ctl, m: Seq<usize>, v: usize) -> (Ctl, Result<(), Error>) {
    match key_of_mib(m) {
        None => (c, Err(Error::spec_enoent())),
        Some(k) => spec_set_usize(c, k, v),
    }
}

/// The outcome and new state of a 64-bit read-and-write through a name.
pub open spec fn spec_get_set_u64_named(c: Ctl, name: Seq<u8>, v: u64) -> (
    Ctl,
    Result<u64, Error>,
) {
    match key_of(name) {
        None => (c, Err(Error::spec_enoent())),
        Some(k) => spec_get_set_u64(c, k, v),
    }
}

/// The outcome and new state of a 64-bit read-and-write through a
/// numeric path.
pub open spec fn spec_get_set_u64_at(c: Ctl, m: Seq<usize>, v: u64) -> (Ctl, Result<u64, Error>) {
    match key_of_mib(m) {
        None => (c, Err(Error::spec_enoent())),
        Some(k) => spec_get_set_u64(c, k, v),
    }
}

/// Writes a boolean value to the null-terminated name `name`.
pub fn set_bool(ctl: &mut Ctl, name: &[u8], value: bool) -> (r: Result<(), Error>)
    requires
        is_name(name@),
    ensures
        *final(ctl) == spec_set_bool_named(*old(ctl), name@, value).0,
        r == spec_set_bool_named(*old(ctl), name@, value).1,
        old(ctl).wf() ==> final(ctl).wf(),
{
    match lookup_key(name) {
        None => Err(Error::enoent()),
        Some(k) => key_set_bool(ctl, k, value),
    }
}

/// Writes a boolean value at the resolved path `mib`.
pub fn set_bool_mib(ctl: &mut Ctl, mib: &Mib, value: bool) -> (r: Result<(), Error>)
    ensures
        *final(ctl) == spec_set_bool_at(*old(ctl), mib@, value).0,
        r == spec_set_bool_at(*old(ctl), mib@, value).1,
        old(ctl).wf() ==> final(ctl).wf(),
{
    match lookup_mib(mib.path.as_slice()) {
        None => Err(Error::enoent()),
        Some(k) => key_set_bool(ctl, k, value),
    }
}

/// Writes a 64-bit value to the null-terminated name `name`. A write to
/// the epoch key advances the counter whatever the value written.
pub fn set_u64(ctl: &mut Ctl, name: &[u8], value: u64) -> (r: Result<(), Error>)
    requires
        is_name(name@),
    ensures
        *final(ctl) == spec_set_u64_named(*old(ctl), name@, value).0,
        r == spec_set_u64_named(*old(ctl), name@, value).1,
        old(ctl).wf() ==> final(ctl).wf(),
{
    match lookup_key(name) {
        None => Err(Error::enoent()),
        Some(k) => key_set_u64(ctl, k, value),
    }
}

/// Writes a 64-bit value at the resolved path `mib`.
pub fn set_u64_mib(ctl: &mut Ctl, mib: &Mib, value: u64) -> (r: Result<(), Error>)
    ensures
        *final(ctl) == spec_set_u64_at(*old(ctl), mib@, value).0,
        r == spec_set_u64_at(*old(ctl), mib@, value).1,
        old(ctl).wf() ==> final(ctl).wf(),
{
    match lookup_mib(mib.path.as_slice()) {
        None => Err(Error::enoent()),
        Some(k) => key_set_u64(ctl, k, value),
    }
}

/// Writes a pointer-sized value to the null-terminated name `name`.
pub fn set_usize(ctl: &mut Ctl, name: &[u8], value: usize) -> (r: Result<(), Error>)
    requires
        is_name(name@),
    ensures
        *final(ctl) == spec_set_usize_named(*old(ctl), name@, value).0,
        r == spec_set_usize_named(*old(ctl), name@, value).1,
        old(ctl).wf() ==> final(ctl).wf(),
{
    match lookup_key(name) {
        None => Err(Error::enoent()),
        Some(k) => key_set_usize(ctl, k, value),
    }
}

/// Writes a pointer-sized value at the resolved path `mib`.
pub fn set_usize_mib(ctl: &mut Ctl, mib: &Mib, value: usize) -> (r: Result<(), Error>)
    ensures
        *final(ctl) == spec_set_usize_at(*old(ctl), mib@, value).0,
        r == spec_set_usize_at(*old(ctl), mib@, value).1,
        old(ctl).wf() ==> final(ctl).wf(),
{
    match lookup_mib(mib.path.as_slice()) {
        None => Err(Error::enoent()),
        Some(k) => key_set_usize(ctl, k, value),
    }
}

/// Writes a 64-bit value to the null-terminated name `name` and returns
/// the value the key held before, in one operation.
pub fn get_set_u64(ctl: &mut Ctl, name: &[u8], value: u64) -> (r: Result<u64, Error>)
    requires
        is_name(name@),
    ensures
        *final(ctl) == spec_get_set_u64_named(*old(ctl), name@, value).0,
        r == spec_get_set_u64_named(*old(ctl), name@, value).1,
        old(ctl).wf() ==> final(ctl).wf(),
{
    match lookup_key(name) {
        None => Err(Error::enoent()),
        Some(k) => key_get_set_u64(ctl, k, value),
    }
}

/// Writes a 64-bit value at the resolved path `mib` and returns the
/// value the key held before, in one operation.
pub fn get_set_u64_mib(ctl: &mut Ctl, mib: &Mib, value: u64) -> (r: Result<u64, Error>)
    ensures
        *final(ctl) == spec_get_set_u64_at(*old(ctl), mib@, value).0,
        r == spec_get_set_u64_at(*old(ctl), mib@, value).1,
        old(ctl).wf() ==> final(ctl).wf(),
{
    match lookup_mib(mib.path.as_slice()) {
        None => Err(Error::enoent()),
        Some(k) => key_get_set_u64(ctl, k, value),
    }
}

/// Fetches the 64-bit value of `name` into `t`. Unlike the typed
/// getters, a malformed name is reported as `EINVAL` rather than ruled
/// out by contract, and the raw status code is returned.
pub fn mallctl_fetch(ctl: &Ctl, name: &[u8], t: &mut u64) -> (r: Result<(), i32>)
    ensures
        !is_name(name@) ==> r == Err::<(), i32>(EINVAL) && *final(t) == *old(t),
        is_name(name@) ==> match spec_get_u64_named(*ctl, name@) {
            Ok(v) => r == Ok::<(), i32>(()) && *final(t) == v,
            Err(e) => r == Err::<(), i32>(e.code) && *final(t) == *old(t),
        },
{
    if !validate_name(name) {
        return Err(EINVAL);
    }
    match get_u64(ctl, name) {
        Ok(v) => {
            *t = v;
            Ok(())
        },
        Err(e) => Err(e.code),
    }
}

/// Sets the 64-bit value of `name`. Unlike the typed setters, a
/// malformed name is reported as `EINVAL` rather than ruled out by
/// contract, and the raw status code is returned.
pub fn mallctl_set(ctl: &mut Ctl, name: &[u8], t: u64) -> (r: Result<(), i32>)
    ensures
        !is_name(name@) ==> r == Err::<(), i32>(EINVAL) && *final(ctl) == *old(ctl),
        is_name(name@) ==> {
            &&& *final(ctl) == spec_set_u64_named(*old(ctl), name@, t).0
            &&& match spec_set_u64_named(*old(ctl), name@, t).1 {
                Ok(u) => r == Ok::<(), i32>(()),
                Err(e) => r == Err::<(), i32>(e.code),
            }
        },
        old(ctl).wf() ==> final(ctl).wf(),
{
    if !validate_name(name) {
        return Err(EINVAL);
    }
    match set_u64(ctl, name, t) {
        Ok(u) => Ok(()),
        Err(e) => Err(e.code),
    }
}

/// Reading a key through its resolved MIB returns exactly what reading
/// it through its name returns, for every control state, every key of
/// the namespace, and every value kind.
pub proof fn lemma_name_mib_reads_agree(c: Ctl, name: Seq<u8>, k: Key)
    requires
        key_of(name) == Some(k),
    ensures
        spec_get_bool_named(c, name) == spec_get_bool_at(c, mib_path(k)),
        spec_get_u32_named(c, name) == spec_get_u32_at(c, mib_path(k)),
        spec_get_u64_named(c, name) == spec_get_u64_at(c, mib_path(k)),
        spec_get_usize_named(c, name) == spec_get_usize_at(c, mib_path(k)),
        spec_get_ptr_named(c, name) == spec_get_ptr_at(c, mib_path(k)),
        spec_get_str_named(c, name) == spec_get_str_at(c, mib_path(k)),
{
    lemma_mib_path_roundtrip(k);
}

/// Every key's own null-terminated dotted name is a valid name that
/// resolves to that key.
pub proof fn lemma_key_of_own_name(k: Key)
    ensures
        is_name(key_path(k).push(0u8)),
        key_of(key_path(k).push(0u8)) == Some(k),
{
    let n = key_path(k).push(0u8);
    assert(n.subrange(0, key_path(k).len() as int) =~= key_path(k));
}

/// String-valued keys of a well-formed control state decode as valid
/// UTF-8 and yield a non-empty string.
pub proof fn lemma_str_reads_nonempty(c: Ctl, k: Key)
    requires
        c.wf(),
        kind_of(k) == Kind::KStr,
    ensures
        valid_utf8(str_prefix(str_val(c, k))),
        spec_get_str(c, k) is Ok,
        spec_get_str(c, k)->Ok_0.len() >= 1,
{
    match k {
        Key::Version => lemma_ascii_cstr_prefix(c.version@),
        Key::ConfigMallocConf => lemma_ascii_cstr_prefix(c.malloc_conf@),
        Key::OptDss => lemma_ascii_cstr_prefix(c.opt_dss@),
        Key::OptJunk => lemma_ascii_cstr_prefix(c.opt_junk@),
        _ => (),
    }
}

/// Round trip for writable boolean keys: the write succeeds and an
/// immediate read returns exactly the value written.
pub proof fn lemma_write_read_bool(c: Ctl, k: Key, v: bool)
    requires
        writable(k),
        kind_of(k) == Kind::KBool,
    ensures
        spec_set_bool(c, k, v).1 == Ok::<(), Error>(()),
        spec_get_bool(spec_set_bool(c, k, v).0, k) == Ok::<bool, Error>(v),
{
}

/// Round trip for writable pointer-sized keys: the write succeeds and an
/// immediate read returns exactly the value written.
pub proof fn lemma_write_read_usize(c: Ctl, k: Key, v: usize)
    requires
        writable(k),
        kind_of(k) == Kind::KUsize,
    ensures
        spec_set_usize(c, k, v).1 == Ok::<(), Error>(()),
        spec_get_usize(spec_set_usize(c, k, v).0, k) == Ok::<usize, Error>(v),
{
}

} // verus!
