//! Translation of allocation alignments into the native allocator's flag
//! encoding.
//!
//! The allocator's extended entry points (`mallocx`, `rallocx`, `sdallocx`,
//! `nallocx`) take an integer flag word whose low bits carry the base-two
//! logarithm of the requested alignment and whose bit `0x40` requests
//! zero-filled memory. Alignments at or below the platform's guaranteed
//! minimum need no explicit alignment flag at all, so they translate to `0`.

use vstd::prelude::*;
use vstd::arithmetic::power2::is_pow2;
use vstd::arithmetic::power2::is_pow2_equiv;
use vstd::arithmetic::power2::is_pow2_exists;
use vstd::arithmetic::power2::lemma_pow2_adds;
use vstd::arithmetic::power2::lemma_pow2_pos;
use vstd::arithmetic::power2::lemma_pow2_strictly_increases;
use vstd::arithmetic::power2::lemma2_to64;
use vstd::arithmetic::power2::pow2;
use vstd::arithmetic::power::pow;

verus! {

/// The minimum alignment that the allocator guarantees for every
/// allocation on 64-bit targets. Requests at or below it need no
/// explicit alignment flag.
pub const MIN_ALIGN: usize = 16;

/// The flag bit requesting zero-filled memory from the extended
/// allocation entry points.
pub const MALLOCX_ZERO: i32 = 0x40;

/// Handle to the native allocator. The extended allocation entry points
/// are reached through the flag words this module computes.
pub struct Jemalloc;

/// The base-two logarithm of `n`, rounded down; `0` for `n <= 1`.
pub open spec fn lg(n: nat) -> nat
    decreases n,
{
    if n <= 1 {
        0
    } else {
        (1 + lg(n / 2)) as nat
    }
}

/// The logarithm `lg` inverts `pow2`.
pub proof fn lemma_lg_pow2(e: nat)
    ensures
        lg(pow2(e)) == e,
    decreases e,
{
    if e == 0 {
        assert(pow2(0) == 1) by {
            lemma2_to64();
        }
    } else {
        lemma_lg_pow2((e - 1) as nat);
        lemma_pow2_adds((e - 1) as nat, 1);
        assert(pow2(1) == 2) by {
            lemma2_to64();
        }
        lemma_pow2_pos((e - 1) as nat);
        assert(pow2(e) / 2 == pow2((e - 1) as nat));
        assert(pow2(e) > 1);
    }
}

/// The flag value encoding an explicit alignment: `lg(align)` in the low
/// bits of the flag word.
pub open spec fn spec_mallocx_align(align: usize) -> i32 {
    lg(align as nat) as i32
}

/// The flag word for an allocation of alignment `align`: zero when the
/// allocator's default alignment already satisfies the request, and the
/// encoded logarithm otherwise.
pub open spec fn spec_align_to_flags(align: usize) -> i32 {
    if align <= MIN_ALIGN {
        0
    } else {
        spec_mallocx_align(align)
    }
}

/// Computes the alignment flag encoding `lg(align)`, the native
/// `MALLOCX_ALIGN` convention.
pub fn mallocx_align(a: usize) -> (r: i32)
    requires
        is_pow2(a as int),
    ensures
        r == spec_mallocx_align(a),
        a as nat == pow2(r as nat),
        0 <= r < 64,
{
    proof {
        broadcast use is_pow2_equiv;

        assert(is_pow2_exists(a as int));
    }
    let ghost f0: nat = choose|i: nat| pow(2, i) == a as int;
    let ghost mut f: nat = f0;
    let mut x: usize = a;
    let mut e: u32 = 0;
    proof {
        assert(pow2(f) == a as nat);
        lemma_bound(f, e as nat, a as nat);
    }
    while x % 2 == 0
        invariant
            x as nat == pow2(f),
            a as nat == pow2((f + e) as nat),
            f + e < 64,
        decreases x,
    {
        proof {
            if f == 0 {
                assert(pow2(0) == 1) by {
                    lemma2_to64();
                }
            }
            lemma_pow2_adds((f - 1) as nat, 1);
            assert(pow2(1) == 2) by {
                lemma2_to64();
            }
            lemma_pow2_pos((f - 1) as nat);
        }
        x = x / 2;
        e = e + 1;
        proof {
            f = (f - 1) as nat;
        }
    }
    proof {
        if f != 0 {
            lemma_pow2_adds((f - 1) as nat, 1);
            assert(pow2(1) == 2) by {
                lemma2_to64();
            }
            lemma_pow2_pos((f - 1) as nat);
            assert(x % 2 == 0);
        }
        assert(pow2(0) == 1) by {
            lemma2_to64();
        }
        lemma_lg_pow2(e as nat);
    }
    e as i32
}

/// A power of two that fits in `usize` has an exponent below 64.
proof fn lemma_bound(f: nat, e: nat, a: nat)
    requires
        a == pow2((f + e) as nat),
        a <= usize::MAX,
    ensures
        f + e < 64,
{
    if f + e >= 64 {
        lemma2_to64();
        if f + e > 64 {
            lemma_pow2_strictly_increases(64, (f + e) as nat);
        }
        assert(pow2((f + e) as nat) >= pow2(64));
    }
}

/// Translates a requested alignment into the allocation flag word:
/// zero for alignments the default already satisfies, the encoded
/// logarithm otherwise.
pub fn align_to_flags(align: usize) -> (r: i32)
    requires
        is_pow2(align as int),
    ensures
        r == spec_align_to_flags(align),
{
    if align <= MIN_ALIGN {
        0
    } else {
        mallocx_align(align)
    }
}

/// Translates a requested alignment into the flag word for a zero-filled
/// allocation: the alignment encoding with the zero-fill bit set.
pub fn align_to_flags_zeroed(align: usize) -> (r: i32)
    requires
        is_pow2(align as int),
    ensures
        r == spec_align_to_flags(align) | MALLOCX_ZERO,
{
    let f = align_to_flags(align);
    f | MALLOCX_ZERO
}

/// Computes the alignment flag encoding `lg(align)`, under the native
/// macro's own name.
#[allow(non_snake_case)]
pub fn MALLOCX_ALIGN(aling: usize) -> (r: i32)
    requires
        is_pow2(aling as int),
    ensures
        r == spec_mallocx_align(aling),
{
    mallocx_align(aling)
}

/// The native call a zero-filled allocation request translates to:
/// plain `calloc` when the default alignment already satisfies the
/// request, `mallocx` with the zero-fill bit otherwise.
#[derive(Copy, Clone, PartialEq, Eq, Structural, Debug)]
pub enum ZeroedAllocCall {
    /// Allocate through `calloc`, which zero-fills at default alignment.
    Calloc,
    /// Allocate through `mallocx` with the given flag word.
    Mallocx(i32),
}

/// Chooses the native call for a zero-filled allocation of alignment
/// `align`.
pub fn alloc_zeroed_call(align: usize) -> (r: ZeroedAllocCall)
    requires
        is_pow2(align as int),
    ensures
        align <= MIN_ALIGN ==> r == ZeroedAllocCall::Calloc,
        align > MIN_ALIGN ==> r == ZeroedAllocCall::Mallocx(
            spec_align_to_flags(align) | MALLOCX_ZERO,
        ),
{
    if align <= MIN_ALIGN {
        ZeroedAllocCall::Calloc
    } else {
        ZeroedAllocCall::Mallocx(align_to_flags_zeroed(align))
    }
}

/// The flag word for a reallocation: the alignment must not change
/// between the old and the new layout, and `None` reports an
/// unsupported request to change it.
pub fn realloc_flags(old_align: usize, new_align: usize) -> (r: Option<i32>)
    requires
        is_pow2(new_align as int),
    ensures
        old_align != new_align ==> r is None,
        old_align == new_align ==> r == Some(spec_align_to_flags(new_align)),
{
    if old_align != new_align {
        None
    } else {
        Some(align_to_flags(new_align))
    }
}

/// For every power-of-two alignment at or below the platform minimum,
/// the flag word is zero: the allocator's default alignment already
/// satisfies the request.
pub proof fn lemma_flags_at_most_min_align(align: usize)
    requires
        is_pow2(align as int),
        align <= MIN_ALIGN,
    ensures
        spec_align_to_flags(align) == 0,
{
}

/// For every power-of-two alignment above the platform minimum, the flag
/// word is exactly the base-two logarithm of the alignment, and the
/// zero-filled variant is that word with the zero-fill bit set.
pub proof fn lemma_flags_above_min_align(align: usize, e: nat)
    requires
        align as nat == pow2(e),
        align > MIN_ALIGN,
    ensures
        spec_align_to_flags(align) == e,
        spec_align_to_flags(align) | MALLOCX_ZERO == lg(align as nat) as i32 | MALLOCX_ZERO,
{
    lemma_lg_pow2(e);
    if e >= 64 {
        lemma2_to64();
        if e > 64 {
            lemma_pow2_strictly_increases(64, e);
        }
        assert(pow2(e) >= pow2(64));
    }
}

} // verus!
