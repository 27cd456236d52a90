use mallctl::MALLOCX_ALIGN;
use mallctl::MALLOCX_ZERO;
use mallctl::MIN_ALIGN;
use mallctl::ZeroedAllocCall;
use mallctl::align_to_flags;
use mallctl::align_to_flags_zeroed;
use mallctl::alloc_zeroed_call;
use mallctl::mallocx_align;
use mallctl::realloc_flags;

#[test]
fn flags_zero_at_or_below_min_align() {
    assert_eq!(MIN_ALIGN, 16);
    assert_eq!(align_to_flags(1), 0);
    assert_eq!(align_to_flags(2), 0);
    assert_eq!(align_to_flags(4), 0);
    assert_eq!(align_to_flags(8), 0);
    assert_eq!(align_to_flags(16), 0);
}

#[test]
fn flags_are_log2_above_min_align() {
    assert_eq!(align_to_flags(32), 5);
    assert_eq!(align_to_flags(64), 6);
    assert_eq!(align_to_flags(128), 7);
    assert_eq!(align_to_flags(4096), 12);
    assert_eq!(align_to_flags(1 << 20), 20);
}

#[test]
fn mallocx_align_is_log2() {
    assert_eq!(mallocx_align(1), 0);
    assert_eq!(mallocx_align(2), 1);
    assert_eq!(mallocx_align(32), 5);
    assert_eq!(mallocx_align(1024), 10);
    assert_eq!(MALLOCX_ALIGN(1024), 10);
}

#[test]
fn zero_fill_bit_is_or_ed_in() {
    assert_eq!(MALLOCX_ZERO, 0x40);
    assert_eq!(align_to_flags_zeroed(32), align_to_flags(32) | MALLOCX_ZERO);
    assert_eq!(align_to_flags_zeroed(8), 0x40);
    assert_eq!(align_to_flags_zeroed(4096), 12 | 0x40);
}

#[test]
fn zeroed_allocation_picks_calloc_fast_path() {
    assert!(matches!(alloc_zeroed_call(8), ZeroedAllocCall::Calloc));
    assert!(matches!(alloc_zeroed_call(16), ZeroedAllocCall::Calloc));
    match alloc_zeroed_call(32) {
        ZeroedAllocCall::Mallocx(f) => assert_eq!(f, 5 | MALLOCX_ZERO),
        ZeroedAllocCall::Calloc => panic!("expected the mallocx path"),
    }
}

#[test]
fn realloc_refuses_alignment_change() {
    assert_eq!(realloc_flags(16, 32), None);
    assert_eq!(realloc_flags(32, 32), Some(5));
    assert_eq!(realloc_flags(8, 8), Some(0));
}
