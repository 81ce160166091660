use bitwise::cache::{
    cache_align_size, cache_line_of, cache_line_offset, cache_line_start, cache_lines_spanned,
    is_cache_line_contained, CACHE_LINE_BITS, CACHE_LINE_BYTES,
};

#[test]
fn constants_are_consistent() {
    assert_eq!(1u64 << CACHE_LINE_BITS, CACHE_LINE_BYTES);
    assert_eq!(CACHE_LINE_BYTES, 64);
}

#[test]
fn cache_align_size_exact_multiple() {
    assert_eq!(cache_align_size(0), 0);
    assert_eq!(cache_align_size(64), 64);
    assert_eq!(cache_align_size(128), 128);
}

#[test]
fn cache_align_size_rounds_up() {
    assert_eq!(cache_align_size(1), 64);
    assert_eq!(cache_align_size(63), 64);
    assert_eq!(cache_align_size(65), 128);
    assert_eq!(cache_align_size(127), 128);
}

#[test]
fn cache_align_size_result_always_multiple_of_line() {
    for size in [1u64, 7, 31, 33, 63, 64, 65, 100, 127, 128, 200] {
        assert_eq!(cache_align_size(size) % CACHE_LINE_BYTES, 0);
    }
}

#[test]
fn cache_line_of_basic() {
    assert_eq!(cache_line_of(0), 0);
    assert_eq!(cache_line_of(63), 0);
    assert_eq!(cache_line_of(64), 1);
    assert_eq!(cache_line_of(127), 1);
    assert_eq!(cache_line_of(128), 2);
}

#[test]
fn cache_line_of_large_address() {
    let addr = 64 * 1000;
    assert_eq!(cache_line_of(addr), 1000);
}

#[test]
fn cache_line_offset_at_boundary_is_zero() {
    assert_eq!(cache_line_offset(0), 0);
    assert_eq!(cache_line_offset(64), 0);
    assert_eq!(cache_line_offset(128), 0);
}

#[test]
fn cache_line_offset_within_line() {
    assert_eq!(cache_line_offset(1), 1);
    assert_eq!(cache_line_offset(63), 63);
    assert_eq!(cache_line_offset(65), 1);
    assert_eq!(cache_line_offset(127), 63);
}

#[test]
fn cache_line_offset_range() {
    for addr in 0u64..256 {
        assert!(cache_line_offset(addr) < CACHE_LINE_BYTES);
    }
}

#[test]
fn cache_line_start_at_boundary() {
    assert_eq!(cache_line_start(0), 0);
    assert_eq!(cache_line_start(64), 64);
    assert_eq!(cache_line_start(128), 128);
}

#[test]
fn cache_line_start_rounds_down() {
    assert_eq!(cache_line_start(1), 0);
    assert_eq!(cache_line_start(63), 0);
    assert_eq!(cache_line_start(65), 64);
    assert_eq!(cache_line_start(127), 64);
}

#[test]
fn cache_line_start_matches_line_of() {
    for addr in [0u64, 1, 33, 63, 64, 65, 100, 127, 128, 200, 255] {
        assert_eq!(cache_line_start(addr), cache_line_of(addr) * CACHE_LINE_BYTES);
    }
}

#[test]
fn contained_entirely_within_one_line() {
    assert!(is_cache_line_contained(0, 1));
    assert!(is_cache_line_contained(0, 64));
    assert!(is_cache_line_contained(64, 1));
    assert!(is_cache_line_contained(64, 64));
    assert!(is_cache_line_contained(10, 20));
}

#[test]
fn not_contained_crosses_boundary() {
    assert!(!is_cache_line_contained(63, 2));
    assert!(!is_cache_line_contained(1, 64));
    assert!(!is_cache_line_contained(56, 16));
}

#[test]
fn zero_size_spans_zero_lines() {
    assert_eq!(cache_lines_spanned(0, 0), 0);
    assert_eq!(cache_lines_spanned(100, 0), 0);
}

#[test]
fn single_byte_spans_one_line() {
    assert_eq!(cache_lines_spanned(0, 1), 1);
    assert_eq!(cache_lines_spanned(63, 1), 1);
    assert_eq!(cache_lines_spanned(64, 1), 1);
}

#[test]
fn exactly_one_cache_line_spans_one() {
    assert_eq!(cache_lines_spanned(0, 64), 1);
    assert_eq!(cache_lines_spanned(64, 64), 1);
}

#[test]
fn crossing_boundary_spans_two() {
    assert_eq!(cache_lines_spanned(63, 2), 2);
    assert_eq!(cache_lines_spanned(1, 64), 2);
    assert_eq!(cache_lines_spanned(56, 16), 2);
}

#[test]
fn large_range_spans_correct_lines() {
    assert_eq!(cache_lines_spanned(0, 256), 4);
    assert_eq!(cache_lines_spanned(1, 256), 5);
}
