use bitwise::align::{
    align_down, align_offset, align_up, fits_in_frame, frame_base, frame_number, frame_offset,
    frames_needed, is_aligned,
};

#[test]
fn align_down_already_aligned() {
    assert_eq!(align_down(0x1000, 0x1000), 0x1000);
    assert_eq!(align_down(0, 8), 0);
}

#[test]
fn align_down_rounds_toward_zero() {
    assert_eq!(align_down(0x1001, 0x1000), 0x1000);
    assert_eq!(align_down(0x1FFF, 0x1000), 0x1000);
    assert_eq!(align_down(0xFFFF, 0x1000), 0xF000);
    assert_eq!(align_down(7, 4), 4);
    assert_eq!(align_down(3, 4), 0);
}

#[test]
fn align_down_large_alignment() {
    assert_eq!(align_down(0x0040_0000, 0x0020_0000), 0x0040_0000);
    assert_eq!(align_down(0x0040_0001, 0x0020_0000), 0x0040_0000);
}

#[test]
fn align_up_already_aligned() {
    assert_eq!(align_up(0x1000, 0x1000), 0x1000);
    assert_eq!(align_up(0, 0x1000), 0);
}

#[test]
fn align_up_rounds_away_from_zero() {
    assert_eq!(align_up(1, 0x1000), 0x1000);
    assert_eq!(align_up(0x1001, 0x1000), 0x2000);
    assert_eq!(align_up(0x1FFF, 0x1000), 0x2000);
    assert_eq!(align_up(5, 4), 8);
}

#[test]
fn align_up_large_alignment() {
    assert_eq!(align_up(0x0020_0001, 0x0020_0000), 0x0040_0000);
}

#[test]
fn is_aligned_true_cases() {
    assert!(is_aligned(0, 0x1000));
    assert!(is_aligned(0x2000, 0x1000));
    assert!(is_aligned(0x40, 8));
}

#[test]
fn is_aligned_false_cases() {
    assert!(!is_aligned(1, 0x1000));
    assert!(!is_aligned(0x2001, 0x1000));
    assert!(!is_aligned(7, 4));
}

#[test]
fn align_offset_at_boundary_is_zero() {
    assert_eq!(align_offset(0x1000, 0x1000), 0);
    assert_eq!(align_offset(0, 64), 0);
}

#[test]
fn align_offset_returns_intra_block_position() {
    assert_eq!(align_offset(0x1001, 0x1000), 1);
    assert_eq!(align_offset(0x1FFF, 0x1000), 0xFFF);
    assert_eq!(align_offset(0x1800, 0x1000), 0x800);
    assert_eq!(align_offset(65, 64), 1);
}

#[test]
fn frame_number_4k() {
    assert_eq!(frame_number(0x0000_0000, 0x1000), 0);
    assert_eq!(frame_number(0x0000_1000, 0x1000), 1);
    assert_eq!(frame_number(0xDEAD_B000, 0x1000), 0xDEAD_B);
    assert_eq!(frame_number(0x0008_0000_0000, 0x1000), 0x80_0000);
}

#[test]
fn frame_number_2m() {
    assert_eq!(frame_number(0x0020_0000, 0x0020_0000), 1);
    assert_eq!(frame_number(0x0040_0000, 0x0020_0000), 2);
}

#[test]
fn frame_base_roundtrip() {
    for &frame_size in &[0x1000u64, 0x0020_0000, 0x4000_0000] {
        for n in [0u64, 1, 7, 511] {
            assert_eq!(frame_number(frame_base(n, frame_size), frame_size), n);
        }
    }
}

#[test]
fn frame_number_base_inverse() {
    let addr = 0xDEAD_B123u64;
    let size = 0x1000u64;
    assert_eq!(frame_base(frame_number(addr, size), size), align_down(addr, size));
}

#[test]
fn frame_offset_at_base_is_zero() {
    assert_eq!(frame_offset(0x5000, 0x1000), 0);
    assert_eq!(frame_offset(0, 0x1000), 0);
}

#[test]
fn frame_offset_within_frame() {
    assert_eq!(frame_offset(0x5001, 0x1000), 1);
    assert_eq!(frame_offset(0x5FFF, 0x1000), 0xFFF);
    assert_eq!(frame_offset(0x5800, 0x1000), 0x800);
}

#[test]
fn frames_needed_exact_multiple() {
    assert_eq!(frames_needed(0x1000, 0x1000), 1);
    assert_eq!(frames_needed(0x2000, 0x1000), 2);
    assert_eq!(frames_needed(0x0060_0000, 0x0020_0000), 3);
}

#[test]
fn frames_needed_rounds_up() {
    assert_eq!(frames_needed(0x1001, 0x1000), 2);
    assert_eq!(frames_needed(1, 0x1000), 1);
    // 7 MiB needs 4 × 2 MiB frames
    assert_eq!(frames_needed(7 * 1024 * 1024, 0x0020_0000), 4);
}

#[test]
fn frames_needed_zero_bytes() {
    assert_eq!(frames_needed(0, 0x1000), 0);
}

#[test]
fn fits_in_frame_entirely_inside() {
    assert!(fits_in_frame(0x1000, 0x100, 0x1000));
    assert!(fits_in_frame(0x1000, 0x1000, 0x1000));
    assert!(fits_in_frame(0x1F00, 0x100, 0x1000));
}

#[test]
fn fits_in_frame_crosses_boundary() {
    assert!(!fits_in_frame(0x1FF0, 0x20, 0x1000));
    assert!(!fits_in_frame(0x0FFF, 0x2, 0x1000));
}

#[test]
fn fits_in_frame_single_byte() {
    assert!(fits_in_frame(0x1FFF, 1, 0x1000));
    assert!(fits_in_frame(0x1000, 1, 0x1000));
}

#[test]
fn align_up_wraps_past_the_last_multiple() {
    assert_eq!(align_up(u64::MAX, 0x1000), 0);
    assert_eq!(align_up(0xFFFF_FFFF_FFFF_F000, 0x1000), 0xFFFF_FFFF_FFFF_F000);
    assert_eq!(frames_needed(u64::MAX, 0x1000), 0);
}

#[test]
fn frame_base_wraps_modulo_two_to_the_64() {
    assert_eq!(frame_base(1u64 << 52, 0x1000), 0);
    assert_eq!(frame_base(3, 0x4000_0000), 0xC000_0000);
}

#[test]
fn align_with_one_byte_alignment() {
    assert_eq!(align_down(12345, 1), 12345);
    assert_eq!(align_up(12345, 1), 12345);
    assert_eq!(frame_number(12345, 1), 12345);
    assert_eq!(frames_needed(12345, 1), 12345);
}
