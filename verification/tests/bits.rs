use bitwise::bits::{
    bit_clear, bit_field_get, bit_field_set, bit_mask, bit_set, bit_test, bit_toggle,
    clear_lowest_set_bit, even_parity, highest_set_bit_index, is_power_of_two, lowest_set_bit,
    lowest_set_bit_index, next_power_of_two, popcount,
};

#[test]
fn bit_set_zero_base() {
    assert_eq!(bit_set(0, 0), 1);
    assert_eq!(bit_set(0, 7), 0x80);
    assert_eq!(bit_set(0, 63), 1u64 << 63);
}

#[test]
fn bit_set_already_set_is_idempotent() {
    assert_eq!(bit_set(0xFF, 3), 0xFF);
}

#[test]
fn bit_clear_basics() {
    assert_eq!(bit_clear(0xFF, 0), 0xFE);
    assert_eq!(bit_clear(0xFF, 7), 0x7F);
    assert_eq!(bit_clear(0, 5), 0);
}

#[test]
fn bit_toggle_roundtrip() {
    for n in 0u32..64 {
        let val = 0u64;
        assert_eq!(bit_toggle(bit_toggle(val, n), n), val);
    }
}

#[test]
fn bit_test_set_and_clear() {
    let v = 0b1010_0101u64;
    assert!(bit_test(v, 0));
    assert!(!bit_test(v, 1));
    assert!(bit_test(v, 2));
    assert!(!bit_test(v, 3));
    assert!(bit_test(v, 7));
}

#[test]
fn bit_field_get_low_nibble() {
    assert_eq!(bit_field_get(0xABCD, 3, 0), 0xD);
}

#[test]
fn bit_field_get_high_nibble() {
    assert_eq!(bit_field_get(0xABCD, 15, 12), 0xA);
}

#[test]
fn bit_field_get_single_bit() {
    assert_eq!(bit_field_get(0b1010, 1, 1), 1);
    assert_eq!(bit_field_get(0b1010, 0, 0), 0);
}

#[test]
fn bit_field_get_full_width() {
    assert_eq!(bit_field_get(u64::MAX, 63, 0), u64::MAX);
}

#[test]
fn bit_field_get_iopl_example() {
    let rflags: u64 = 3 << 12;
    assert_eq!(bit_field_get(rflags, 13, 12), 3);
}

#[test]
fn bit_field_set_replaces_field() {
    let v = 0b1111_1111u64;
    assert_eq!(bit_field_set(v, 2, 0, 0b000), 0b1111_1000);
    assert_eq!(bit_field_set(v, 2, 0, 0b101), 0b1111_1101);
}

#[test]
fn bit_field_set_preserves_surrounding_bits() {
    let v: u64 = 0xFFFF_FFFF_FFFF_FFFF;
    let result = bit_field_set(v, 7, 4, 0b0000);
    assert_eq!(result & !0xF0, v & !0xF0);
    assert_eq!((result >> 4) & 0xF, 0);
}

#[test]
fn bit_field_get_set_roundtrip() {
    let original = 0xDEAD_BEEF_1234_5678u64;
    for (hi, lo) in [(3u32, 0u32), (15, 8), (47, 32), (63, 56)] {
        let extracted = bit_field_get(original, hi, lo);
        let width = hi - lo + 1;
        let mask = if width == 64 { u64::MAX } else { (1u64 << width) - 1 };
        assert_eq!(bit_field_get(bit_field_set(original, hi, lo, extracted), hi, lo), extracted & mask);
    }
}

#[test]
fn bit_mask_basic() {
    assert_eq!(bit_mask(3, 0), 0xF);
    assert_eq!(bit_mask(7, 4), 0xF0);
    assert_eq!(bit_mask(0, 0), 1);
}

#[test]
fn bit_mask_full_width() {
    assert_eq!(bit_mask(63, 0), u64::MAX);
}

#[test]
fn bit_mask_matches_field_set_clear() {
    let m = bit_mask(11, 8);
    let ones_in_field = bit_field_set(0, 11, 8, u64::MAX);
    assert_eq!(m, ones_in_field);
}

#[test]
fn is_power_of_two_true() {
    for exp in 0..64 {
        assert!(is_power_of_two(1u64 << exp), "1<<{exp} should be power-of-two");
    }
}

#[test]
fn is_power_of_two_false() {
    assert!(!is_power_of_two(0));
    assert!(!is_power_of_two(3));
    assert!(!is_power_of_two(6));
    assert!(!is_power_of_two(0x1001));
    assert!(!is_power_of_two(u64::MAX));
}

#[test]
fn next_power_of_two_exact_powers() {
    assert_eq!(next_power_of_two(1), 1);
    assert_eq!(next_power_of_two(2), 2);
    assert_eq!(next_power_of_two(4), 4);
    assert_eq!(next_power_of_two(0x1000), 0x1000);
}

#[test]
fn next_power_of_two_rounds_up() {
    assert_eq!(next_power_of_two(3), 4);
    assert_eq!(next_power_of_two(5), 8);
    assert_eq!(next_power_of_two(0x1001), 0x2000);
    assert_eq!(next_power_of_two(0), 1);
}

#[test]
fn next_power_of_two_largest_input() {
    assert_eq!(next_power_of_two(1u64 << 63), 1u64 << 63);
    assert_eq!(next_power_of_two((1u64 << 62) + 1), 1u64 << 63);
}

#[test]
fn lowest_set_bit_isolates_lsb() {
    assert_eq!(lowest_set_bit(0b1010), 0b0010);
    assert_eq!(lowest_set_bit(0b1100), 0b0100);
    assert_eq!(lowest_set_bit(1), 1);
    assert_eq!(lowest_set_bit(u64::MAX), 1);
    assert_eq!(lowest_set_bit(0), 0);
}

#[test]
fn clear_lowest_set_bit_strips_lsb() {
    assert_eq!(clear_lowest_set_bit(0b1010), 0b1000);
    assert_eq!(clear_lowest_set_bit(0b1100), 0b1000);
    assert_eq!(clear_lowest_set_bit(1), 0);
}

#[test]
fn clear_lowest_set_bit_iteration_matches_popcount() {
    let original = 0b1011_0110_1001_1100u64;
    let expected_count = original.count_ones();
    let mut n = original;
    let mut count = 0u32;
    while n != 0 {
        n = clear_lowest_set_bit(n);
        count += 1;
    }
    assert_eq!(count, expected_count);
}

#[test]
fn lowest_set_bit_index_basic() {
    assert_eq!(lowest_set_bit_index(0), None);
    assert_eq!(lowest_set_bit_index(1), Some(0));
    assert_eq!(lowest_set_bit_index(0b1000), Some(3));
    assert_eq!(lowest_set_bit_index(0b1010), Some(1));
    assert_eq!(lowest_set_bit_index(1u64 << 63), Some(63));
}

#[test]
fn highest_set_bit_index_basic() {
    assert_eq!(highest_set_bit_index(0), None);
    assert_eq!(highest_set_bit_index(1), Some(0));
    assert_eq!(highest_set_bit_index(0b1000), Some(3));
    assert_eq!(highest_set_bit_index(0b1010), Some(3));
    assert_eq!(highest_set_bit_index(u64::MAX), Some(63));
}

#[test]
fn highest_set_bit_index_is_floor_log2() {
    for exp in 0u32..64 {
        assert_eq!(highest_set_bit_index(1u64 << exp), Some(exp));
    }
}

#[test]
fn popcount_basic() {
    assert_eq!(popcount(0), 0);
    assert_eq!(popcount(1), 1);
    assert_eq!(popcount(0xFF), 8);
    assert_eq!(popcount(u64::MAX), 64);
    assert_eq!(popcount(0b1011_0110), 5);
}

#[test]
fn popcount_matches_std() {
    for v in [0u64, 0xDEAD_BEEF_1234_5678, 1u64 << 63, 0x5555_5555_5555_5555] {
        assert_eq!(popcount(v), v.count_ones());
    }
}

#[test]
fn even_parity_basic() {
    assert!(even_parity(0));
    assert!(!even_parity(1));
    assert!(even_parity(0b11));
    assert!(!even_parity(0b111));
    assert!(even_parity(u64::MAX));
}

#[test]
fn lowest_bit_and_rest_partition_the_value() {
    for n in [1u64, 0b1010, 0b1011_0110_1001_1100, u64::MAX, 1 << 63] {
        let low = lowest_set_bit(n);
        let rest = clear_lowest_set_bit(n);
        assert_eq!(low | rest, n);
        assert_eq!(low & rest, 0);
    }
}
