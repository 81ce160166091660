use bitwise::endian::{
    be16_to_cpu, be32_to_cpu, be64_to_cpu, cpu_to_be16, cpu_to_be32, cpu_to_be64, read_be32,
    read_le32, write_be32,
};

#[test]
fn be16_roundtrip() {
    for v in [0u16, 1, 0x0102, 0xFF00, u16::MAX] {
        assert_eq!(be16_to_cpu(cpu_to_be16(v)), v);
        assert_eq!(cpu_to_be16(be16_to_cpu(v)), v);
    }
}

#[test]
fn cpu_to_be16_puts_msb_first_in_memory() {
    // cpu_to_be16 produces a value whose memory layout (to_ne_bytes) is [MSB, LSB]
    let be = cpu_to_be16(0x0102u16);
    assert_eq!(be.to_ne_bytes(), [0x01, 0x02]);
}

#[test]
fn be32_roundtrip() {
    for v in [0u32, 1, 0x0102_0304, 0xFF00_FF00, u32::MAX] {
        assert_eq!(be32_to_cpu(cpu_to_be32(v)), v);
        assert_eq!(cpu_to_be32(be32_to_cpu(v)), v);
    }
}

#[test]
fn cpu_to_be32_puts_msb_first_in_memory() {
    // Memory layout (to_ne_bytes) should be [MSB, ..., LSB]
    let be = cpu_to_be32(0x1234_5678u32);
    assert_eq!(be.to_ne_bytes(), [0x12, 0x34, 0x56, 0x78]);
}

#[test]
fn be64_roundtrip() {
    for v in [0u64, 1, 0x0102_0304_0506_0708, u64::MAX] {
        assert_eq!(be64_to_cpu(cpu_to_be64(v)), v);
        assert_eq!(cpu_to_be64(be64_to_cpu(v)), v);
    }
}

#[test]
fn read_be32_known_bytes() {
    assert_eq!(read_be32(&[0x12, 0x34, 0x56, 0x78]), 0x1234_5678);
    assert_eq!(read_be32(&[0x00, 0x00, 0x00, 0x01]), 1);
    assert_eq!(read_be32(&[0xFF, 0xFF, 0xFF, 0xFF]), u32::MAX);
    assert_eq!(read_be32(&[0x00, 0x00, 0x00, 0x00]), 0);
}

#[test]
fn read_be32_matches_cpu_to_be32() {
    let v = 0xDEAD_BEEFu32;
    // to_ne_bytes gives the memory layout that cpu_to_be32 is meant to produce
    let be_bytes = cpu_to_be32(v).to_ne_bytes();
    assert_eq!(read_be32(&be_bytes), v);
}

#[test]
fn write_then_read_be32_roundtrip() {
    for v in [0u32, 1, 0x0102_0304, 0xFF00_FF00, u32::MAX] {
        let mut buf = [0u8; 4];
        write_be32(&mut buf, v);
        assert_eq!(read_be32(&buf), v);
    }
}

#[test]
fn write_be32_byte_order() {
    let mut buf = [0u8; 4];
    write_be32(&mut buf, 0x0A0B_0C0D);
    assert_eq!(buf, [0x0A, 0x0B, 0x0C, 0x0D]);
}

#[test]
fn read_le32_known_bytes() {
    assert_eq!(read_le32(&[0x78, 0x56, 0x34, 0x12]), 0x1234_5678);
    assert_eq!(read_le32(&[0x01, 0x00, 0x00, 0x00]), 1);
    assert_eq!(read_le32(&[0xFF, 0xFF, 0xFF, 0xFF]), u32::MAX);
}

#[test]
fn read_le32_opposite_of_read_be32() {
    let bytes = [0x12u8, 0x34, 0x56, 0x78];
    let be = read_be32(&bytes);
    let le = read_le32(&bytes);
    // BE and LE readings of same bytes should be byte-reversed values of each other
    assert_eq!(be, 0x1234_5678);
    assert_eq!(le, 0x7856_3412);
    assert_eq!(be.swap_bytes(), le);
}

#[test]
fn read_functions_accept_longer_slices() {
    let buf = [0x01u8, 0x02, 0x03, 0x04, 0x05, 0x06];
    assert_eq!(read_be32(&buf), 0x0102_0304);
    assert_eq!(read_le32(&buf), 0x0403_0201);
}

#[test]
fn conversions_match_std_on_this_host() {
    for v in [0u16, 0x0102, 0xABCD] {
        assert_eq!(cpu_to_be16(v), v.to_be());
        assert_eq!(be16_to_cpu(v), u16::from_be(v));
    }
    for v in [0u32, 0x0102_0304, 0xDEAD_BEEF] {
        assert_eq!(cpu_to_be32(v), v.to_be());
        assert_eq!(be32_to_cpu(v), u32::from_be(v));
    }
    for v in [0u64, 0x0102_0304_0506_0708, 0xDEAD_BEEF_0BAD_F00D] {
        assert_eq!(cpu_to_be64(v), v.to_be());
        assert_eq!(be64_to_cpu(v), u64::from_be(v));
    }
}

#[test]
fn write_be32_keeps_later_bytes() {
    let mut buf = [0xEEu8; 6];
    write_be32(&mut buf, 0x0102_0304);
    assert_eq!(buf, [0x01, 0x02, 0x03, 0x04, 0xEE, 0xEE]);
}
