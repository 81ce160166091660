//! Byte-order conversion between big-endian and the native order of the
//! little-endian x86_64 targets this crate is built for, and big/little-endian
//! reads and writes of `u32` values in byte slices.

use vstd::prelude::*;

verus! {

/// `x` with its two bytes in reverse order.
pub open spec fn swap16(x: u16) -> u16 {
    ((x & 0xFF) << 8u16) | (x >> 8u16)
}

/// `x` with its four bytes in reverse order.
pub open spec fn swap32(x: u32) -> u32 {
    ((x & 0xFF) << 24u32) | ((x & 0xFF00) << 8u32) | ((x >> 8u32) & 0xFF00) | (x >> 24u32)
}

/// `x` with its eight bytes in reverse order.
pub open spec fn swap64(x: u64) -> u64 {
    ((x & 0xFF) << 56u64) | ((x & 0xFF00) << 40u64) | ((x & 0xFF_0000) << 24u64) | ((x
        & 0xFF00_0000) << 8u64) | ((x >> 8u64) & 0xFF00_0000) | ((x >> 24u64) & 0xFF_0000) | ((x
        >> 40u64) & 0xFF00) | (x >> 56u64)
}

/// The value of four bytes read most significant first.
pub open spec fn be32_value(b0: u8, b1: u8, b2: u8, b3: u8) -> int {
    b0 * 0x100_0000 + b1 * 0x1_0000 + b2 * 0x100 + b3
}

/// Reversing the bytes twice gives the value back.
pub proof fn lemma_swap_involutive(x16: u16, x32: u32, x64: u64)
    ensures
        swap16(swap16(x16)) == x16,
        swap32(swap32(x32)) == x32,
        swap64(swap64(x64)) == x64,
{
    assert(swap16(swap16(x16)) == x16 && swap32(swap32(x32)) == x32 && swap64(swap64(x64)) == x64)
        by (bit_vector);
}

/// Byte `k` of a reversed value is byte `n - 1 - k` of the value, for every byte of
/// every `u16`, `u32` and `u64`.
pub proof fn lemma_swap_bytes(x16: u16, x32: u32, x64: u64)
    ensures
        swap16(x16) & 0xFF == (x16 >> 8u16) & 0xFF,
        (swap16(x16) >> 8u16) & 0xFF == x16 & 0xFF,
        swap32(x32) & 0xFF == (x32 >> 24u32) & 0xFF,
        (swap32(x32) >> 8u32) & 0xFF == (x32 >> 16u32) & 0xFF,
        (swap32(x32) >> 16u32) & 0xFF == (x32 >> 8u32) & 0xFF,
        (swap32(x32) >> 24u32) & 0xFF == x32 & 0xFF,
        swap64(x64) & 0xFF == (x64 >> 56u64) & 0xFF,
        (swap64(x64) >> 8u64) & 0xFF == (x64 >> 48u64) & 0xFF,
        (swap64(x64) >> 16u64) & 0xFF == (x64 >> 40u64) & 0xFF,
        (swap64(x64) >> 24u64) & 0xFF == (x64 >> 32u64) & 0xFF,
        (swap64(x64) >> 32u64) & 0xFF == (x64 >> 24u64) & 0xFF,
        (swap64(x64) >> 40u64) & 0xFF == (x64 >> 16u64) & 0xFF,
        (swap64(x64) >> 48u64) & 0xFF == (x64 >> 8u64) & 0xFF,
        (swap64(x64) >> 56u64) & 0xFF == x64 & 0xFF,
{
    assert((swap16(x16) & 0xFF == (x16 >> 8u16) & 0xFF)
        && ((swap16(x16) >> 8u16) & 0xFF == x16 & 0xFF)
        && (swap32(x32) & 0xFF == (x32 >> 24u32) & 0xFF)
        && ((swap32(x32) >> 8u32) & 0xFF == (x32 >> 16u32) & 0xFF)
        && ((swap32(x32) >> 16u32) & 0xFF == (x32 >> 8u32) & 0xFF)
        && ((swap32(x32) >> 24u32) & 0xFF == x32 & 0xFF)
        && (swap64(x64) & 0xFF == (x64 >> 56u64) & 0xFF)
        && ((swap64(x64) >> 8u64) & 0xFF == (x64 >> 48u64) & 0xFF)
        && ((swap64(x64) >> 16u64) & 0xFF == (x64 >> 40u64) & 0xFF)
        && ((swap64(x64) >> 24u64) & 0xFF == (x64 >> 32u64) & 0xFF)
        && ((swap64(x64) >> 32u64) & 0xFF == (x64 >> 24u64) & 0xFF)
        && ((swap64(x64) >> 40u64) & 0xFF == (x64 >> 16u64) & 0xFF)
        && ((swap64(x64) >> 48u64) & 0xFF == (x64 >> 8u64) & 0xFF)
        && ((swap64(x64) >> 56u64) & 0xFF == x64 & 0xFF)) by (bit_vector);
}

/// A big-endian `u16` as a native value.
pub fn be16_to_cpu(x: u16) -> (r: u16)
    ensures
        r == swap16(x),
        r & 0xFF == (x >> 8u16) & 0xFF,
        (r >> 8u16) & 0xFF == x & 0xFF,
{
    proof {
        lemma_swap_bytes(x, 0, 0);
    }
    ((x & 0xFF) << 8) | (x >> 8)
}

/// A big-endian `u32` as a native value.
pub fn be32_to_cpu(x: u32) -> (r: u32)
    ensures
        r == swap32(x),
        r & 0xFF == (x >> 24u32) & 0xFF,
        (r >> 8u32) & 0xFF == (x >> 16u32) & 0xFF,
        (r >> 16u32) & 0xFF == (x >> 8u32) & 0xFF,
        (r >> 24u32) & 0xFF == x & 0xFF,
{
    proof {
        lemma_swap_bytes(0, x, 0);
    }
    ((x & 0xFF) << 24) | ((x & 0xFF00) << 8) | ((x >> 8) & 0xFF00) | (x >> 24)
}

/// A big-endian `u64` as a native value.
pub fn be64_to_cpu(x: u64) -> (r: u64)
    ensures
        r == swap64(x),
        r & 0xFF == (x >> 56u64) & 0xFF,
        (r >> 8u64) & 0xFF == (x >> 48u64) & 0xFF,
        (r >> 16u64) & 0xFF == (x >> 40u64) & 0xFF,
        (r >> 24u64) & 0xFF == (x >> 32u64) & 0xFF,
        (r >> 32u64) & 0xFF == (x >> 24u64) & 0xFF,
        (r >> 40u64) & 0xFF == (x >> 16u64) & 0xFF,
        (r >> 48u64) & 0xFF == (x >> 8u64) & 0xFF,
        (r >> 56u64) & 0xFF == x & 0xFF,
{
    proof {
        lemma_swap_bytes(0, 0, x);
    }
    ((x & 0xFF) << 56) | ((x & 0xFF00) << 40) | ((x & 0xFF_0000) << 24) | ((x & 0xFF00_0000) << 8)
        | ((x >> 8) & 0xFF00_0000) | ((x >> 24) & 0xFF_0000) | ((x >> 40) & 0xFF00) | (x >> 56)
}

/// A native `u16` in big-endian order.
pub fn cpu_to_be16(x: u16) -> (r: u16)
    ensures
        r == swap16(x),
        r & 0xFF == (x >> 8u16) & 0xFF,
        (r >> 8u16) & 0xFF == x & 0xFF,
{
    proof {
        lemma_swap_bytes(x, 0, 0);
    }
    be16_to_cpu(x)
}

/// A native `u32` in big-endian order.
pub fn cpu_to_be32(x: u32) -> (r: u32)
    ensures
        r == swap32(x),
        r & 0xFF == (x >> 24u32) & 0xFF,
        (r >> 8u32) & 0xFF == (x >> 16u32) & 0xFF,
        (r >> 16u32) & 0xFF == (x >> 8u32) & 0xFF,
        (r >> 24u32) & 0xFF == x & 0xFF,
{
    proof {
        lemma_swap_bytes(0, x, 0);
    }
    be32_to_cpu(x)
}

/// A native `u64` in big-endian order.
pub fn cpu_to_be64(x: u64) -> (r: u64)
    ensures
        r == swap64(x),
        r & 0xFF == (x >> 56u64) & 0xFF,
        (r >> 8u64) & 0xFF == (x >> 48u64) & 0xFF,
        (r >> 16u64) & 0xFF == (x >> 40u64) & 0xFF,
        (r >> 24u64) & 0xFF == (x >> 32u64) & 0xFF,
        (r >> 32u64) & 0xFF == (x >> 24u64) & 0xFF,
        (r >> 40u64) & 0xFF == (x >> 16u64) & 0xFF,
        (r >> 48u64) & 0xFF == (x >> 8u64) & 0xFF,
        (r >> 56u64) & 0xFF == x & 0xFF,
{
    proof {
        lemma_swap_bytes(0, 0, x);
    }
    be64_to_cpu(x)
}

/// Byte assembly, as arithmetic.
proof fn lemma_byte_assembly()
    by (bit_vector)
    ensures
        forall|b0: u8, b1: u8, b2: u8, b3: u8|
            #[trigger] (((b0 as u32) << 24u32) | ((b1 as u32) << 16u32) | ((b2 as u32) << 8u32) | (
            b3 as u32)) == (b0 as u32) * 0x100_0000u32 + (b1 as u32) * 0x1_0000u32 + (b2 as u32)
                * 0x100u32 + (b3 as u32),
        forall|v: u32|
            #[trigger] (((v >> 24u32) as u8) as u32) * 0x100_0000u32 + (((v >> 16u32) as u8) as u32)
                * 0x1_0000u32 + (((v >> 8u32) as u8) as u32) * 0x100u32 + ((v as u8) as u32) == v,
        forall|b0: u8, b1: u8, b2: u8, b3: u8|
            #[trigger] swap32(
                ((b0 as u32) << 24u32) | ((b1 as u32) << 16u32) | ((b2 as u32) << 8u32) | (
                b3 as u32),
            ) == ((b3 as u32) << 24u32) | ((b2 as u32) << 16u32) | ((b1 as u32) << 8u32) | (
            b0 as u32),
{
}

/// The first four bytes of `bytes`, most significant first.
pub fn read_be32(bytes: &[u8]) -> (r: u32)
    requires
        bytes@.len() >= 4,
    ensures
        r == be32_value(bytes@[0], bytes@[1], bytes@[2], bytes@[3]),
{
    proof {
        lemma_byte_assembly();
    }
    (bytes[0] as u32) << 24 | (bytes[1] as u32) << 16 | (bytes[2] as u32) << 8 | (bytes[3] as u32)
}

/// Write `value` into the first four bytes of `bytes`, most significant first; the
/// other bytes are kept.
pub fn write_be32(bytes: &mut [u8], value: u32)
    requires
        old(bytes)@.len() >= 4,
    ensures
        final(bytes)@ == old(bytes)@.update(0, (value >> 24) as u8).update(1, (value >> 16) as u8).update(
            2,
            (value >> 8) as u8,
        ).update(3, value as u8),
{
    bytes[0] = (value >> 24) as u8;
    bytes[1] = (value >> 16) as u8;
    bytes[2] = (value >> 8) as u8;
    bytes[3] = value as u8;
}

/// The first four bytes of `bytes`, least significant first.
pub fn read_le32(bytes: &[u8]) -> (r: u32)
    requires
        bytes@.len() >= 4,
    ensures
        r == be32_value(bytes@[3], bytes@[2], bytes@[1], bytes@[0]),
{
    proof {
        lemma_byte_assembly();
    }
    (bytes[3] as u32) << 24 | (bytes[2] as u32) << 16 | (bytes[1] as u32) << 8 | (bytes[0] as u32)
}

/// The bytes `write_be32` writes read back, in big-endian order, as the value written.
pub proof fn lemma_write_read_be32(value: u32)
    ensures
        be32_value(
            (value >> 24) as u8,
            (value >> 16) as u8,
            (value >> 8) as u8,
            value as u8,
        ) == value,
{
    lemma_byte_assembly();
    assert((((value >> 24u32) as u8) as u32) * 0x100_0000u32 + (((value >> 16u32) as u8) as u32)
        * 0x1_0000u32 + (((value >> 8u32) as u8) as u32) * 0x100u32 + ((value as u8) as u32) == value);
}

/// The same four bytes read little-endian give the byte reversal of their big-endian
/// reading.
pub proof fn lemma_le_is_swapped_be(b0: u8, b1: u8, b2: u8, b3: u8)
    ensures
        be32_value(b3, b2, b1, b0) == swap32(be32_value(b0, b1, b2, b3) as u32),
{
    lemma_byte_assembly();
    let be = ((b0 as u32) << 24u32) | ((b1 as u32) << 16u32) | ((b2 as u32) << 8u32) | (b3 as u32);
    let le = ((b3 as u32) << 24u32) | ((b2 as u32) << 16u32) | ((b1 as u32) << 8u32) | (b0 as u32);
    assert(swap32(be) == le);
}

} // verus!
