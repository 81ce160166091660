//! Address alignment and frame arithmetic for power-of-two alignments.

use vstd::prelude::*;
use vstd::arithmetic::power2::pow2;
use vstd::bits::{low_bits_mask, lemma_u64_shr_is_div, lemma_u64_low_bits_mask_is_mod, lemma_u64_pow2_no_overflow, lemma_u64_shl_is_mul};

verus! {

/// `x` is a power of two that fits in a `u64`.
pub open spec fn is_pow2(x: u64) -> bool {
    exists|k: u64| k < 64 && x == 1u64 << k
}

/// The exponent of a power of two: the `k` with `x == 1 << k`.
pub open spec fn log2_of(x: u64) -> u64 {
    choose|k: u64| k < 64 && x == 1u64 << k
}

/// `1 << k` is a power of two and equals `pow2(k)`.
pub proof fn lemma_shl_pow2(k: u64)
    requires
        k < 64,
    ensures
        is_pow2(1u64 << k),
        (1u64 << k) == pow2(k as nat),
{
    lemma_u64_pow2_no_overflow(k as nat);
    lemma_u64_shl_is_mul(1u64, k);
}

/// `addr` rounded up to the next multiple of `align`, as a mathematical integer.
pub open spec fn round_up(addr: u64, align: u64) -> int {
    if addr % align == 0 {
        addr as int
    } else {
        addr - addr % align + align
    }
}

/// Facts about a power-of-two alignment that the functions below rest on.
pub proof fn lemma_pow2_mask(align: u64)
    requires
        is_pow2(align),
    ensures
        align > 0,
        align == 1u64 << log2_of(align),
        log2_of(align) < 64,
        forall|a: u64| #[trigger] (a & ((align - 1) as u64)) == a % align,
        forall|a: u64| #[trigger] (a & !((align - 1) as u64)) == a - a % align,
{
    let k = log2_of(align);
    assert(align > 0) by (bit_vector)
        requires
            align == 1u64 << k,
            k < 64,
    ;
    lemma_u64_pow2_no_overflow(k as nat);
    lemma_u64_shl_is_mul(1u64, k);
    assert(align == pow2(k as nat));
    assert(low_bits_mask(k as nat) == align - 1);
    assert forall|a: u64| #[trigger] (a & ((align - 1) as u64)) == a % align by {
        lemma_u64_low_bits_mask_is_mod(a, k as nat);
    }
    assert forall|a: u64| #[trigger] (a & !((align - 1) as u64)) == a - a % align by {
        let m = (align - 1) as u64;
        lemma_u64_low_bits_mask_is_mod(a, k as nat);
        assert((a & !m) == a - (a & m)) by (bit_vector);
    }
}

/// Round `addr` down to the nearest multiple of `align`.
pub fn align_down(addr: u64, align: u64) -> (r: u64)
    requires
        is_pow2(align),
    ensures
        r == addr - addr % align,
{
    proof {
        lemma_pow2_mask(align);
    }
    addr & !(align - 1)
}


/// The shift that turns a power-of-two `align` into a division: its trailing-zero count.
proof fn lemma_trailing_zeros_of_pow2(align: u64)
    requires
        is_pow2(align),
    ensures
        align.trailing_zeros() as u64 == log2_of(align),
        align.trailing_zeros() < 64,
        pow2(log2_of(align) as nat) == align,
{
    lemma_pow2_mask(align);
    let k = log2_of(align);
    let t = align.trailing_zeros() as u64;
    broadcast use vstd::std_specs::bits::axiom_u64_trailing_zeros;
    assert(t < 64);
    assert(t == k) by (bit_vector)
        requires
            align == 1u64 << k,
            k < 64,
            t < 64,
            (align >> t) & 1u64 == 1u64,
    ;
    lemma_u64_pow2_no_overflow(k as nat);
    lemma_u64_shl_is_mul(1u64, k);
}

/// What rounding up with a wrapping add computes: the next multiple, modulo 2^64.
proof fn lemma_align_up_bits(addr: u64, align: u64)
    requires
        is_pow2(align),
    ensures
        (addr.wrapping_add((align - 1) as u64) & !((align - 1) as u64)) as int == round_up(
            addr,
            align,
        ) % 0x1_0000_0000_0000_0000,
        round_up(addr, align) <= 0x1_0000_0000_0000_0000,
        round_up(addr, align) % align as int == 0,
{
    lemma_pow2_mask(align);
    vstd::arithmetic::div_mod::lemma_fundamental_div_mod(addr as int, align as int);
    vstd::arithmetic::div_mod::lemma_mod_multiples_basic(addr as int / align as int + 1, align as int);
    vstd::arithmetic::div_mod::lemma_mod_multiples_basic(addr as int / align as int, align as int);
    let q = addr as int / align as int;
    assert((q + 1) * align as int == q * align as int + align as int) by (nonlinear_arith);
    assert(q * align as int == align as int * q) by (nonlinear_arith);
    let k = log2_of(align);
    let m = (align - 1) as u64;
    let s = addr.wrapping_add(m);
    assert(addr & m == addr % align);
    assert(addr & !m == addr - addr % align);
    if addr & m == 0 {
        assert(addr + m <= 0xffff_ffff_ffff_ffff && ((addr + m) as u64) & !m == addr)
            by (bit_vector)
            requires
                align == 1u64 << k,
                k < 64,
                m == (align - 1) as u64,
                addr & m == 0,
        ;
    } else if addr + m <= 0xffff_ffff_ffff_ffff {
        assert(((addr + m) as u64) & !m == (addr & !m) + align) by (bit_vector)
            requires
                align == 1u64 << k,
                k < 64,
                m == (align - 1) as u64,
                addr & m != 0,
                addr + m <= 0xffff_ffff_ffff_ffff,
        ;
    } else {
        assert(((addr + m - 0x1_0000_0000_0000_0000) as u64) & !m == 0 && (addr & !m) + align
            == 0x1_0000_0000_0000_0000) by (bit_vector)
            requires
                align == 1u64 << k,
                k < 64,
                m == (align - 1) as u64,
                addr + m > 0xffff_ffff_ffff_ffff,
        ;
    }
}

/// Round `addr` up to the nearest multiple of `align`; an already aligned `addr` is
/// returned unchanged. The addition wraps: past the last multiple below 2^64 the
/// result is 0.
pub fn align_up(addr: u64, align: u64) -> (r: u64)
    requires
        is_pow2(align),
    ensures
        r as int == round_up(addr, align) % 0x1_0000_0000_0000_0000,
{
    proof {
        lemma_pow2_mask(align);
        lemma_align_up_bits(addr, align);
    }
    let r = align_down(addr.wrapping_add(align - 1), align);
    proof {
        let s = addr.wrapping_add((align - 1) as u64);
        assert(s & !((align - 1) as u64) == s - s % align);
    }
    r
}

/// `true` if `addr` is a multiple of `align`.
pub fn is_aligned(addr: u64, align: u64) -> (r: bool)
    requires
        is_pow2(align),
    ensures
        r == (addr % align == 0),
{
    proof {
        lemma_pow2_mask(align);
    }
    (addr & (align - 1)) == 0
}

/// The position of `addr` inside its `align`-sized block (0 when aligned).
pub fn align_offset(addr: u64, align: u64) -> (r: u64)
    requires
        is_pow2(align),
    ensures
        r == addr % align,
{
    proof {
        lemma_pow2_mask(align);
    }
    addr & (align - 1)
}

/// The number of the `frame_size`-sized frame that holds `phys_addr`.
pub fn frame_number(phys_addr: u64, frame_size: u64) -> (r: u64)
    requires
        is_pow2(frame_size),
    ensures
        r == phys_addr / frame_size,
{
    proof {
        lemma_trailing_zeros_of_pow2(frame_size);
        lemma_u64_shr_is_div(phys_addr, log2_of(frame_size));
    }
    phys_addr >> frame_size.trailing_zeros()
}

/// The base address of frame number `frame_num`; the product wraps modulo 2^64.
pub fn frame_base(frame_num: u64, frame_size: u64) -> (r: u64)
    requires
        is_pow2(frame_size),
    ensures
        r as int == (frame_num as int * frame_size as int) % 0x1_0000_0000_0000_0000,
{
    proof {
        lemma_trailing_zeros_of_pow2(frame_size);
        lemma_pow2_mask(frame_size);
        let k = log2_of(frame_size);
        assert((frame_num << k) == (frame_num * frame_size) % 0x1_0000_0000_0000_0000) by (bit_vector)
            requires
                frame_size == 1u64 << k,
                k < 64,
        ;
    }
    frame_num << frame_size.trailing_zeros()
}

/// The byte offset of `addr` inside its frame.
pub fn frame_offset(addr: u64, frame_size: u64) -> (r: u64)
    requires
        is_pow2(frame_size),
    ensures
        r == addr % frame_size,
{
    proof {
        lemma_pow2_mask(frame_size);
    }
    addr & (frame_size - 1)
}

/// How many frames cover `byte_count` bytes, rounding up. When rounding up passes
/// 2^64 the rounded size wraps to 0 and so does the count.
pub fn frames_needed(byte_count: u64, frame_size: u64) -> (r: u64)
    requires
        is_pow2(frame_size),
    ensures
        r == (if round_up(byte_count, frame_size) < 0x1_0000_0000_0000_0000 {
            round_up(byte_count, frame_size) / frame_size as int
        } else {
            0
        }),
{
    proof {
        lemma_trailing_zeros_of_pow2(frame_size);
        lemma_pow2_mask(frame_size);
    }
    let up = align_up(byte_count, frame_size);
    proof {
        lemma_align_up_bits(byte_count, frame_size);
        lemma_u64_shr_is_div(up, log2_of(frame_size));
    }
    up >> frame_size.trailing_zeros()
}

/// `true` if the byte range `[addr, addr + size)` lies inside a single frame.
///
/// The last byte is computed as `addr + size - 1`, which must not overflow or
/// underflow.
pub fn fits_in_frame(addr: u64, size: u64, frame_size: u64) -> (r: bool)
    requires
        is_pow2(frame_size),
        1 <= addr + size <= u64::MAX,
    ensures
        r == (addr / frame_size == (addr + size - 1) / (frame_size as int)),
{
    frame_number(addr, frame_size) == frame_number(addr + size - 1, frame_size)
}


/// Rounding down gives a multiple of `align` at most `addr` and within `align` of it;
/// rounding up, when it stays below 2^64, gives a multiple of `align` at least `addr`
/// and within `align` of it.
pub proof fn lemma_rounding_bounds(addr: u64, align: u64)
    requires
        is_pow2(align),
    ensures
        (addr - addr % align) % align as int == 0,
        addr - align < addr - addr % align <= addr,
        round_up(addr, align) % align as int == 0,
        addr <= round_up(addr, align) < addr + align,
{
    lemma_pow2_mask(align);
    lemma_align_up_bits(addr, align);
    let q = addr as int / align as int;
    vstd::arithmetic::div_mod::lemma_fundamental_div_mod(addr as int, align as int);
    vstd::arithmetic::div_mod::lemma_mod_multiples_basic(q, align as int);
    assert(q * align as int == align as int * q) by (nonlinear_arith);
}

/// The frame number of a frame's base address is the frame number, as long as the
/// base address does not wrap past 2^64.
pub proof fn lemma_frame_number_of_base(frame_num: u64, frame_size: u64)
    requires
        is_pow2(frame_size),
        frame_num as int * frame_size as int <= u64::MAX,
    ensures
        ((frame_num as int * frame_size as int) % 0x1_0000_0000_0000_0000) / frame_size as int
            == frame_num,
{
    lemma_pow2_mask(frame_size);
    let p = frame_num as int * frame_size as int;
    vstd::arithmetic::div_mod::lemma_small_mod(p as nat, 0x1_0000_0000_0000_0000nat);
    vstd::arithmetic::div_mod::lemma_div_multiples_vanish(frame_num as int, frame_size as int);
    assert(p == frame_size as int * frame_num as int) by (nonlinear_arith)
        requires
            p == frame_num as int * frame_size as int,
    ;
}

/// The base of the frame that holds `addr` is `addr` rounded down to the frame size.
pub proof fn lemma_base_of_frame_number(addr: u64, frame_size: u64)
    requires
        is_pow2(frame_size),
    ensures
        ((addr / frame_size) as int * frame_size as int) % 0x1_0000_0000_0000_0000 == addr - addr
            % frame_size,
{
    lemma_pow2_mask(frame_size);
    let q = addr as int / frame_size as int;
    vstd::arithmetic::div_mod::lemma_fundamental_div_mod(addr as int, frame_size as int);
    assert(q * frame_size as int == frame_size as int * q) by (nonlinear_arith);
    vstd::arithmetic::div_mod::lemma_small_mod(
        (q * frame_size as int) as nat,
        0x1_0000_0000_0000_0000nat,
    );
}

} // verus!
