//! Cache-line alignment and span arithmetic (64-byte lines).

use vstd::prelude::*;
use vstd::arithmetic::power2::{pow2, lemma2_to64};
use vstd::bits::{lemma_u64_shr_is_div, lemma_u64_low_bits_mask_is_mod, low_bits_mask};
use crate::align::{is_pow2, round_up, align_up, align_down, lemma_shl_pow2};

verus! {

/// Size of a cache line in bytes on x86_64.
pub const CACHE_LINE_BYTES: u64 = 64;

/// log2 of `CACHE_LINE_BYTES`: the shift from an address to its line number.
pub const CACHE_LINE_BITS: u64 = 6;

/// A cache line is 64 bytes, a power of two, and `>> 6` and `& 63` split an address.
proof fn lemma_line_size()
    ensures
        is_pow2(64),
        forall|a: u64| #[trigger] (a >> 6u64) == a / 64,
        forall|a: u64| #[trigger] (a & 63u64) == a % 64,
{
    lemma_shl_pow2(6);
    lemma2_to64();
    assert forall|a: u64| #[trigger] (a >> 6u64) == a / 64 by {
        lemma_u64_shr_is_div(a, 6);
    }
    assert forall|a: u64| #[trigger] (a & 63u64) == a % 64 by {
        lemma_u64_low_bits_mask_is_mod(a, 6);
        assert(low_bits_mask(6) == 63);
    }
}

/// `size` rounded up to a multiple of the cache line (wrapping past 2^64).
pub fn cache_align_size(size: u64) -> (r: u64)
    ensures
        r as int == round_up(size, 64) % 0x1_0000_0000_0000_0000,
{
    proof {
        lemma_line_size();
    }
    align_up(size, CACHE_LINE_BYTES)
}

/// The number of the cache line that holds `addr`.
pub fn cache_line_of(addr: u64) -> (r: u64)
    ensures
        r == addr / 64,
{
    proof {
        lemma_line_size();
    }
    addr >> CACHE_LINE_BITS
}

/// The offset of `addr` inside its cache line.
pub fn cache_line_offset(addr: u64) -> (r: u64)
    ensures
        r == addr % 64,
{
    proof {
        lemma_line_size();
    }
    addr & (CACHE_LINE_BYTES - 1)
}

/// `true` if the range `[addr, addr + size)` lies inside one cache line. The range
/// is at most one line long and its last byte `addr + size - 1` must be computable.
pub fn is_cache_line_contained(addr: u64, size: u64) -> (r: bool)
    requires
        size <= 64,
        1 <= addr + size <= u64::MAX,
    ensures
        r == (addr / 64 == (addr + size - 1) / 64),
{
    cache_line_of(addr) == cache_line_of(addr + size - 1)
}

/// How many cache lines the range `[addr, addr + size)` touches.
pub fn cache_lines_spanned(addr: u64, size: u64) -> (r: u64)
    requires
        size == 0 || addr + size <= u64::MAX,
    ensures
        r == (if size == 0 {
            0
        } else {
            (addr + size - 1) / 64 - addr / 64 + 1
        }),
{
    if size == 0 {
        return 0;
    }
    proof {
        vstd::arithmetic::div_mod::lemma_div_is_ordered(addr as int, addr + size - 1, 64);
    }
    cache_line_of(addr + size - 1) - cache_line_of(addr) + 1
}

/// `addr` rounded down to the start of its cache line.
pub fn cache_line_start(addr: u64) -> (r: u64)
    ensures
        r == addr - addr % 64,
{
    proof {
        lemma_line_size();
    }
    align_down(addr, CACHE_LINE_BYTES)
}

/// The start of an address's cache line is its line number times the line size.
pub proof fn lemma_line_start_is_line_times_size(addr: u64)
    ensures
        addr - addr % 64 == (addr / 64) * 64,
{
}

} // verus!
