//! Page table entry encoding and virtual address index extraction.

pub mod pte_flags;

use vstd::prelude::*;
use crate::align::{is_pow2, log2_of, frame_offset, lemma_pow2_mask};
use crate::bits::bit_at;

verus! {

/// The address bits of an entry for a given frame size: bits 51 down to log2 of the
/// frame size.
pub open spec fn pfn_bits(frame_size: u64) -> u64 {
    !(((frame_size - 1) as u64) | 0xFFF0_0000_0000_0000u64)
}

/// Entry facts, bit by bit.
proof fn lemma_entry_bits()
    by (bit_vector)
    ensures
        forall|e: u64| (#[trigger] (e & (1u64 << 0u64)) != 0) == ((e >> 0u64) & 1u64 == 1u64),
        forall|e: u64| (#[trigger] (e & (1u64 << 7u64)) != 0) == ((e >> 7u64) & 1u64 == 1u64),
        forall|e: u64| #[trigger] ((e & (0b111u64 << 9u64)) >> 9u64) == (e >> 9u64) & 7,
        forall|e: u64, b: u64|
            b <= 7 ==> #[trigger] ((e & !(0b111u64 << 9u64)) | ((b << 9u64) & (0b111u64 << 9u64)))
                == (e & !(0b111u64 << 9u64)) | (b << 9u64),
        forall|e: u64, b: u64|
            b <= 7 ==> (#[trigger] ((e & !(0b111u64 << 9u64)) | (b << 9u64)) >> 9u64) & 7 == b,
        forall|e: u64, b: u64, k: u64|
            12 <= k && k < 52 && b <= 7 ==> #[trigger] (((e & !(0b111u64 << 9u64)) | (b << 9u64))
                & !((((1u64 << k) - 1) as u64) | 0xFFF0_0000_0000_0000u64)) == e & !((((1u64 << k)
                - 1) as u64) | 0xFFF0_0000_0000_0000u64),
        forall|e: u64, f: u64, m: u64| f & m == 0 ==> #[trigger] ((e | f) & m) == e & m,
        forall|e: u64, f: u64, m: u64| f & m == 0 ==> #[trigger] ((e & !f) & m) == e & m,
        forall|phys: u64, flags: u64, k: u64|
            k < 64 && (phys & (((1u64 << k) - 1) as u64)) == 0 && phys < 0x10_0000_0000_0000
                && flags & !((((1u64 << k) - 1) as u64) | 0xFFF0_0000_0000_0000u64) == 0 ==> #[trigger] ((
            phys | flags) & !((((1u64 << k) - 1) as u64) | 0xFFF0_0000_0000_0000u64)) == phys,
{
}

/// Build an entry from a frame-aligned physical address and flags. `PRESENT` is not
/// added: the caller sets it in `flags`.
pub fn pte_encode(phys_addr: u64, frame_size: u64, flags: u64) -> (r: u64)
    requires
        is_pow2(frame_size),
        phys_addr % frame_size == 0,
    ensures
        r == phys_addr | flags,
{
    phys_addr | flags
}

/// The physical base address in an entry: bits 51 down to log2 of `frame_size`.
pub fn pte_phys_addr(entry: u64, frame_size: u64) -> (r: u64)
    requires
        is_pow2(frame_size),
    ensures
        r == entry & pfn_bits(frame_size),
{
    proof {
        lemma_pow2_mask(frame_size);
    }
    entry & !((frame_size - 1) | 0xFFF0_0000_0000_0000)
}

/// `true` if the entry's present bit (0) is set.
pub fn pte_is_present(entry: u64) -> (r: bool)
    ensures
        r == bit_at(entry, 0),
{
    proof {
        lemma_entry_bits();
    }
    entry & pte_flags::PRESENT != 0
}

/// `true` if the entry's huge-page bit (7) is set.
pub fn pte_is_huge(entry: u64) -> (r: bool)
    ensures
        r == bit_at(entry, 7),
{
    proof {
        lemma_entry_bits();
    }
    entry & pte_flags::HUGE_PAGE != 0
}

/// The entry with the bits of `flags` set.
pub fn pte_set_flags(entry: u64, flags: u64) -> (r: u64)
    ensures
        r == entry | flags,
{
    entry | flags
}

/// The entry with the bits of `flags` cleared.
pub fn pte_clear_flags(entry: u64, flags: u64) -> (r: u64)
    ensures
        r == entry & !flags,
{
    entry & !flags
}

/// The OS-available bits 11:9 of an entry.
pub fn pte_avail_bits(entry: u64) -> (r: u64)
    ensures
        r == (entry >> 9) & 7,
{
    proof {
        lemma_entry_bits();
    }
    (entry & pte_flags::AVAIL_MASK) >> pte_flags::AVAIL_SHIFT
}

/// The entry with bits 11:9 replaced by `bits`.
pub fn pte_set_avail_bits(entry: u64, bits: u64) -> (r: u64)
    requires
        bits <= 7,
    ensures
        r == (entry & !(0b111u64 << 9)) | (bits << 9),
{
    proof {
        lemma_entry_bits();
    }
    (entry & !pte_flags::AVAIL_MASK) | ((bits << pte_flags::AVAIL_SHIFT) & pte_flags::AVAIL_MASK)
}

/// The page table index of `vaddr` at `level` (1 = PT .. 4 = PML4): 9 bits starting
/// at bit `12 + 9 * (level - 1)`.
pub fn vaddr_pt_index(vaddr: u64, level: u32) -> (r: u64)
    requires
        1 <= level <= 4,
    ensures
        r == (vaddr >> (12 + (level - 1) * 9) as u64) & 0x1FF,
        r < 512,
{
    let shift = 12 + (level - 1) * 9;
    proof {
        let v = vaddr;
        let s = shift as u64;
        assert((v >> s) & 0x1FF < 512) by (bit_vector);
    }
    (vaddr >> shift) & 0x1FF
}

/// The offset of `vaddr` inside its frame.
pub fn vaddr_page_offset(vaddr: u64, frame_size: u64) -> (r: u64)
    requires
        is_pow2(frame_size),
    ensures
        r == vaddr % frame_size,
{
    frame_offset(vaddr, frame_size)
}

/// Decoding an encoded entry gives back the physical address, provided the address
/// is frame-aligned, below 2^52, and the flags lie outside the address bits.
pub proof fn lemma_pte_roundtrip(phys_addr: u64, frame_size: u64, flags: u64)
    requires
        is_pow2(frame_size),
        phys_addr % frame_size == 0,
        phys_addr < 0x10_0000_0000_0000,
        flags & pfn_bits(frame_size) == 0,
    ensures
        (phys_addr | flags) & pfn_bits(frame_size) == phys_addr,
{
    lemma_pow2_mask(frame_size);
    lemma_entry_bits();
    let k = log2_of(frame_size);
    assert(phys_addr & ((frame_size - 1) as u64) == 0);
}

/// Setting or clearing flags that lie outside the address bits leaves the physical
/// address of the entry as it was.
pub proof fn lemma_flags_keep_phys_addr(entry: u64, flags: u64, frame_size: u64)
    requires
        is_pow2(frame_size),
        flags & pfn_bits(frame_size) == 0,
    ensures
        (entry | flags) & pfn_bits(frame_size) == entry & pfn_bits(frame_size),
        (entry & !flags) & pfn_bits(frame_size) == entry & pfn_bits(frame_size),
{
    lemma_entry_bits();
    let m = pfn_bits(frame_size);
    assert((entry | flags) & m == entry & m && (entry & !flags) & m == entry & m);
}

/// Writing the OS-available bits and reading them back gives the bits written, and
/// leaves the address bits of any frame size of at least 4 KiB as they were.
pub proof fn lemma_avail_bits_roundtrip(entry: u64, bits: u64, frame_size: u64)
    requires
        bits <= 7,
        is_pow2(frame_size),
        frame_size >= 0x1000,
        frame_size < 0x10_0000_0000_0000,
    ensures
        ({
            let e = (entry & !(0b111u64 << 9)) | (bits << 9);
            &&& (e >> 9) & 7 == bits
            &&& e & pfn_bits(frame_size) == entry & pfn_bits(frame_size)
        }),
{
    lemma_pow2_mask(frame_size);
    lemma_entry_bits();
    let k = log2_of(frame_size);
    assert(12 <= k < 52) by (bit_vector)
        requires
            frame_size == 1u64 << k,
            k < 64,
            frame_size >= 0x1000,
            frame_size < 0x10_0000_0000_0000,
    ;
}

/// The address bits of an entry are exactly bits `log2(frame_size)` through 51: the
/// frame offset below them and bits 63:52 (flags such as NX) are never taken as
/// part of the physical address.
pub proof fn lemma_pfn_bits(frame_size: u64, j: u64)
    requires
        is_pow2(frame_size),
        j < 64,
    ensures
        bit_at(pfn_bits(frame_size), j) == (log2_of(frame_size) <= j && j < 52),
{
    lemma_pow2_mask(frame_size);
    let k = log2_of(frame_size);
    assert(((!((((1u64 << k) - 1) as u64) | 0xFFF0_0000_0000_0000u64) >> j) & 1u64 == 1u64) == (k
        <= j && j < 52)) by (bit_vector)
        requires
            k < 64,
            j < 64,
    ;
    assert(frame_size == 1u64 << k);
}

} // verus!
