//! Bitwise primitives for x86_64 kernel code, with their behaviour stated and proved.

pub mod addr;
pub mod align;
pub mod bits;
pub mod bitmap;
pub mod cache;
pub mod cpuid;
pub mod dma;
pub mod endian;
pub mod flags;
pub mod gdt;
pub mod mmio;
pub mod msr;
pub mod paging;
pub mod pio;

use vstd::prelude::*;

verus! {

/// Standard 4 KiB page size.
pub const PAGE_SIZE_4K: u64 = 0x0000_1000;

/// 2 MiB huge page size.
pub const PAGE_SIZE_2M: u64 = 0x0020_0000;

/// 1 GiB gigantic page size.
pub const PAGE_SIZE_1G: u64 = 0x4000_0000;

/// x86_64 physical address bits in use (bits 63:52 reserved).
pub const PHYS_ADDR_BITS: u32 = 52;

/// Mask for the valid physical address bits 51:0.
pub const PHYS_ADDR_MASK: u64 = 0x000F_FFFF_FFFF_FFFF;

/// Canonical virtual address mask for 48-bit addressing (bits 47:0).
pub const CANONICAL_ADDR_MASK_48: u64 = 0x0000_FFFF_FFFF_FFFF;

} // verus!
