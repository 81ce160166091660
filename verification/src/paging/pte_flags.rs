//! x86_64 page table entry flag bits.

use vstd::prelude::*;

verus! {

/// Page is present in physical memory.
pub const PRESENT: u64 = 1 << 0;

/// Page is writable.
pub const WRITABLE: u64 = 1 << 1;

/// Page is accessible from user mode.
pub const USER: u64 = 1 << 2;

/// Write-through caching for this page.
pub const WRITE_THROUGH: u64 = 1 << 3;

/// Caching disabled for this page.
pub const CACHE_DISABLE: u64 = 1 << 4;

/// Set by hardware on any access to this page.
pub const ACCESSED: u64 = 1 << 5;

/// Set by hardware on a write to this page.
pub const DIRTY: u64 = 1 << 6;

/// Large page: 2 MiB in a PDE, 1 GiB in a PDPTE.
pub const HUGE_PAGE: u64 = 1 << 7;

/// Global page, kept in the TLB across CR3 writes.
pub const GLOBAL: u64 = 1 << 8;

/// No-execute: instruction fetches from this page fault.
pub const NO_EXECUTE: u64 = 1 << 63;

/// Mask of the three OS-available bits 11:9.
pub const AVAIL_MASK: u64 = 0b111 << 9;

/// Bit position of the OS-available field.
pub const AVAIL_SHIFT: u32 = 9;

/// Physical frame number mask for 4 KiB pages (bits 51:12).
pub const PFN_MASK_4K: u64 = 0x000F_FFFF_FFFF_F000;

/// Physical frame number mask for 2 MiB pages (bits 51:21).
pub const PFN_MASK_2M: u64 = 0x000F_FFFF_FFE0_0000;

/// Physical frame number mask for 1 GiB pages (bits 51:30).
pub const PFN_MASK_1G: u64 = 0x000F_FFFC_0000_0000;

} // verus!
