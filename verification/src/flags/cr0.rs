//! CR0 register bit definitions.

use vstd::prelude::*;

verus! {

/// Protection Enable — switches the CPU from real mode to protected mode.
pub const PE: u64 = 1 << 0;

/// Monitor Coprocessor — controls WAIT/FWAIT interaction with the TS flag.
pub const MP: u64 = 1 << 1;

/// Emulation — when set, x87 FPU instructions raise #NM (no FPU present).
pub const EM: u64 = 1 << 2;

/// Task Switched — set by hardware on task switch; triggers #NM on x87/SSE use.
pub const TS: u64 = 1 << 3;

/// Extension Type — reads as 1 on all modern CPUs (80387-compatible coprocessor).
pub const ET: u64 = 1 << 4;

/// Numeric Error — enables internal x87 FPU error reporting via IRQ 13.
pub const NE: u64 = 1 << 5;

/// Write Protect — when set, ring-0 code cannot write to read-only user pages.
pub const WP: u64 = 1 << 16;

/// Alignment Mask — enables alignment-fault exceptions when RFLAGS.AC is also set.
pub const AM: u64 = 1 << 18;

/// Not Write-Through — when set, disables write-through caching globally (deprecated).
pub const NW: u64 = 1 << 29;

/// Cache Disable — when set, disables the processor's memory cache globally.
pub const CD: u64 = 1 << 30;

/// Paging Enable — activates paging; CR0.PE must also be set.
pub const PG: u64 = 1 << 31;

} // verus!
