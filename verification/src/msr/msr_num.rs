//! Addresses of the model-specific registers used by a kernel.

use vstd::prelude::*;

verus! {

/// Extended Feature Enable Register.
pub const EFER: u32 = 0xC000_0080;

/// APIC base address and global enable.
pub const IA32_APIC_BASE: u32 = 0x0000_001B;

/// Page Attribute Table.
pub const IA32_PAT: u32 = 0x0000_0277;

/// FS segment base address.
pub const FS_BASE: u32 = 0xC000_0100;

/// GS segment base address.
pub const GS_BASE: u32 = 0xC000_0101;

/// Kernel GS base, swapped into GS by `SWAPGS`.
pub const KERNEL_GS_BASE: u32 = 0xC000_0102;

/// `SYSCALL` target RIP for 64-bit mode.
pub const IA32_LSTAR: u32 = 0xC000_0082;

/// `SYSCALL` / `SYSRET` segment selectors.
pub const IA32_STAR: u32 = 0xC000_0081;

/// `SYSCALL` RFLAGS mask.
pub const IA32_FMASK: u32 = 0xC000_0084;

} // verus!
