//! EFER (MSR 0xC000_0080) bit definitions.

use vstd::prelude::*;

verus! {

/// SYSCALL Enable — enables the SYSCALL/SYSRET fast system-call instructions.
pub const SCE: u64 = 1 << 0;

/// Long Mode Enable — enables IA-32e (64-bit) mode; takes effect when CR0.PG is set.
pub const LME: u64 = 1 << 8;

/// Long Mode Active — set by hardware when long mode is active (read-only).
pub const LMA: u64 = 1 << 10;

/// No-Execute Enable — enables the NX page attribute in PTEs (requires PAE paging).
pub const NXE: u64 = 1 << 11;

/// SVM Enable — enables AMD Secure Virtual Machine extensions (AMD-V).
pub const SVME: u64 = 1 << 12;

/// Long Mode Segment Limit Enable — re-enables segment limit checking in 64-bit mode (AMD).
pub const LMSLE: u64 = 1 << 13;

/// Fast FXSAVE/FXRSTOR — omits saving legacy x87 FPU state in 64-bit mode (AMD).
pub const FFXSR: u64 = 1 << 14;

/// Translation Cache Extension — enables extended TLB tagging (AMD).
pub const TCE: u64 = 1 << 15;

} // verus!
