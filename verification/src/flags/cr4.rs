//! CR4 register bit definitions.

use vstd::prelude::*;

verus! {

/// Virtual-8086 Mode Extensions — enables hardware interrupt/exception handling in V86 mode.
pub const VME: u64 = 1 << 0;

/// Protected-Mode Virtual Interrupts — enables virtual interrupt flag in protected mode.
pub const PVI: u64 = 1 << 1;

/// Time Stamp Disable — when set, RDTSC is restricted to CPL=0.
pub const TSD: u64 = 1 << 2;

/// Debugging Extensions — enables I/O breakpoints via DR4/DR5 and debug extensions.
pub const DE: u64 = 1 << 3;

/// Page Size Extension — enables 4 MiB pages in 32-bit (non-PAE) paging mode.
pub const PSE: u64 = 1 << 4;

/// Physical Address Extension — enables 36-bit physical addressing in 32-bit mode.
pub const PAE: u64 = 1 << 5;

/// Machine Check Enable — enables the machine-check exception (#MC) mechanism.
pub const MCE: u64 = 1 << 6;

/// Page Global Enable — allows pages to be marked global (not flushed on CR3 writes).
pub const PGE: u64 = 1 << 7;

/// Performance Counter Enable — allows RDPMC at any privilege level when set.
pub const PCE: u64 = 1 << 8;

/// OS FXSAVE/FXRSTOR Support — required before using SSE instructions.
pub const OSFXSR: u64 = 1 << 9;

/// OS Unmasked SIMD FP Exception Support — enables #XF exceptions for SSE FP errors.
pub const OSXMMEXCPT: u64 = 1 << 10;

/// User-Mode Instruction Prevention — blocks SGDT/SLDT/SIDT/SMSW/STR at CPL > 0.
pub const UMIP: u64 = 1 << 11;

/// 57-bit Linear Addresses — enables 5-level paging (57-bit virtual address space).
pub const LA57: u64 = 1 << 12;

/// VMX Enable — enables Virtual Machine Extensions (Intel VT-x).
pub const VMXE: u64 = 1 << 13;

/// SMX Enable — enables Safer Mode Extensions (Intel TXT).
pub const SMXE: u64 = 1 << 14;

/// FSGSBASE Enable — allows RDFSBASE/RDGSBASE/WRFSBASE/WRGSBASE at any CPL.
pub const FSGSBASE: u64 = 1 << 16;

/// PCID Enable — enables process-context identifiers to reduce TLB flush overhead.
pub const PCIDE: u64 = 1 << 17;

/// XSAVE Enable — enables XSAVE/XRSTOR and extended processor state management.
pub const OSXSAVE: u64 = 1 << 18;

/// Supervisor Mode Execution Prevention — prevents ring-0 from executing user-mode pages.
pub const SMEP: u64 = 1 << 20;

/// Supervisor Mode Access Prevention — prevents ring-0 from accessing user-mode pages.
pub const SMAP: u64 = 1 << 21;

/// Protection Key Enable — enables user-space memory protection key enforcement.
pub const PKE: u64 = 1 << 22;

/// Control-flow Enforcement Technology — enables shadow stack and indirect branch tracking.
pub const CET: u64 = 1 << 23;

/// Protection Keys for Supervisor — enables supervisor-mode protection key enforcement.
pub const PKS: u64 = 1 << 24;

} // verus!
