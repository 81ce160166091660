//! RFLAGS register bit definitions.

use vstd::prelude::*;

verus! {

/// Carry Flag — set by arithmetic that produces an unsigned overflow.
pub const CF: u64 = 1 << 0;

/// Parity Flag — set if the low byte of the result has even parity.
pub const PF: u64 = 1 << 2;

/// Auxiliary Carry Flag — carry out of bit 3; used by BCD instructions.
pub const AF: u64 = 1 << 4;

/// Zero Flag — set if the result is zero.
pub const ZF: u64 = 1 << 6;

/// Sign Flag — copy of the most significant bit of the result.
pub const SF: u64 = 1 << 7;

/// Trap Flag — single-step mode; raises a debug exception after each instruction.
pub const TF: u64 = 1 << 8;

/// Interrupt Enable Flag — when set, maskable hardware interrupts are acknowledged.
pub const IF: u64 = 1 << 9;

/// Direction Flag — controls string instruction direction (0 = increment, 1 = decrement).
pub const DF: u64 = 1 << 10;

/// Overflow Flag — set when signed arithmetic overflows.
pub const OF: u64 = 1 << 11;

/// I/O Privilege Level — 2-bit field (bits 13:12); minimum CPL required for I/O instructions.
pub const IOPL: u64 = 3 << 12;

/// Nested Task — set when a hardware task switch links the current task to a prior one.
pub const NT: u64 = 1 << 14;

/// Resume Flag — suppresses debug faults on the immediately following instruction.
pub const RF: u64 = 1 << 16;

/// Virtual-8086 Mode — enables V86 mode when set from protected mode.
pub const VM: u64 = 1 << 17;

/// Alignment Check — enables alignment-fault checking when CR0.AM is also set.
pub const AC: u64 = 1 << 18;

/// Virtual Interrupt Flag — virtual copy of IF; used with virtual interrupt delivery.
pub const VIF: u64 = 1 << 19;

/// Virtual Interrupt Pending — set by software to signal a pending virtual interrupt.
pub const VIP: u64 = 1 << 20;

/// CPUID Toggle — if software can toggle this bit, the CPUID instruction is supported.
pub const ID: u64 = 1 << 21;

} // verus!
