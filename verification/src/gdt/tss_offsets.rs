//! Byte offsets within the x86_64 Task State Segment.

use vstd::prelude::*;

verus! {

/// Offset of RSP0 (ring-0 stack pointer).
pub const RSP0: usize = 4;

/// Offset of RSP1 (ring-1 stack pointer).
pub const RSP1: usize = 12;

/// Offset of RSP2 (ring-2 stack pointer).
pub const RSP2: usize = 20;

/// Interrupt Stack Table entry 1.
pub const IST1: usize = 36;

/// Interrupt Stack Table entry 2.
pub const IST2: usize = 44;

/// Interrupt Stack Table entry 3.
pub const IST3: usize = 52;

/// Interrupt Stack Table entry 4.
pub const IST4: usize = 60;

/// Interrupt Stack Table entry 5.
pub const IST5: usize = 68;

/// Interrupt Stack Table entry 6.
pub const IST6: usize = 76;

/// Interrupt Stack Table entry 7.
pub const IST7: usize = 84;

/// Offset of the 16-bit I/O Permission Bitmap base address field.
pub const IOPB_BASE: usize = 102;

/// Minimum TSS size in bytes.
pub const SIZE: usize = 104;

} // verus!
