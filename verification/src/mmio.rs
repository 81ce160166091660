//! Memory-mapped register blocks and the read-modify-write values written to
//! device registers.

use vstd::prelude::*;

verus! {

/// A block of device registers at `base + offset`.
pub struct MmioBlock {
    base: u64,
}

impl View for MmioBlock {
    type V = u64;

    /// The block's base address.
    closed spec fn view(&self) -> u64 {
        self.base
    }
}

impl MmioBlock {
    /// A register block anchored at `base`.
    pub fn new(base: u64) -> (r: Self)
        ensures
            r@ == base,
    {
        Self { base }
    }

    /// The address of the register at `offset`, or `None` when `base + offset`
    /// overflows.
    pub fn register_addr(&self, offset: u64) -> (r: Option<u64>)
        ensures
            r is Some <==> self@ + offset <= u64::MAX,
            r matches Some(a) ==> a == self@ + offset,
    {
        self.base.checked_add(offset)
    }
}

/// The value written back when setting the bits of `mask` in a 32-bit register.
pub fn set_bits32(current: u32, mask: u32) -> (r: u32)
    ensures
        r == current | mask,
{
    current | mask
}

/// The value written back when clearing the bits of `mask` in a 32-bit register.
pub fn clear_bits32(current: u32, mask: u32) -> (r: u32)
    ensures
        r == current & !mask,
{
    current & !mask
}

/// The value written back when replacing the field `mask` of a 32-bit register with
/// the (already positioned) `value`.
pub fn update_field32(current: u32, mask: u32, value: u32) -> (r: u32)
    ensures
        r == (current & !mask) | (value & mask),
{
    (current & !mask) | (value & mask)
}

/// The value written back when setting the bits of `mask` in a 64-bit register.
pub fn set_bits64(current: u64, mask: u64) -> (r: u64)
    ensures
        r == current | mask,
{
    current | mask
}

/// The value written back when clearing the bits of `mask` in a 64-bit register.
pub fn clear_bits64(current: u64, mask: u64) -> (r: u64)
    ensures
        r == current & !mask,
{
    current & !mask
}

} // verus!
