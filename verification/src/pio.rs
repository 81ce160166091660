//! The values written back by read-modify-write updates of 8-bit I/O ports.

use vstd::prelude::*;

verus! {

/// The value written back when setting the bits of `mask` in an 8-bit port register.
pub fn set_bits8(current: u8, mask: u8) -> (r: u8)
    ensures
        r == current | mask,
{
    current | mask
}

/// The value written back when clearing the bits of `mask` in an 8-bit port register.
pub fn clear_bits8(current: u8, mask: u8) -> (r: u8)
    ensures
        r == current & !mask,
{
    current & !mask
}

} // verus!
