//! Model-specific register numbers and the split of a 64-bit MSR value into the
//! EDX:EAX halves that `RDMSR` and `WRMSR` use.

pub mod msr_num;

use vstd::prelude::*;

verus! {

/// The 64-bit value of the halves `edx:eax`.
pub fn msr_value_from_halves(eax: u32, edx: u32) -> (r: u64)
    ensures
        r == edx as int * 0x1_0000_0000 + eax as int,
{
    proof {
        assert(((edx as u64) << 32u64) | (eax as u64) == edx as int * 0x1_0000_0000 + eax as int)
            by (bit_vector);
    }
    ((edx as u64) << 32) | (eax as u64)
}

/// The halves `(eax, edx)` of a 64-bit value: its low and high 32 bits.
pub fn msr_value_to_halves(value: u64) -> (r: (u32, u32))
    ensures
        r.0 == value % 0x1_0000_0000,
        r.1 == value / 0x1_0000_0000,
{
    proof {
        assert((value as u32) == value % 0x1_0000_0000 && ((value >> 32u64) as u32) == value
            / 0x1_0000_0000) by (bit_vector);
    }
    (value as u32, (value >> 32) as u32)
}

/// Splitting a value into halves and joining them gives the value back.
pub proof fn lemma_halves_roundtrip(value: u64)
    ensures
        (value / 0x1_0000_0000) * 0x1_0000_0000 + value % 0x1_0000_0000 == value,
{
}

} // verus!
