//! A typed flag-register value and the bit definitions of RFLAGS, CR0, CR4 and EFER.

pub mod rflags;
pub mod cr0;
pub mod cr4;
pub mod efer;

use vstd::prelude::*;

verus! {

/// A raw 64-bit flag register value with named bit operations.
#[derive(Clone, Copy, Debug, PartialEq, Eq, Structural)]
pub struct FlagRegister(pub u64);

impl FlagRegister {
    /// The all-clear register value.
    #[allow(non_snake_case)]
    pub fn ZERO() -> (r: Self)
        ensures
            r.0 == 0,
    {
        FlagRegister(0)
    }

    /// Wrap a raw machine word.
    pub fn from_raw(raw: u64) -> (r: Self)
        ensures
            r.0 == raw,
    {
        FlagRegister(raw)
    }

    /// The raw machine word.
    pub fn raw(self) -> (r: u64)
        ensures
            r == self.0,
    {
        self.0
    }

    /// `true` if every bit of `flag` is set.
    pub fn has(self, flag: u64) -> (r: bool)
        ensures
            r == (self.0 & flag == flag),
    {
        (self.0 & flag) == flag
    }

    /// `true` if any bit of `flags` is set.
    pub fn has_any(self, flags: u64) -> (r: bool)
        ensures
            r == (self.0 & flags != 0),
    {
        (self.0 & flags) != 0
    }

    /// The register with the bits of `flags` set.
    pub fn set(self, flags: u64) -> (r: Self)
        ensures
            r.0 == self.0 | flags,
    {
        FlagRegister(self.0 | flags)
    }

    /// The register with the bits of `flags` cleared.
    pub fn clear(self, flags: u64) -> (r: Self)
        ensures
            r.0 == self.0 & !flags,
    {
        FlagRegister(self.0 & !flags)
    }

    /// The register with the bits of `flags` flipped.
    pub fn toggle(self, flags: u64) -> (r: Self)
        ensures
            r.0 == self.0 ^ flags,
    {
        FlagRegister(self.0 ^ flags)
    }

    /// The register with the bits selected by `mask` taken from `value` (already in
    /// position) and every other bit kept.
    pub fn replace_field(self, mask: u64, value: u64) -> (r: Self)
        ensures
            r.0 == (self.0 & !mask) | (value & mask),
    {
        FlagRegister((self.0 & !mask) | (value & mask))
    }

    /// The register with only the bits of `mask` kept.
    pub fn isolate(self, mask: u64) -> (r: Self)
        ensures
            r.0 == self.0 & mask,
    {
        FlagRegister(self.0 & mask)
    }
}

/// How the flag operations combine.
proof fn lemma_flag_algebra()
    by (bit_vector)
    ensures
        forall|v: u64, f: u64| #[trigger] ((v ^ f) ^ f) == v,
        forall|v: u64, f: u64| (#[trigger] (v | f)) & f == f,
        forall|v: u64, f: u64| f != 0 ==> (#[trigger] (v & !f)) & f != f,
        forall|v: u64, f: u64, g: u64| f & g == 0 ==> ((#[trigger] ((v & !f) & g)) == g) == (v & g == g),
        forall|v: u64, m: u64, x: u64|
            #![trigger ((v & !m) | (x & m))]
            ((v & !m) | (x & m)) & m == x & m && ((v & !m) | (x & m)) & !m == v & !m,
{
}

/// Toggling the same flags twice gives the register back.
pub proof fn lemma_toggle_twice(r: FlagRegister, flags: u64)
    ensures
        (r.0 ^ flags) ^ flags == r.0,
{
    lemma_flag_algebra();
}

/// After setting flags, `has` reports them; after clearing non-empty flags, it does
/// not, and clearing leaves the `has` answer for disjoint flags unchanged.
pub proof fn lemma_set_clear_has(r: FlagRegister, flags: u64, other: u64)
    ensures
        (r.0 | flags) & flags == flags,
        flags != 0 ==> (r.0 & !flags) & flags != flags,
        flags & other == 0 ==> (((r.0 & !flags) & other == other) == (r.0 & other == other)),
{
    lemma_flag_algebra();
}

/// Replacing a field writes exactly the masked bits of the new value and keeps every
/// bit outside the mask.
pub proof fn lemma_replace_field(r: FlagRegister, mask: u64, value: u64)
    ensures
        ((r.0 & !mask) | (value & mask)) & mask == value & mask,
        ((r.0 & !mask) | (value & mask)) & !mask == r.0 & !mask,
{
    lemma_flag_algebra();
}

} // verus!
