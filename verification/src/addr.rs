//! Typed physical and virtual addresses.

use vstd::prelude::*;
use crate::align::{is_pow2, round_up, is_aligned, align_down, align_up, frame_number};
use crate::bits::bit_at;
use vstd::std_specs::ops::{AddSpec, SubSpec};
use crate::paging::{vaddr_pt_index, vaddr_page_offset};

verus! {

/// A 52-bit physical address.
#[derive(Clone, Copy, Debug, PartialEq, Eq, Structural, PartialOrd, Ord, Hash)]
pub struct PhysAddr(u64);

impl View for PhysAddr {
    type V = u64;

    /// The raw address.
    closed spec fn view(&self) -> u64 {
        self.0
    }
}

impl PhysAddr {
    /// The zero address.
    #[allow(non_snake_case)]
    pub fn ZERO() -> (r: Self)
        ensures
            r@ == 0,
    {
        PhysAddr(0)
    }

    /// Wrap an address whose bits 63:52 are clear.
    pub fn new(addr: u64) -> (r: Self)
        requires
            addr < 0x10_0000_0000_0000,
        ensures
            r@ == addr,
    {
        PhysAddr(addr)
    }

    /// Wrap an address, clearing its bits 63:52.
    pub fn new_truncate(addr: u64) -> (r: Self)
        ensures
            r@ == addr % 0x10_0000_0000_0000,
    {
        proof {
            assert(addr & 0x000F_FFFF_FFFF_FFFFu64 == addr % 0x10_0000_0000_0000) by (bit_vector);
        }
        PhysAddr(addr & crate::PHYS_ADDR_MASK)
    }

    /// The raw address.
    pub fn as_u64(self) -> (r: u64)
        ensures
            r == self@,
    {
        self.0
    }

    /// `true` if the address is a multiple of `align`.
    pub fn is_aligned(self, align: u64) -> (r: bool)
        requires
            is_pow2(align),
        ensures
            r == (self@ % align == 0),
    {
        is_aligned(self.0, align)
    }

    /// The address rounded down to a multiple of `align`.
    pub fn align_down(self, align: u64) -> (r: Self)
        requires
            is_pow2(align),
        ensures
            r@ == self@ - self@ % align,
    {
        PhysAddr(align_down(self.0, align))
    }

    /// The address rounded up to a multiple of `align` (wrapping past 2^64).
    pub fn align_up(self, align: u64) -> (r: Self)
        requires
            is_pow2(align),
        ensures
            r@ as int == round_up(self@, align) % 0x1_0000_0000_0000_0000,
    {
        PhysAddr(align_up(self.0, align))
    }

    /// The number of the frame that holds the address.
    pub fn frame_number(self, frame_size: u64) -> (r: u64)
        requires
            is_pow2(frame_size),
        ensures
            r == self@ / frame_size,
    {
        frame_number(self.0, frame_size)
    }

    /// The address plus `rhs`, or `None` when the sum does not fit in 52 bits.
    pub fn checked_add(self, rhs: u64) -> (r: Option<Self>)
        ensures
            r is Some <==> self@ + rhs < 0x10_0000_0000_0000,
            r matches Some(a) ==> a@ == self@ + rhs,
    {
        match self.0.checked_add(rhs) {
            Some(result) => {
                proof {
                    assert((result & !0x000F_FFFF_FFFF_FFFFu64 == 0) == (result
                        < 0x10_0000_0000_0000)) by (bit_vector);
                }
                if result & !crate::PHYS_ADDR_MASK == 0 {
                    Some(PhysAddr(result))
                } else {
                    None
                }
            },
            None => None,
        }
    }
}

/// What `+` and `-` compute on physical addresses: addition wraps modulo 2^64 and
/// then clears bits 63:52; subtraction must not go below zero.
pub proof fn lemma_phys_arith(a: PhysAddr, b: PhysAddr, rhs: u64)
    ensures
        a.add_spec(rhs)@ == ((a@ + rhs) % 0x1_0000_0000_0000_0000) % 0x10_0000_0000_0000,
        a.sub_req(rhs) == (a@ >= rhs),
        a@ >= rhs ==> a.sub_spec(rhs)@ == a@ - rhs,
        a.sub_req(b) == (a@ >= b@),
        a@ >= b@ ==> a.sub_spec(b) == a@ - b@,
{
}

/// `a + rhs` wraps modulo 2^64 and then clears bits 63:52.
impl core::ops::Add<u64> for PhysAddr {
    type Output = PhysAddr;

    fn add(self, rhs: u64) -> (r: PhysAddr) {
        PhysAddr::new_truncate(self.0.wrapping_add(rhs))
    }
}

impl vstd::std_specs::ops::AddSpecImpl<u64> for PhysAddr {
    open spec fn obeys_add_spec() -> bool {
        true
    }

    open spec fn add_req(self, rhs: u64) -> bool {
        true
    }

    closed spec fn add_spec(self, rhs: u64) -> PhysAddr {
        PhysAddr((((self.0 + rhs) % 0x1_0000_0000_0000_0000) % 0x10_0000_0000_0000) as u64)
    }
}

/// `a - rhs` must not go below zero.
impl core::ops::Sub<u64> for PhysAddr {
    type Output = PhysAddr;

    fn sub(self, rhs: u64) -> (r: PhysAddr) {
        PhysAddr(self.0 - rhs)
    }
}

impl vstd::std_specs::ops::SubSpecImpl<u64> for PhysAddr {
    open spec fn obeys_sub_spec() -> bool {
        true
    }

    closed spec fn sub_req(self, rhs: u64) -> bool {
        self.0 >= rhs
    }

    closed spec fn sub_spec(self, rhs: u64) -> PhysAddr {
        PhysAddr((self.0 - rhs) as u64)
    }
}

/// `a - b` is the distance from `b` up to `a`, which must not be negative.
impl core::ops::Sub<PhysAddr> for PhysAddr {
    type Output = u64;

    fn sub(self, rhs: PhysAddr) -> (r: u64) {
        self.0 - rhs.0
    }
}

impl vstd::std_specs::ops::SubSpecImpl<PhysAddr> for PhysAddr {
    open spec fn obeys_sub_spec() -> bool {
        true
    }

    closed spec fn sub_req(self, rhs: PhysAddr) -> bool {
        self.0 >= rhs.0
    }

    closed spec fn sub_spec(self, rhs: PhysAddr) -> u64 {
        (self.0 - rhs.0) as u64
    }
}

/// `addr` is canonical for 48-bit virtual addressing: bits 63:47 all equal.
pub open spec fn is_canonical_spec(addr: u64) -> bool {
    addr < 0x0000_8000_0000_0000 || addr >= 0xFFFF_8000_0000_0000
}

/// `addr` with bit 47 copied into bits 63:48.
pub open spec fn sign_extend_47(addr: u64) -> u64 {
    if bit_at(addr, 47) {
        addr | 0xFFFF_0000_0000_0000
    } else {
        addr & 0x0000_FFFF_FFFF_FFFF
    }
}

/// Canonical addresses and sign extension, bit by bit.
proof fn lemma_canonical_bits()
    by (bit_vector)
    ensures
        forall|addr: u64|
            #![trigger (addr >> 47u64)]
            (addr >> 47u64 == 0 || addr >> 47u64 == (0xffff_ffff_ffff_ffffu64 >> 47u64)) == (addr
                < 0x0000_8000_0000_0000 || addr >= 0xFFFF_8000_0000_0000),
        forall|addr: u64|
            #[trigger] ((((addr << 16u64) as i64) >> 16u64) as u64) == if (addr >> 47u64) & 1u64
                == 1u64 {
                addr | 0xFFFF_0000_0000_0000u64
            } else {
                addr & 0x0000_FFFF_FFFF_FFFFu64
            },
        forall|addr: u64|
            #![trigger sign_extend_47(addr)]
            is_canonical_spec(sign_extend_47(addr)) && sign_extend_47(addr) % 0x1_0000_0000_0000
                == addr % 0x1_0000_0000_0000 && (is_canonical_spec(addr) ==> sign_extend_47(addr)
                == addr),
{
}

/// A canonical 48-bit virtual address (bits 63:48 copy bit 47) when built with
/// `new`, `new_truncate` or `new_unchecked`.
#[derive(Clone, Copy, Debug, PartialEq, Eq, Structural, PartialOrd, Ord, Hash)]
pub struct VirtAddr(u64);

impl View for VirtAddr {
    type V = u64;

    /// The raw address.
    closed spec fn view(&self) -> u64 {
        self.0
    }
}

impl VirtAddr {
    /// The zero address.
    #[allow(non_snake_case)]
    pub fn ZERO() -> (r: Self)
        ensures
            r@ == 0,
    {
        VirtAddr(0)
    }

    /// `true` if `addr` is canonical.
    pub fn is_canonical(addr: u64) -> (r: bool)
        ensures
            r == is_canonical_spec(addr),
    {
        proof {
            lemma_canonical_bits();
        }
        let top = addr >> 47;
        top == 0 || top == (u64::MAX >> 47)
    }

    /// Wrap `addr`, or `None` when it is not canonical.
    pub fn new(addr: u64) -> (r: Option<Self>)
        ensures
            r is Some <==> is_canonical_spec(addr),
            r matches Some(v) ==> v@ == addr,
    {
        if Self::is_canonical(addr) {
            Some(VirtAddr(addr))
        } else {
            None
        }
    }

    /// Wrap `addr` after copying its bit 47 into bits 63:48.
    pub fn new_truncate(addr: u64) -> (r: Self)
        ensures
            r@ == sign_extend_47(addr),
    {
        proof {
            lemma_canonical_bits();
        }
        VirtAddr(((addr << 16) as i64 >> 16) as u64)
    }

    /// Wrap an address already known to be canonical.
    pub fn new_unchecked(addr: u64) -> (r: Self)
        requires
            is_canonical_spec(addr),
        ensures
            r@ == addr,
    {
        VirtAddr(addr)
    }

    /// The raw address.
    pub fn as_u64(self) -> (r: u64)
        ensures
            r == self@,
    {
        self.0
    }

    /// `true` if the address is a multiple of `align`.
    pub fn is_aligned(self, align: u64) -> (r: bool)
        requires
            is_pow2(align),
        ensures
            r == (self@ % align == 0),
    {
        is_aligned(self.0, align)
    }

    /// The address rounded down to a multiple of `align`.
    pub fn align_down(self, align: u64) -> (r: Self)
        requires
            is_pow2(align),
        ensures
            r@ == self@ - self@ % align,
    {
        VirtAddr(align_down(self.0, align))
    }

    /// The address rounded up to a multiple of `align` (wrapping past 2^64).
    pub fn align_up(self, align: u64) -> (r: Self)
        requires
            is_pow2(align),
        ensures
            r@ as int == round_up(self@, align) % 0x1_0000_0000_0000_0000,
    {
        VirtAddr(align_up(self.0, align))
    }

    /// The page table index at `level` (1 = PT .. 4 = PML4).
    pub fn pt_index(self, level: u32) -> (r: u64)
        requires
            1 <= level <= 4,
        ensures
            r == (self@ >> (12 + (level - 1) * 9) as u64) & 0x1FF,
    {
        vaddr_pt_index(self.0, level)
    }

    /// The offset inside a page of size `frame_size`.
    pub fn page_offset(self, frame_size: u64) -> (r: u64)
        requires
            is_pow2(frame_size),
        ensures
            r == self@ % frame_size,
    {
        vaddr_page_offset(self.0, frame_size)
    }
}

/// Sign extension always gives a canonical address that agrees with its input in
/// bits 47:0, and leaves canonical addresses as they are.
pub proof fn lemma_sign_extend_canonical(addr: u64)
    ensures
        is_canonical_spec(sign_extend_47(addr)),
        sign_extend_47(addr) % 0x1_0000_0000_0000 == addr % 0x1_0000_0000_0000,
        is_canonical_spec(addr) ==> sign_extend_47(addr) == addr,
{
    lemma_canonical_bits();
}

/// `v + rhs` wraps modulo 2^64 and sign-extends bit 47 of the sum.
impl core::ops::Add<u64> for VirtAddr {
    type Output = VirtAddr;

    fn add(self, rhs: u64) -> (r: VirtAddr) {
        VirtAddr::new_truncate(self.0.wrapping_add(rhs))
    }
}

impl vstd::std_specs::ops::AddSpecImpl<u64> for VirtAddr {
    open spec fn obeys_add_spec() -> bool {
        true
    }

    open spec fn add_req(self, rhs: u64) -> bool {
        true
    }

    closed spec fn add_spec(self, rhs: u64) -> VirtAddr {
        VirtAddr(sign_extend_47(((self.0 + rhs) % 0x1_0000_0000_0000_0000) as u64))
    }
}

/// `v - rhs` wraps modulo 2^64 and sign-extends bit 47 of the difference.
impl core::ops::Sub<u64> for VirtAddr {
    type Output = VirtAddr;

    fn sub(self, rhs: u64) -> (r: VirtAddr) {
        VirtAddr::new_truncate(self.0.wrapping_sub(rhs))
    }
}

impl vstd::std_specs::ops::SubSpecImpl<u64> for VirtAddr {
    open spec fn obeys_sub_spec() -> bool {
        true
    }

    open spec fn sub_req(self, rhs: u64) -> bool {
        true
    }

    closed spec fn sub_spec(self, rhs: u64) -> VirtAddr {
        VirtAddr(sign_extend_47(((self.0 - rhs) % 0x1_0000_0000_0000_0000) as u64))
    }
}

/// `a - b` is the distance from `b` to `a`, modulo 2^64.
impl core::ops::Sub<VirtAddr> for VirtAddr {
    type Output = u64;

    fn sub(self, rhs: VirtAddr) -> (r: u64) {
        self.0.wrapping_sub(rhs.0)
    }
}

impl vstd::std_specs::ops::SubSpecImpl<VirtAddr> for VirtAddr {
    open spec fn obeys_sub_spec() -> bool {
        true
    }

    open spec fn sub_req(self, rhs: VirtAddr) -> bool {
        true
    }

    closed spec fn sub_spec(self, rhs: VirtAddr) -> u64 {
        ((self.0 - rhs.0) % 0x1_0000_0000_0000_0000) as u64
    }
}

/// What `+` and `-` compute on virtual addresses: both wrap modulo 2^64, and the
/// address results are sign-extended from bit 47, so they are canonical.
pub proof fn lemma_virt_arith(a: VirtAddr, b: VirtAddr, rhs: u64)
    ensures
        a.add_spec(rhs)@ == sign_extend_47(((a@ + rhs) % 0x1_0000_0000_0000_0000) as u64),
        a.sub_spec(rhs)@ == sign_extend_47(((a@ - rhs) % 0x1_0000_0000_0000_0000) as u64),
        a.sub_spec(b) == ((a@ - b@) % 0x1_0000_0000_0000_0000) as u64,
        is_canonical_spec(a.add_spec(rhs)@),
        is_canonical_spec(a.sub_spec(rhs)@),
{
    lemma_canonical_bits();
}

} // verus!
