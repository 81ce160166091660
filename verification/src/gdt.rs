//! x86_64 descriptor encoding: segment selectors, GDT segment descriptors, TSS
//! descriptors and IDT gates.

pub mod tss_offsets;

use vstd::prelude::*;
use crate::bits::{bit_at, low_mask, field_extract, field_insert, bit_field_set, bit_field_get, bit_test};

verus! {

/// A 16-bit segment selector: `index[15:3] | TI[2] | RPL[1:0]`.
#[derive(Clone, Copy, Debug, PartialEq, Eq, Structural)]
pub struct SegmentSelector(pub u16);

impl SegmentSelector {
    /// The null selector (index 0, GDT, RPL 0).
    #[allow(non_snake_case)]
    pub fn NULL() -> (r: Self)
        ensures
            r.0 == 0,
    {
        SegmentSelector(0)
    }

    /// Encode a selector; `index` keeps its low 13 bits.
    pub fn new(index: u16, rpl: u8, ldt: bool) -> (r: Self)
        requires
            rpl <= 3,
        ensures
            r.0 == (index as int * 8) % 0x1_0000 + (if ldt {
                4int
            } else {
                0
            }) + rpl,
    {
        let raw = (index << 3) | ((ldt as u16) << 2) | (rpl as u16 & 0x3);
        proof {
            let l = ldt as u16;
            let rp = rpl as u16;
            assert(raw == (index * 8) % 0x1_0000 + l * 4 + rp) by (bit_vector)
                requires
                    raw == ((index << 3) | (l << 2) | (rp & 3)),
                    l <= 1,
                    rp <= 3,
            ;
        }
        SegmentSelector(raw)
    }

    /// The descriptor index (bits 15:3).
    pub fn index(self) -> (r: u16)
        ensures
            r == self.0 / 8,
    {
        proof {
            lemma_selector_bits();
        }
        self.0 >> 3
    }

    /// The requested privilege level (bits 1:0).
    pub fn rpl(self) -> (r: u8)
        ensures
            r == self.0 % 4,
    {
        proof {
            lemma_selector_bits();
        }
        (self.0 & 0x3) as u8
    }

    /// `true` if the selector refers to the LDT (bit 2).
    pub fn is_ldt(self) -> (r: bool)
        ensures
            r == ((self.0 / 4) % 2 == 1),
    {
        proof {
            lemma_selector_bits();
        }
        self.0 & 0x4 != 0
    }
}

/// The selector's fields as arithmetic on its 16 bits.
proof fn lemma_selector_bits()
    by (bit_vector)
    ensures
        forall|v: u16| #[trigger] (v >> 3u16) == v / 8u16,
        forall|v: u16| #[trigger] (v & 3u16) == v % 4u16,
        forall|v: u16| (#[trigger] (v & 4u16) != 0u16) == ((v / 4u16) % 2u16 == 1u16),
{
}


/// An 8-byte GDT segment descriptor.
#[derive(Clone, Copy, Debug, PartialEq, Eq, Structural)]
pub struct GdtDescriptor(pub u64);

/// The base address of a segment descriptor: bits 31:16, 39:32 and 63:56.
pub open spec fn gdt_base_of(raw: u64) -> u64 {
    ((raw >> 16) & 0xFFFF) | (((raw >> 32) & 0xFF) << 16) | (((raw >> 56) & 0xFF) << 24)
}

/// The 20-bit limit of a segment descriptor: bits 51:48 above bits 15:0.
pub open spec fn gdt_limit_of(raw: u64) -> u64 {
    (raw & 0xFFFF) | (((raw >> 48) & 0xF) << 16)
}

/// A flat 64-bit code descriptor with the given privilege level: limit 0xFFFFF,
/// type 0b1010 (code, readable), S, P, L and G set.
pub open spec fn code64_layout(dpl: u64) -> u64 {
    0x00AF_9A00_0000_FFFFu64 | (dpl << 45)
}

/// The fields written for a 64-bit code descriptor, in the order they are written.
spec fn code64_fields(dpl: u64) -> u64 {
    field_insert(
        field_insert(
            field_insert(
                field_insert(
                    field_insert(
                        field_insert(
                            field_insert(field_insert(0, 15, 0, 0xFFFF), 43, 40, 0b1010),
                            44,
                            44,
                            1,
                        ),
                        46,
                        45,
                        dpl,
                    ),
                    47,
                    47,
                    1,
                ),
                51,
                48,
                0xF,
            ),
            53,
            53,
            1,
        ),
        55,
        55,
        1,
    )
}

/// The fields written for a 64-bit data descriptor, in the order they are written.
spec fn data64_fields() -> u64 {
    field_insert(
        field_insert(
            field_insert(
                field_insert(
                    field_insert(field_insert(0, 15, 0, 0xFFFF), 43, 40, 0b0010),
                    44,
                    44,
                    1,
                ),
                47,
                47,
                1,
            ),
            51,
            48,
            0xF,
        ),
        55,
        55,
        1,
    )
}

/// What the descriptor constructors compute, as bit layouts.
proof fn lemma_descriptor_encodings()
    by (bit_vector)
    ensures
        forall|dpl: u64| dpl <= 3 ==> #[trigger] code64_fields(dpl) == code64_layout(dpl),
        data64_fields() == 0x008F_9200_0000_FFFFu64,
        code64_layout(0) == 0x00AF_9A00_0000_FFFFu64,
        code64_layout(3) == 0x00AF_FA00_0000_FFFFu64,
        forall|base: u64, limit: u64|
            limit <= 0xFFFF_FFFF ==> #[trigger] tss_fields(base, limit) == tss_low_layout(
                base,
                limit,
            ),
        forall|handler: u64, cs: u64, dpl: u64, ist: u64, gate_type: u64|
            cs <= 0xFFFF && dpl <= 3 && ist <= 7 && gate_type <= 0xF ==> #[trigger] gate_fields(
                handler,
                cs,
                dpl,
                ist,
                gate_type,
            ) == gate_low_layout(handler, cs, dpl, ist, gate_type),
{
}

impl GdtDescriptor {
    /// The all-zero descriptor that fills GDT slot 0.
    #[allow(non_snake_case)]
    pub fn NULL() -> (r: Self)
        ensures
            r.0 == 0,
    {
        GdtDescriptor(0)
    }

    /// The flat 64-bit code segment for ring 0.
    pub fn code64_kernel() -> (r: Self)
        ensures
            r.0 == 0x00AF_9A00_0000_FFFF,
            gdt_base_of(r.0) == 0,
            gdt_limit_of(r.0) == 0xFFFFF,
            (r.0 >> 40) & 0xFF == 0x9A,
            (r.0 >> 45) & 3 == 0,
            (r.0 >> 52) & 0xF == 0xA,
    {
        let r = Self::code64(0);
        proof {
            lemma_descriptor_encodings();
            lemma_flat_descriptor_fields(0);
        }
        r
    }

    /// The flat 64-bit code segment for ring 3.
    pub fn code64_user() -> (r: Self)
        ensures
            r.0 == 0x00AF_FA00_0000_FFFF,
            gdt_base_of(r.0) == 0,
            gdt_limit_of(r.0) == 0xFFFFF,
            (r.0 >> 40) & 0xFF == 0xFA,
            (r.0 >> 45) & 3 == 3,
            (r.0 >> 52) & 0xF == 0xA,
    {
        let r = Self::code64(3);
        proof {
            lemma_descriptor_encodings();
            lemma_flat_descriptor_fields(3);
        }
        r
    }

    /// The flat 64-bit data segment (DPL 0, writable, present, S and G set).
    pub fn data64() -> (r: Self)
        ensures
            r.0 == 0x008F_9200_0000_FFFF,
            gdt_base_of(r.0) == 0,
            gdt_limit_of(r.0) == 0xFFFFF,
            (r.0 >> 40) & 0xFF == 0x92,
            (r.0 >> 45) & 3 == 0,
            (r.0 >> 52) & 0xF == 0x8,
    {
        let mut raw: u64 = 0;
        raw = bit_field_set(raw, 15, 0, 0xFFFF);
        raw = bit_field_set(raw, 43, 40, 0b0010);
        raw = bit_field_set(raw, 44, 44, 1);
        raw = bit_field_set(raw, 47, 47, 1);
        raw = bit_field_set(raw, 51, 48, 0xF);
        raw = bit_field_set(raw, 55, 55, 1);
        proof {
            lemma_descriptor_encodings();
            lemma_flat_descriptor_fields(0);
        }
        GdtDescriptor(raw)
    }

    /// The base address held in bits 31:16, 39:32 and 63:56.
    pub fn base(self) -> (r: u32)
        ensures
            r == gdt_base_of(self.0),
    {
        let low16 = bit_field_get(self.0, 31, 16) as u32;
        let mid8 = bit_field_get(self.0, 39, 32) as u32;
        let high8 = bit_field_get(self.0, 63, 56) as u32;
        proof {
            lemma_descriptor_fields();
        }
        low16 | (mid8 << 16) | (high8 << 24)
    }

    /// The 20-bit limit held in bits 51:48 and 15:0.
    pub fn limit(self) -> (r: u32)
        ensures
            r == gdt_limit_of(self.0),
    {
        let low16 = bit_field_get(self.0, 15, 0) as u32;
        let high4 = bit_field_get(self.0, 51, 48) as u32;
        proof {
            lemma_descriptor_fields();
        }
        low16 | (high4 << 16)
    }

    /// The descriptor privilege level, bits 46:45.
    pub fn dpl(self) -> (r: u8)
        ensures
            r == (self.0 >> 45) & 3,
    {
        proof {
            lemma_descriptor_fields();
        }
        bit_field_get(self.0, 46, 45) as u8
    }

    /// `true` if the present bit (47) is set.
    pub fn is_present(self) -> (r: bool)
        ensures
            r == bit_at(self.0, 47),
    {
        bit_test(self.0, 47)
    }

    /// `true` if the long-mode bit (53) is set.
    pub fn is_long_mode(self) -> (r: bool)
        ensures
            r == bit_at(self.0, 53),
    {
        bit_test(self.0, 53)
    }

    /// A flat 64-bit code descriptor with privilege level `dpl`.
    fn code64(dpl: u64) -> (r: Self)
        requires
            dpl <= 3,
        ensures
            r.0 == code64_layout(dpl),
            gdt_base_of(r.0) == 0,
            gdt_limit_of(r.0) == 0xFFFFF,
            (r.0 >> 40) & 0xFF == 0x9A | (dpl << 5),
            (r.0 >> 45) & 3 == dpl,
            (r.0 >> 52) & 0xF == 0xA,
    {
        let mut raw: u64 = 0;
        raw = bit_field_set(raw, 15, 0, 0xFFFF);
        raw = bit_field_set(raw, 43, 40, 0b1010);
        raw = bit_field_set(raw, 44, 44, 1);
        raw = bit_field_set(raw, 46, 45, dpl);
        raw = bit_field_set(raw, 47, 47, 1);
        raw = bit_field_set(raw, 51, 48, 0xF);
        raw = bit_field_set(raw, 53, 53, 1);
        raw = bit_field_set(raw, 55, 55, 1);
        proof {
            lemma_descriptor_encodings();
            assert(raw == code64_fields(dpl));
            lemma_flat_descriptor_fields(dpl);
        }
        GdtDescriptor(raw)
    }
}

/// A 16-byte TSS system descriptor, spanning two GDT slots.
#[derive(Clone, Copy, Debug, PartialEq, Eq, Structural)]
pub struct TssDescriptor {
    /// Lower 64 bits (first GDT slot).
    pub low: u64,
    /// Upper 64 bits (second GDT slot).
    pub high: u64,
}

/// The low word of a TSS descriptor: limit 15:0 in bits 15:0, base 23:0 in bits 39:16,
/// type 0b1001 (available 64-bit TSS), P set, limit 19:16 in bits 51:48 and base
/// 31:24 in bits 63:56.
pub open spec fn tss_low_layout(base: u64, limit: u64) -> u64 {
    (limit & 0xFFFF) | ((base & 0xFFFF) << 16) | (((base >> 16) & 0xFF) << 32) | (0x9u64 << 40) | (
    1u64 << 47) | (((limit >> 16) & 0xF) << 48) | (((base >> 24) & 0xFF) << 56)
}

/// The base address a TSS descriptor holds: bits 31:0 from the low word's fields and
/// bits 63:32 from the high word.
pub open spec fn tss_base_of(low: u64, high: u64) -> u64 {
    ((low >> 16) & 0xFFFF) | (((low >> 32) & 0xFF) << 16) | (((low >> 56) & 0xFF) << 24) | ((high
        & 0xFFFF_FFFF) << 32)
}

/// The fields written for a TSS descriptor's low word, in the order they are written.
spec fn tss_fields(base: u64, limit: u64) -> u64 {
    field_insert(
        field_insert(
            field_insert(
                field_insert(
                    field_insert(
                        field_insert(field_insert(0, 15, 0, limit & 0xFFFF), 31, 16, base & 0xFFFF),
                        39,
                        32,
                        (base >> 16) & 0xFF,
                    ),
                    43,
                    40,
                    0b1001,
                ),
                47,
                47,
                1,
            ),
            51,
            48,
            (limit >> 16) & 0xF,
        ),
        63,
        56,
        (base >> 24) & 0xFF,
    )
}

impl TssDescriptor {
    /// Encode a TSS descriptor for a TSS at `base` with byte limit `limit`.
    pub fn new(base: u64, limit: u32) -> (r: Self)
        ensures
            r.low == tss_low_layout(base, limit as u64),
            r.high == base >> 32,
            r.low & 0xFFFF == (limit as u64) & 0xFFFF,
            (r.low >> 16) & 0xFFFF == base & 0xFFFF,
            (r.low >> 32) & 0xFF == (base >> 16) & 0xFF,
            (r.low >> 40) & 0xFF == 0x89,
            (r.low >> 48) & 0xF == ((limit as u64) >> 16) & 0xF,
            (r.low >> 52) & 0xF == 0,
            r.low >> 56 == (base >> 24) & 0xFF,
            bit_at(r.low, 47),
            !bit_at(r.low, 44),
            (r.low >> 45) & 3 == 0,
            (r.low & 0xFFFF) | (((r.low >> 48) & 0xF) << 16) == (limit as u64) & 0xFFFFF,
    {
        let mut low: u64 = 0;
        low = bit_field_set(low, 15, 0, (limit & 0xFFFF) as u64);
        low = bit_field_set(low, 31, 16, base & 0xFFFF);
        low = bit_field_set(low, 39, 32, (base >> 16) & 0xFF);
        low = bit_field_set(low, 43, 40, 0b1001);
        low = bit_field_set(low, 47, 47, 1);
        low = bit_field_set(low, 51, 48, ((limit >> 16) & 0xF) as u64);
        low = bit_field_set(low, 63, 56, (base >> 24) & 0xFF);
        let high = base >> 32;
        proof {
            lemma_descriptor_encodings();
            lemma_descriptor_fields();
            assert(low == tss_fields(base, limit as u64));
            lemma_tss_fields(base, limit);
        }
        Self { low, high }
    }

    /// The 64-bit base address the descriptor holds.
    pub fn base(self) -> (r: u64)
        ensures
            r == tss_base_of(self.low, self.high),
    {
        let low16 = bit_field_get(self.low, 31, 16);
        let mid8 = bit_field_get(self.low, 39, 32);
        let high8 = bit_field_get(self.low, 63, 56);
        let high32 = self.high & 0xFFFF_FFFF;
        proof {
            lemma_descriptor_fields();
        }
        low16 | (mid8 << 16) | (high8 << 24) | (high32 << 32)
    }
}

/// A 16-byte IDT gate descriptor (interrupt or trap gate).
#[derive(Clone, Copy, Debug, PartialEq, Eq, Structural)]
pub struct IdtGate {
    /// Lower 64 bits.
    pub low: u64,
    /// Upper 64 bits.
    pub high: u64,
}

/// The low word of a gate: handler 15:0 in bits 15:0, the selector in bits 31:16,
/// the IST index in bits 34:32, the type in bits 43:40, the DPL in bits 46:45,
/// P set, and handler 31:16 in bits 63:48.
pub open spec fn gate_low_layout(handler: u64, cs: u64, dpl: u64, ist: u64, gate_type: u64) -> u64 {
    (handler & 0xFFFF) | (cs << 16) | (ist << 32) | (gate_type << 40) | (dpl << 45) | (1u64 << 47)
        | (((handler >> 16) & 0xFFFF) << 48)
}

/// The handler address a gate holds: bits 15:0 and 63:48 of the low word, then the
/// high word's bits 31:0.
pub open spec fn gate_handler_of(low: u64, high: u64) -> u64 {
    (low & 0xFFFF) | (((low >> 48) & 0xFFFF) << 16) | ((high & 0xFFFF_FFFF) << 32)
}

/// The fields written for a gate's low word, in the order they are written.
spec fn gate_fields(handler: u64, cs: u64, dpl: u64, ist: u64, gate_type: u64) -> u64 {
    field_insert(
        field_insert(
            field_insert(
                field_insert(
                    field_insert(
                        field_insert(field_insert(0, 15, 0, handler & 0xFFFF), 31, 16, cs),
                        34,
                        32,
                        ist,
                    ),
                    43,
                    40,
                    gate_type,
                ),
                46,
                45,
                dpl,
            ),
            47,
            47,
            1,
        ),
        63,
        48,
        (handler >> 16) & 0xFFFF,
    )
}

impl IdtGate {
    /// A non-present gate: the vector is not installed.
    #[allow(non_snake_case)]
    pub fn MISSING() -> (r: Self)
        ensures
            r.low == 0,
            r.high == 0,
    {
        IdtGate { low: 0, high: 0 }
    }

    /// An interrupt gate (type 0xE, clears IF on entry).
    pub fn interrupt_gate(handler: u64, cs: SegmentSelector, dpl: u8, ist: u8) -> (r: Self)
        requires
            dpl <= 3,
            ist <= 7,
        ensures
            r.low == gate_low_layout(handler, cs.0 as u64, dpl as u64, ist as u64, 0xE),
            r.high == handler >> 32,
            r.low & 0xFFFF == handler & 0xFFFF,
            (r.low >> 16) & 0xFFFF == cs.0 as u64,
            (r.low >> 32) & 7 == ist as u64,
            (r.low >> 35) & 0x1F == 0,
            (r.low >> 40) & 0xFF == 0x80 | ((dpl as u64) << 5) | 0xE,
            r.low >> 48 == (handler >> 16) & 0xFFFF,
    {
        Self::gate(handler, cs, dpl, ist, 0xE)
    }

    /// A trap gate (type 0xF, leaves IF as it is).
    pub fn trap_gate(handler: u64, cs: SegmentSelector, dpl: u8, ist: u8) -> (r: Self)
        requires
            dpl <= 3,
            ist <= 7,
        ensures
            r.low == gate_low_layout(handler, cs.0 as u64, dpl as u64, ist as u64, 0xF),
            r.high == handler >> 32,
            r.low & 0xFFFF == handler & 0xFFFF,
            (r.low >> 16) & 0xFFFF == cs.0 as u64,
            (r.low >> 32) & 7 == ist as u64,
            (r.low >> 35) & 0x1F == 0,
            (r.low >> 40) & 0xFF == 0x80 | ((dpl as u64) << 5) | 0xF,
            r.low >> 48 == (handler >> 16) & 0xFFFF,
    {
        Self::gate(handler, cs, dpl, ist, 0xF)
    }

    /// The 64-bit handler address held in the descriptor.
    pub fn handler_addr(self) -> (r: u64)
        ensures
            r == gate_handler_of(self.low, self.high),
    {
        let low16 = bit_field_get(self.low, 15, 0);
        let mid16 = bit_field_get(self.low, 63, 48);
        let high32 = self.high & 0xFFFF_FFFF;
        proof {
            lemma_descriptor_fields();
        }
        low16 | (mid16 << 16) | (high32 << 32)
    }

    /// `true` if the present bit (47 of the low word) is set.
    pub fn is_present(self) -> (r: bool)
        ensures
            r == bit_at(self.low, 47),
    {
        bit_test(self.low, 47)
    }

    /// The descriptor type, bits 43:40 of the low word (0xE interrupt, 0xF trap).
    pub fn gate_type(self) -> (r: u8)
        ensures
            r == (self.low >> 40) & 0xF,
    {
        proof {
            lemma_descriptor_fields();
        }
        bit_field_get(self.low, 43, 40) as u8
    }

    /// A present gate of the given type.
    fn gate(handler: u64, cs: SegmentSelector, dpl: u8, ist: u8, gate_type: u64) -> (r: Self)
        requires
            dpl <= 3,
            ist <= 7,
            gate_type <= 0xF,
        ensures
            r.low == gate_low_layout(handler, cs.0 as u64, dpl as u64, ist as u64, gate_type),
            r.high == handler >> 32,
            r.low & 0xFFFF == handler & 0xFFFF,
            (r.low >> 16) & 0xFFFF == cs.0 as u64,
            (r.low >> 32) & 7 == ist as u64,
            (r.low >> 35) & 0x1F == 0,
            (r.low >> 40) & 0xFF == 0x80 | ((dpl as u64) << 5) | gate_type,
            r.low >> 48 == (handler >> 16) & 0xFFFF,
    {
        let mut low: u64 = 0;
        low = bit_field_set(low, 15, 0, handler & 0xFFFF);
        low = bit_field_set(low, 31, 16, cs.0 as u64);
        low = bit_field_set(low, 34, 32, ist as u64);
        low = bit_field_set(low, 43, 40, gate_type);
        low = bit_field_set(low, 46, 45, dpl as u64);
        low = bit_field_set(low, 47, 47, 1);
        low = bit_field_set(low, 63, 48, (handler >> 16) & 0xFFFF);
        let high = handler >> 32;
        proof {
            lemma_descriptor_encodings();
            assert(low == gate_fields(handler, cs.0 as u64, dpl as u64, ist as u64, gate_type));
            lemma_gate_fields(handler, cs.0, dpl, ist, gate_type);
        }
        Self { low, high }
    }
}

/// What the descriptor accessors compute, as bit layouts.
proof fn lemma_descriptor_fields()
    by (bit_vector)
    ensures
        forall|raw: u64|
            #[trigger] ((field_extract(raw, 31, 16) as u32) | ((field_extract(raw, 39, 32) as u32)
                << 16u32) | ((field_extract(raw, 63, 56) as u32) << 24u32)) as u64 == gdt_base_of(
                raw,
            ),
        forall|raw: u64|
            #[trigger] ((field_extract(raw, 15, 0) as u32) | ((field_extract(raw, 51, 48) as u32)
                << 16u32)) as u64 == gdt_limit_of(raw),
        forall|raw: u64| #[trigger] (field_extract(raw, 46, 45) as u8) as u64 == (raw >> 45) & 3,
        forall|raw: u64| #[trigger] (field_extract(raw, 43, 40) as u8) as u64 == (raw >> 40) & 0xF,
        forall|low: u64, high: u64|
            #[trigger] (field_extract(low, 31, 16) | (field_extract(low, 39, 32) << 16) | (
            field_extract(low, 63, 56) << 24) | ((high & 0xFFFF_FFFF) << 32)) == tss_base_of(
                low,
                high,
            ),
        forall|low: u64, high: u64|
            #[trigger] (field_extract(low, 15, 0) | (field_extract(low, 63, 48) << 16) | ((high
                & 0xFFFF_FFFF) << 32)) == gate_handler_of(low, high),
        forall|limit: u32| #[trigger] ((limit & 0xFFFF) as u64) == (limit as u64) & 0xFFFF,
        forall|limit: u32| #[trigger] (((limit >> 16) & 0xF) as u64) == ((limit as u64) >> 16) & 0xF,
{
}

/// Reading the fields back out of the encodings.
proof fn lemma_descriptor_roundtrips()
    by (bit_vector)
    ensures
        forall|base: u64, limit: u64|
            limit <= 0xFFFF_FFFF ==> #[trigger] tss_base_of(tss_low_layout(base, limit), base >> 32)
                == base,
        forall|handler: u64, cs: u64, dpl: u64, ist: u64, gate_type: u64|
            cs <= 0xFFFF && dpl <= 3 && ist <= 7 && gate_type <= 0xF ==> {
                let low = #[trigger] gate_low_layout(handler, cs, dpl, ist, gate_type);
                &&& gate_handler_of(low, handler >> 32) == handler
                &&& (low >> 40) & 0xF == gate_type
                &&& (low >> 45) & 3 == dpl
                &&& (low >> 32) & 7 == ist
                &&& (low >> 16) & 0xFFFF == cs
                &&& (low >> 47) & 1 == 1
            },
        forall|dpl: u64|
            dpl <= 3 ==> {
                let raw = #[trigger] code64_layout(dpl);
                &&& (raw >> 45) & 3 == dpl
                &&& (raw >> 47) & 1 == 1
                &&& (raw >> 53) & 1 == 1
                &&& gdt_base_of(raw) == 0
                &&& gdt_limit_of(raw) == 0xFFFFF
            },
{
}

/// A selector built from an index below 8192, a privilege level and a table flag
/// gives each of them back.
pub proof fn lemma_selector_roundtrip(index: u16, rpl: u8, ldt: bool, s: SegmentSelector)
    requires
        index < 8192,
        rpl <= 3,
        s.0 == (index as int * 8) % 0x1_0000 + (if ldt {
            4int
        } else {
            0
        }) + rpl,
    ensures
        s.0 / 8 == index,
        s.0 % 4 == rpl,
        ((s.0 / 4) % 2 == 1) == ldt,
{
}

/// A TSS descriptor gives back the full 64-bit base address it was built with.
pub proof fn lemma_tss_base_roundtrip(base: u64, limit: u32)
    ensures
        tss_base_of(tss_low_layout(base, limit as u64), base >> 32) == base,
{
    lemma_descriptor_roundtrips();
}

/// A gate gives back the handler address, type, privilege level, stack index and
/// selector it was built with, and is present.
pub proof fn lemma_gate_roundtrip(handler: u64, cs: u16, dpl: u8, ist: u8, gate_type: u64)
    requires
        dpl <= 3,
        ist <= 7,
        gate_type <= 0xF,
    ensures
        ({
            let low = gate_low_layout(handler, cs as u64, dpl as u64, ist as u64, gate_type);
            &&& gate_handler_of(low, handler >> 32) == handler
            &&& (low >> 40) & 0xF == gate_type
            &&& (low >> 45) & 3 == dpl
            &&& (low >> 32) & 7 == ist
            &&& (low >> 16) & 0xFFFF == cs
            &&& bit_at(low, 47)
        }),
{
    lemma_descriptor_roundtrips();
}

/// A flat code descriptor has base 0, limit 0xFFFFF, the requested privilege level,
/// and the present and long-mode bits set.
pub proof fn lemma_code64_fields(dpl: u64)
    requires
        dpl <= 3,
    ensures
        ({
            let raw = code64_layout(dpl);
            &&& (raw >> 45) & 3 == dpl
            &&& bit_at(raw, 47)
            &&& bit_at(raw, 53)
            &&& gdt_base_of(raw) == 0
            &&& gdt_limit_of(raw) == 0xFFFFF
        }),
{
    lemma_descriptor_roundtrips();
}

/// Every field of a TSS descriptor's low word, for every base and limit: limit
/// 15:0, base 15:0, base 23:16, the attribute byte 0x89 (present, DPL 0, system
/// descriptor, type 9 = available 64-bit TSS), limit 19:16, zero flags, base 31:24.
/// The two limit fields read back as the 20-bit limit.
pub proof fn lemma_tss_fields(base: u64, limit: u32)
    ensures
        ({
            let low = tss_low_layout(base, limit as u64);
            &&& low & 0xFFFF == (limit as u64) & 0xFFFF
            &&& (low >> 16) & 0xFFFF == base & 0xFFFF
            &&& (low >> 32) & 0xFF == (base >> 16) & 0xFF
            &&& (low >> 40) & 0xFF == 0x89
            &&& (low >> 48) & 0xF == ((limit as u64) >> 16) & 0xF
            &&& (low >> 52) & 0xF == 0
            &&& low >> 56 == (base >> 24) & 0xFF
            &&& bit_at(low, 47)
            &&& !bit_at(low, 44)
            &&& (low >> 45) & 3 == 0
            &&& (low & 0xFFFF) | (((low >> 48) & 0xF) << 16) == (limit as u64) & 0xFFFFF
        }),
{
    let l = limit as u64;
    assert(l <= 0xFFFF_FFFF);
    let low = tss_low_layout(base, l);
    assert(l <= 0xFFFF_FFFF ==> {
        let low = tss_low_layout(base, l);
        &&& low & 0xFFFF == l & 0xFFFF
        &&& (low >> 16) & 0xFFFF == base & 0xFFFF
        &&& (low >> 32) & 0xFF == (base >> 16) & 0xFF
        &&& (low >> 40) & 0xFF == 0x89
        &&& (low >> 48) & 0xF == (l >> 16) & 0xF
        &&& (low >> 52) & 0xF == 0
        &&& low >> 56 == (base >> 24) & 0xFF
        &&& (low >> 47) & 1 == 1
        &&& (low >> 44) & 1 == 0
        &&& (low >> 45) & 3 == 0
        &&& (low & 0xFFFF) | (((low >> 48) & 0xF) << 16) == l & 0xFFFFF
    }) by (bit_vector);
}

/// Every field of a gate's low word, for every handler, selector, privilege level,
/// stack index and type: handler 15:0, the selector, the IST index, zero bits 39:35,
/// the attribute byte (present, DPL, system descriptor bit 44 clear, type), and
/// handler 31:16.
pub proof fn lemma_gate_fields(handler: u64, cs: u16, dpl: u8, ist: u8, gate_type: u64)
    requires
        dpl <= 3,
        ist <= 7,
        gate_type <= 0xF,
    ensures
        ({
            let low = gate_low_layout(handler, cs as u64, dpl as u64, ist as u64, gate_type);
            &&& low & 0xFFFF == handler & 0xFFFF
            &&& (low >> 16) & 0xFFFF == cs as u64
            &&& (low >> 32) & 7 == ist as u64
            &&& (low >> 35) & 0x1F == 0
            &&& (low >> 40) & 0xFF == 0x80 | ((dpl as u64) << 5) | gate_type
            &&& low >> 48 == (handler >> 16) & 0xFFFF
            &&& !bit_at(low, 44)
        }),
{
    let c = cs as u64;
    let d = dpl as u64;
    let i = ist as u64;
    assert(c <= 0xFFFF && d <= 3 && i <= 7 && gate_type <= 0xF ==> {
        let low = gate_low_layout(handler, c, d, i, gate_type);
        &&& low & 0xFFFF == handler & 0xFFFF
        &&& (low >> 16) & 0xFFFF == c
        &&& (low >> 32) & 7 == i
        &&& (low >> 35) & 0x1F == 0
        &&& (low >> 40) & 0xFF == 0x80 | (d << 5) | gate_type
        &&& low >> 48 == (handler >> 16) & 0xFFFF
        &&& (low >> 44) & 1 == 0
    }) by (bit_vector);
}

/// The flat descriptors, field by field. A 64-bit code descriptor of privilege
/// level `dpl` has base 0, limit 0xFFFFF, access byte 0x9A | dpl << 5 (present,
/// code/data descriptor, execute/read code) and flags 0xA (4 KiB granularity,
/// 64-bit code, D clear). The data descriptor has base 0, limit 0xFFFFF, access
/// byte 0x92 (present, DPL 0, read/write data) and flags 0x8 (granularity only).
pub proof fn lemma_flat_descriptor_fields(dpl: u64)
    requires
        dpl <= 3,
    ensures
        ({
            let raw = code64_layout(dpl);
            &&& gdt_base_of(raw) == 0
            &&& gdt_limit_of(raw) == 0xFFFFF
            &&& (raw >> 40) & 0xFF == 0x9A | (dpl << 5)
            &&& (raw >> 45) & 3 == dpl
            &&& (raw >> 52) & 0xF == 0xA
        }),
        (code64_layout(0) >> 40) & 0xFF == 0x9A,
        (code64_layout(3) >> 40) & 0xFF == 0xFA,
        gdt_base_of(0x008F_9200_0000_FFFF) == 0,
        gdt_limit_of(0x008F_9200_0000_FFFF) == 0xFFFFF,
        (0x008F_9200_0000_FFFFu64 >> 40) & 0xFF == 0x92,
        (0x008F_9200_0000_FFFFu64 >> 45) & 3 == 0,
        (0x008F_9200_0000_FFFFu64 >> 52) & 0xF == 0x8,
{
    assert(dpl <= 3 ==> {
        let raw = code64_layout(dpl);
        &&& gdt_base_of(raw) == 0
        &&& gdt_limit_of(raw) == 0xFFFFF
        &&& (raw >> 40) & 0xFF == 0x9A | (dpl << 5)
        &&& (raw >> 45) & 3 == dpl
        &&& (raw >> 52) & 0xF == 0xA
    }) by (bit_vector);
    assert((code64_layout(0) >> 40) & 0xFF == 0x9A && (code64_layout(3) >> 40) & 0xFF == 0xFA)
        by (bit_vector);
    let d = 0x008F_9200_0000_FFFFu64;
    assert(gdt_base_of(d) == 0 && gdt_limit_of(d) == 0xFFFFF && (d >> 40) & 0xFF == 0x92 && (d
        >> 45) & 3 == 0 && (d >> 52) & 0xF == 0x8) by (bit_vector)
        requires
            d == 0x008F_9200_0000_FFFFu64,
    ;
}

/// The base and limit a segment descriptor reports, field by field: base bits 15:0
/// are descriptor bits 31:16, base bits 23:16 are bits 39:32, base bits 31:24 are
/// bits 63:56; limit bits 15:0 are bits 15:0 and limit bits 19:16 are bits 51:48.
pub proof fn lemma_segment_reader_fields(raw: u64)
    ensures
        gdt_base_of(raw) & 0xFFFF == (raw >> 16) & 0xFFFF,
        (gdt_base_of(raw) >> 16) & 0xFF == (raw >> 32) & 0xFF,
        gdt_base_of(raw) >> 24 == raw >> 56,
        gdt_limit_of(raw) & 0xFFFF == raw & 0xFFFF,
        gdt_limit_of(raw) >> 16 == (raw >> 48) & 0xF,
{
    assert(gdt_base_of(raw) & 0xFFFF == (raw >> 16) & 0xFFFF && (gdt_base_of(raw) >> 16) & 0xFF == (
    raw >> 32) & 0xFF && gdt_base_of(raw) >> 24 == raw >> 56 && gdt_limit_of(raw) & 0xFFFF == raw
        & 0xFFFF && gdt_limit_of(raw) >> 16 == (raw >> 48) & 0xF) by (bit_vector);
}

} // verus!
