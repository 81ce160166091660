//! The CPUID result registers and where each CPU feature flag lives in them.

use vstd::prelude::*;

verus! {

/// The four output registers of a `CPUID` instruction.
#[derive(Clone, Copy, Debug, PartialEq, Eq, Structural)]
pub struct CpuidResult {
    /// EAX output.
    pub eax: u32,
    /// EBX output.
    pub ebx: u32,
    /// ECX output.
    pub ecx: u32,
    /// EDX output.
    pub edx: u32,
}

/// One of the four CPUID output registers.
#[derive(Clone, Copy, Debug, PartialEq, Eq, Structural)]
pub enum CpuidReg {
    Eax,
    Ebx,
    Ecx,
    Edx,
}

/// The CPU features this crate detects.
#[derive(Clone, Copy, Debug, PartialEq, Eq, Structural)]
pub enum CpuFeature {
    /// No-execute page protection.
    Nx,
    /// Local APIC.
    Apic,
    /// SSE.
    Sse,
    /// SSE2.
    Sse2,
    /// AVX.
    Avx,
    /// XSAVE / XRSTOR.
    Xsave,
    /// Process-context identifiers.
    Pcid,
    /// `RDFSBASE` and related instructions.
    Fsgsbase,
    /// `INVPCID`.
    Invpcid,
    /// Supervisor Mode Execution Prevention.
    Smep,
    /// Supervisor Mode Access Prevention.
    Smap,
    /// CET shadow stack.
    CetSs,
    /// CET indirect branch tracking.
    CetIbt,
    /// Protection keys for user pages.
    Pku,
    /// User-Mode Instruction Prevention.
    Umip,
    /// 1 GiB pages.
    Pages1G,
}

/// Where a feature flag lives: the leaf to query (sub-leaf 0), the register, and
/// the bit.
#[derive(Clone, Copy, Debug, PartialEq, Eq, Structural)]
pub struct FeatureLocation {
    pub leaf: u32,
    pub reg: CpuidReg,
    pub bit: u32,
}

/// The CPUID location of each feature flag.
pub open spec fn feature_location_spec(f: CpuFeature) -> FeatureLocation {
    match f {
        CpuFeature::Nx => FeatureLocation { leaf: 0x8000_0001, reg: CpuidReg::Edx, bit: 20 },
        CpuFeature::Apic => FeatureLocation { leaf: 1, reg: CpuidReg::Edx, bit: 9 },
        CpuFeature::Sse => FeatureLocation { leaf: 1, reg: CpuidReg::Edx, bit: 25 },
        CpuFeature::Sse2 => FeatureLocation { leaf: 1, reg: CpuidReg::Edx, bit: 26 },
        CpuFeature::Avx => FeatureLocation { leaf: 1, reg: CpuidReg::Ecx, bit: 28 },
        CpuFeature::Xsave => FeatureLocation { leaf: 1, reg: CpuidReg::Ecx, bit: 26 },
        CpuFeature::Pcid => FeatureLocation { leaf: 1, reg: CpuidReg::Ecx, bit: 17 },
        CpuFeature::Fsgsbase => FeatureLocation { leaf: 7, reg: CpuidReg::Ebx, bit: 0 },
        CpuFeature::Invpcid => FeatureLocation { leaf: 7, reg: CpuidReg::Ebx, bit: 10 },
        CpuFeature::Smep => FeatureLocation { leaf: 7, reg: CpuidReg::Ebx, bit: 7 },
        CpuFeature::Smap => FeatureLocation { leaf: 7, reg: CpuidReg::Ebx, bit: 20 },
        CpuFeature::CetSs => FeatureLocation { leaf: 7, reg: CpuidReg::Ecx, bit: 7 },
        CpuFeature::CetIbt => FeatureLocation { leaf: 7, reg: CpuidReg::Edx, bit: 20 },
        CpuFeature::Pku => FeatureLocation { leaf: 7, reg: CpuidReg::Ecx, bit: 3 },
        CpuFeature::Umip => FeatureLocation { leaf: 7, reg: CpuidReg::Ecx, bit: 2 },
        CpuFeature::Pages1G => FeatureLocation { leaf: 0x8000_0001, reg: CpuidReg::Edx, bit: 26 },
    }
}

/// The CPUID location of the flag for feature `f`.
pub fn feature_location(f: CpuFeature) -> (r: FeatureLocation)
    ensures
        r == feature_location_spec(f),
        r.bit < 32,
{
    match f {
        CpuFeature::Nx => FeatureLocation { leaf: 0x8000_0001, reg: CpuidReg::Edx, bit: 20 },
        CpuFeature::Apic => FeatureLocation { leaf: 1, reg: CpuidReg::Edx, bit: 9 },
        CpuFeature::Sse => FeatureLocation { leaf: 1, reg: CpuidReg::Edx, bit: 25 },
        CpuFeature::Sse2 => FeatureLocation { leaf: 1, reg: CpuidReg::Edx, bit: 26 },
        CpuFeature::Avx => FeatureLocation { leaf: 1, reg: CpuidReg::Ecx, bit: 28 },
        CpuFeature::Xsave => FeatureLocation { leaf: 1, reg: CpuidReg::Ecx, bit: 26 },
        CpuFeature::Pcid => FeatureLocation { leaf: 1, reg: CpuidReg::Ecx, bit: 17 },
        CpuFeature::Fsgsbase => FeatureLocation { leaf: 7, reg: CpuidReg::Ebx, bit: 0 },
        CpuFeature::Invpcid => FeatureLocation { leaf: 7, reg: CpuidReg::Ebx, bit: 10 },
        CpuFeature::Smep => FeatureLocation { leaf: 7, reg: CpuidReg::Ebx, bit: 7 },
        CpuFeature::Smap => FeatureLocation { leaf: 7, reg: CpuidReg::Ebx, bit: 20 },
        CpuFeature::CetSs => FeatureLocation { leaf: 7, reg: CpuidReg::Ecx, bit: 7 },
        CpuFeature::CetIbt => FeatureLocation { leaf: 7, reg: CpuidReg::Edx, bit: 20 },
        CpuFeature::Pku => FeatureLocation { leaf: 7, reg: CpuidReg::Ecx, bit: 3 },
        CpuFeature::Umip => FeatureLocation { leaf: 7, reg: CpuidReg::Ecx, bit: 2 },
        CpuFeature::Pages1G => FeatureLocation { leaf: 0x8000_0001, reg: CpuidReg::Edx, bit: 26 },
    }
}

/// The leaf whose EAX reports the highest leaf of `leaf`'s range: 0x8000_0000 for
/// extended leaves, 0 for basic ones.
pub fn max_leaf_query(leaf: u32) -> (r: u32)
    ensures
        r == (if leaf >= 0x8000_0000 {
            0x8000_0000u32
        } else {
            0u32
        }),
{
    if leaf >= 0x8000_0000 {
        0x8000_0000
    } else {
        0
    }
}

/// `true` if `leaf` is at most the reported highest leaf `max_leaf`.
pub fn leaf_available(max_leaf: u32, leaf: u32) -> (r: bool)
    ensures
        r == (leaf <= max_leaf),
{
    max_leaf >= leaf
}

/// The value of register `reg` in a CPUID result.
pub open spec fn reg_value(regs: CpuidResult, reg: CpuidReg) -> u32 {
    match reg {
        CpuidReg::Eax => regs.eax,
        CpuidReg::Ebx => regs.ebx,
        CpuidReg::Ecx => regs.ecx,
        CpuidReg::Edx => regs.edx,
    }
}

/// `true` if bit `bit` of register `reg` is set.
pub fn cpuid_bit(regs: CpuidResult, reg: CpuidReg, bit: u32) -> (r: bool)
    requires
        bit < 32,
    ensures
        r == ((reg_value(regs, reg) >> bit) & 1 == 1),
{
    let value = match reg {
        CpuidReg::Eax => regs.eax,
        CpuidReg::Ebx => regs.ebx,
        CpuidReg::Ecx => regs.ecx,
        CpuidReg::Edx => regs.edx,
    };
    (value >> bit) & 1 == 1
}

/// Where the Intel SDM and AMD APM place each feature flag (sub-leaf 0):
/// leaf 0x8000_0001 EDX bit 20 (NX) and bit 26 (1 GiB pages); leaf 1 EDX bits 9
/// (APIC), 25 (SSE), 26 (SSE2); leaf 1 ECX bits 28 (AVX), 26 (XSAVE, not bit 27
/// OSXSAVE), 17 (PCID); leaf 7 EBX bits 0 (FSGSBASE), 10 (INVPCID), 7 (SMEP),
/// 20 (SMAP); leaf 7 ECX bits 7 (CET_SS), 3 (PKU), 2 (UMIP); leaf 7 EDX bit 20
/// (CET_IBT). Every flag bit is below 32.
pub proof fn lemma_feature_locations(f: CpuFeature)
    ensures
        feature_location_spec(CpuFeature::Nx).leaf == 0x8000_0001
            && feature_location_spec(CpuFeature::Nx).reg == CpuidReg::Edx
            && feature_location_spec(CpuFeature::Nx).bit == 20,
        feature_location_spec(CpuFeature::Apic).leaf == 1
            && feature_location_spec(CpuFeature::Apic).reg == CpuidReg::Edx
            && feature_location_spec(CpuFeature::Apic).bit == 9,
        feature_location_spec(CpuFeature::Sse).leaf == 1
            && feature_location_spec(CpuFeature::Sse).reg == CpuidReg::Edx
            && feature_location_spec(CpuFeature::Sse).bit == 25,
        feature_location_spec(CpuFeature::Sse2).leaf == 1
            && feature_location_spec(CpuFeature::Sse2).reg == CpuidReg::Edx
            && feature_location_spec(CpuFeature::Sse2).bit == 26,
        feature_location_spec(CpuFeature::Avx).leaf == 1
            && feature_location_spec(CpuFeature::Avx).reg == CpuidReg::Ecx
            && feature_location_spec(CpuFeature::Avx).bit == 28,
        feature_location_spec(CpuFeature::Xsave).leaf == 1
            && feature_location_spec(CpuFeature::Xsave).reg == CpuidReg::Ecx
            && feature_location_spec(CpuFeature::Xsave).bit == 26,
        feature_location_spec(CpuFeature::Pcid).leaf == 1
            && feature_location_spec(CpuFeature::Pcid).reg == CpuidReg::Ecx
            && feature_location_spec(CpuFeature::Pcid).bit == 17,
        feature_location_spec(CpuFeature::Fsgsbase).leaf == 7
            && feature_location_spec(CpuFeature::Fsgsbase).reg == CpuidReg::Ebx
            && feature_location_spec(CpuFeature::Fsgsbase).bit == 0,
        feature_location_spec(CpuFeature::Invpcid).leaf == 7
            && feature_location_spec(CpuFeature::Invpcid).reg == CpuidReg::Ebx
            && feature_location_spec(CpuFeature::Invpcid).bit == 10,
        feature_location_spec(CpuFeature::Smep).leaf == 7
            && feature_location_spec(CpuFeature::Smep).reg == CpuidReg::Ebx
            && feature_location_spec(CpuFeature::Smep).bit == 7,
        feature_location_spec(CpuFeature::Smap).leaf == 7
            && feature_location_spec(CpuFeature::Smap).reg == CpuidReg::Ebx
            && feature_location_spec(CpuFeature::Smap).bit == 20,
        feature_location_spec(CpuFeature::CetSs).leaf == 7
            && feature_location_spec(CpuFeature::CetSs).reg == CpuidReg::Ecx
            && feature_location_spec(CpuFeature::CetSs).bit == 7,
        feature_location_spec(CpuFeature::CetIbt).leaf == 7
            && feature_location_spec(CpuFeature::CetIbt).reg == CpuidReg::Edx
            && feature_location_spec(CpuFeature::CetIbt).bit == 20,
        feature_location_spec(CpuFeature::Pku).leaf == 7
            && feature_location_spec(CpuFeature::Pku).reg == CpuidReg::Ecx
            && feature_location_spec(CpuFeature::Pku).bit == 3,
        feature_location_spec(CpuFeature::Umip).leaf == 7
            && feature_location_spec(CpuFeature::Umip).reg == CpuidReg::Ecx
            && feature_location_spec(CpuFeature::Umip).bit == 2,
        feature_location_spec(CpuFeature::Pages1G).leaf == 0x8000_0001
            && feature_location_spec(CpuFeature::Pages1G).reg == CpuidReg::Edx
            && feature_location_spec(CpuFeature::Pages1G).bit == 26,
        feature_location_spec(f).bit < 32,
{
}

} // verus!
