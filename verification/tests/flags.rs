use bitwise::flags::FlagRegister;
use bitwise::flags::{cr0, cr4, efer, rflags};

#[test]
fn zero_is_all_zeros() {
    assert_eq!(FlagRegister::ZERO().raw(), 0);
}

#[test]
fn from_raw_roundtrip() {
    for v in [0u64, 1, 0xFF, u64::MAX, 0xDEAD_BEEF] {
        assert_eq!(FlagRegister::from_raw(v).raw(), v);
    }
}

#[test]
fn has_single_flag() {
    let r = FlagRegister::from_raw(rflags::ZF | rflags::CF);
    assert!(r.has(rflags::ZF));
    assert!(r.has(rflags::CF));
    assert!(!r.has(rflags::SF));
}

#[test]
fn has_requires_all_bits() {
    let r = FlagRegister::from_raw(rflags::IOPL);
    assert!(r.has(rflags::IOPL));
    assert!(!r.has(rflags::IOPL | rflags::ZF));
}

#[test]
fn has_any_matches_any_bit() {
    let r = FlagRegister::from_raw(rflags::ZF);
    assert!(r.has_any(rflags::ZF | rflags::SF));
    assert!(!r.has_any(rflags::SF | rflags::CF));
}

#[test]
fn set_adds_bits() {
    let r = FlagRegister::ZERO().set(rflags::IF);
    assert!(r.has(rflags::IF));
    assert_eq!(r.raw(), rflags::IF);
}

#[test]
fn clear_removes_bits() {
    let r = FlagRegister::from_raw(rflags::IF | rflags::ZF).clear(rflags::IF);
    assert!(!r.has(rflags::IF));
    assert!(r.has(rflags::ZF));
}

#[test]
fn toggle_flips_bits() {
    let r = FlagRegister::from_raw(rflags::ZF);
    let toggled = r.toggle(rflags::ZF | rflags::CF);
    assert!(!toggled.has(rflags::ZF));
    assert!(toggled.has(rflags::CF));
}

#[test]
fn toggle_roundtrip() {
    let original = FlagRegister::from_raw(0xABCD_EF01);
    assert_eq!(original.toggle(u64::MAX).toggle(u64::MAX), original);
}

#[test]
fn replace_field_iopl() {
    let r = FlagRegister::ZERO().replace_field(rflags::IOPL, 2 << 12);
    assert_eq!(r.raw() >> 12 & 0x3, 2);
}

#[test]
fn replace_field_does_not_touch_other_bits() {
    let r = FlagRegister::from_raw(rflags::IF | rflags::ZF);
    let r2 = r.replace_field(rflags::IOPL, 3 << 12);
    assert!(r2.has(rflags::IF));
    assert!(r2.has(rflags::ZF));
    assert_eq!(r2.raw() >> 12 & 0x3, 3);
}

#[test]
fn isolate_keeps_only_masked_bits() {
    let r = FlagRegister::from_raw(rflags::IF | rflags::ZF | rflags::CF);
    let iso = r.isolate(rflags::IF | rflags::ZF);
    assert!(iso.has(rflags::IF));
    assert!(iso.has(rflags::ZF));
    assert!(!iso.has(rflags::CF));
}

#[test]
fn rflags_bit_positions() {
    assert_eq!(rflags::CF, 1 << 0);
    assert_eq!(rflags::PF, 1 << 2);
    assert_eq!(rflags::AF, 1 << 4);
    assert_eq!(rflags::ZF, 1 << 6);
    assert_eq!(rflags::SF, 1 << 7);
    assert_eq!(rflags::TF, 1 << 8);
    assert_eq!(rflags::IF, 1 << 9);
    assert_eq!(rflags::DF, 1 << 10);
    assert_eq!(rflags::OF, 1 << 11);
    assert_eq!(rflags::IOPL, 3 << 12);
    assert_eq!(rflags::NT, 1 << 14);
    assert_eq!(rflags::RF, 1 << 16);
    assert_eq!(rflags::VM, 1 << 17);
    assert_eq!(rflags::AC, 1 << 18);
    assert_eq!(rflags::VIF, 1 << 19);
    assert_eq!(rflags::VIP, 1 << 20);
    assert_eq!(rflags::ID, 1 << 21);
}

#[test]
fn rflags_no_overlapping_single_bit_flags() {
    let single_bits = [
        rflags::CF, rflags::PF, rflags::AF, rflags::ZF, rflags::SF, rflags::TF, rflags::IF,
        rflags::DF, rflags::OF, rflags::NT, rflags::RF, rflags::VM, rflags::AC, rflags::VIF,
        rflags::VIP, rflags::ID,
    ];
    for (i, &a) in single_bits.iter().enumerate() {
        for (j, &b) in single_bits.iter().enumerate() {
            if i != j {
                assert_eq!(a & b, 0, "rflags constants overlap: {:#x} & {:#x}", a, b);
            }
        }
    }
}

#[test]
fn cr0_bit_positions() {
    assert_eq!(cr0::PE, 1 << 0);
    assert_eq!(cr0::MP, 1 << 1);
    assert_eq!(cr0::EM, 1 << 2);
    assert_eq!(cr0::TS, 1 << 3);
    assert_eq!(cr0::ET, 1 << 4);
    assert_eq!(cr0::NE, 1 << 5);
    assert_eq!(cr0::WP, 1 << 16);
    assert_eq!(cr0::AM, 1 << 18);
    assert_eq!(cr0::NW, 1 << 29);
    assert_eq!(cr0::CD, 1 << 30);
    assert_eq!(cr0::PG, 1 << 31);
}

#[test]
fn cr4_bit_positions() {
    assert_eq!(cr4::VME, 1 << 0);
    assert_eq!(cr4::PVI, 1 << 1);
    assert_eq!(cr4::TSD, 1 << 2);
    assert_eq!(cr4::DE, 1 << 3);
    assert_eq!(cr4::PSE, 1 << 4);
    assert_eq!(cr4::PAE, 1 << 5);
    assert_eq!(cr4::MCE, 1 << 6);
    assert_eq!(cr4::PGE, 1 << 7);
    assert_eq!(cr4::PCE, 1 << 8);
    assert_eq!(cr4::OSFXSR, 1 << 9);
    assert_eq!(cr4::OSXMMEXCPT, 1 << 10);
    assert_eq!(cr4::UMIP, 1 << 11);
    assert_eq!(cr4::LA57, 1 << 12);
    assert_eq!(cr4::VMXE, 1 << 13);
    assert_eq!(cr4::SMXE, 1 << 14);
    assert_eq!(cr4::FSGSBASE, 1 << 16);
    assert_eq!(cr4::PCIDE, 1 << 17);
    assert_eq!(cr4::OSXSAVE, 1 << 18);
    assert_eq!(cr4::SMEP, 1 << 20);
    assert_eq!(cr4::SMAP, 1 << 21);
    assert_eq!(cr4::PKE, 1 << 22);
    assert_eq!(cr4::CET, 1 << 23);
    assert_eq!(cr4::PKS, 1 << 24);
}

#[test]
fn efer_bit_positions() {
    assert_eq!(efer::SCE, 1 << 0);
    assert_eq!(efer::LME, 1 << 8);
    assert_eq!(efer::LMA, 1 << 10);
    assert_eq!(efer::NXE, 1 << 11);
    assert_eq!(efer::SVME, 1 << 12);
    assert_eq!(efer::LMSLE, 1 << 13);
    assert_eq!(efer::FFXSR, 1 << 14);
    assert_eq!(efer::TCE, 1 << 15);
}

#[test]
fn flag_register_typical_long_mode_efer() {
    let efer_val = FlagRegister::ZERO()
        .set(efer::SCE)
        .set(efer::LME)
        .set(efer::LMA)
        .set(efer::NXE);
    assert!(efer_val.has(efer::LMA));
    assert!(efer_val.has(efer::NXE));
    assert!(!efer_val.has(efer::SVME));
    assert_eq!(efer_val.raw(), efer::SCE | efer::LME | efer::LMA | efer::NXE);
}

#[test]
fn flag_register_cr0_paging_enable() {
    let cr0_val = FlagRegister::from_raw(cr0::PE | cr0::NE | cr0::WP | cr0::PG);
    assert!(cr0_val.has(cr0::PG));
    assert!(cr0_val.has(cr0::PE));
    assert!(!cr0_val.has(cr0::EM));
    let no_pg = cr0_val.clear(cr0::PG);
    assert!(!no_pg.has(cr0::PG));
    assert!(no_pg.has(cr0::PE));
}
