use bitwise::cpuid::{
    cpuid_bit, feature_location, leaf_available, max_leaf_query, CpuFeature, CpuidReg, CpuidResult,
};
use bitwise::mmio::{clear_bits32, clear_bits64, set_bits32, set_bits64, update_field32, MmioBlock};
use bitwise::pio::{clear_bits8, set_bits8};

#[test]
fn cpuid_result_is_copy() {
    let r = CpuidResult { eax: 1, ebx: 2, ecx: 3, edx: 4 };
    let r2 = r;
    assert_eq!(r, r2);
}

#[test]
fn feature_locations_match_the_manual() {
    let nx = feature_location(CpuFeature::Nx);
    assert_eq!((nx.leaf, nx.reg, nx.bit), (0x8000_0001, CpuidReg::Edx, 20));
    let avx = feature_location(CpuFeature::Avx);
    assert_eq!((avx.leaf, avx.reg, avx.bit), (1, CpuidReg::Ecx, 28));
    let smap = feature_location(CpuFeature::Smap);
    assert_eq!((smap.leaf, smap.reg, smap.bit), (7, CpuidReg::Ebx, 20));
    let gb = feature_location(CpuFeature::Pages1G);
    assert_eq!((gb.leaf, gb.reg, gb.bit), (0x8000_0001, CpuidReg::Edx, 26));
}

#[test]
fn max_leaf_query_picks_the_range() {
    assert_eq!(max_leaf_query(7), 0);
    assert_eq!(max_leaf_query(0x8000_0001), 0x8000_0000);
    assert!(leaf_available(7, 7));
    assert!(!leaf_available(6, 7));
}

#[test]
fn cpuid_bit_reads_the_named_register() {
    let r = CpuidResult { eax: 0, ebx: 1 << 7, ecx: 0, edx: 1 << 20 };
    assert!(cpuid_bit(r, CpuidReg::Edx, 20));
    assert!(cpuid_bit(r, CpuidReg::Ebx, 7));
    assert!(!cpuid_bit(r, CpuidReg::Ecx, 7));
}

#[test]
fn register_update_values() {
    assert_eq!(set_bits32(0x0000_00F0, 0x0000_000F), 0x0000_00FF);
    assert_eq!(set_bits32(0xFFFF_FFFF, 0x1234_5678), 0xFFFF_FFFF);
    assert_eq!(clear_bits32(0x0000_00FF, 0x0000_000F), 0x0000_00F0);
    assert_eq!(clear_bits32(0, 0xFFFF_FFFF), 0);
    let updated = update_field32(0xFFFF_FFFF, 0x0000_00F0, 0x0000_0050);
    assert_eq!(updated & 0xF0, 0x50);
    assert_eq!(updated & !0xF0, 0xFFFF_FF0F);
    assert_eq!(set_bits64(0, 1 << 63), 1 << 63);
    assert_eq!(clear_bits64(1 << 63, 1 << 63), 0);
    assert_eq!(set_bits8(0b0000_0001, 1 << 3), 0b0000_1001);
    assert_eq!(clear_bits8(0xFF, 1 << 3), 0xF7);
}

#[test]
fn mmio_block_register_addresses() {
    let block = MmioBlock::new(0xFEDC_0000);
    assert_eq!(block.register_addr(0x18), Some(0xFEDC_0018));
    assert_eq!(MmioBlock::new(u64::MAX).register_addr(1), None);
}
