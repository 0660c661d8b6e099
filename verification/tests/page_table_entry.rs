use rt_shm::mapping::{
    MappingFlags, MAP_DEVICE, MAP_EXECUTE, MAP_READ, MAP_UNCACHED, MAP_USER, MAP_WRITE,
};
use rt_shm::pte_rv64::Rv64PTE;
use rt_shm::pte_x64::{
    flags_from_ptf, ptf_from_flags, X64PTE, PTF_NO_CACHE, PTF_NO_EXECUTE, PTF_PRESENT,
    PTF_USER_ACCESSIBLE, PTF_WRITABLE, PTF_WRITE_THROUGH,
};

fn flags(bits: u64) -> MappingFlags {
    MappingFlags::from_bits(bits)
}

#[test]
fn page_table_entry_mapping_flags_debug_and_bit_rules_hold() {
    let flags = flags(MAP_READ | MAP_WRITE | MAP_USER);
    assert!(flags.contains(MAP_READ));
    assert!(flags.contains(MAP_WRITE));
    assert!(flags.contains(MAP_USER));
    assert!(!flags.contains(MAP_EXECUTE));
    let debug = flags.describe();
    assert!(debug.contains("READ"));
    assert!(debug.contains("WRITE"));
    assert!(debug.contains("USER"));
    assert_eq!(flags.bits(), 0b1011);
}

#[test]
fn mapping_flags_are_named_in_order() {
    assert_eq!(flags(0).describe(), "");
    assert_eq!(flags(MAP_EXECUTE).describe(), "EXECUTE");
    assert_eq!(
        flags(0x3f).describe(),
        "READ | WRITE | EXECUTE | USER | DEVICE | UNCACHED"
    );
}

#[test]
fn page_table_entry_riscv_svpbmt_uncached_encodes_pbmt_nc() {
    let pte = Rv64PTE::new_page(0x1234_5000, flags(MAP_READ | MAP_WRITE | MAP_UNCACHED), false);
    let pbmt = (pte.bits() >> 61) & 0b11;
    assert_eq!(pbmt, 0b01);
    let flags = pte.flags();
    assert!(flags.contains(MAP_UNCACHED));
    assert!(!flags.contains(MAP_DEVICE));
    assert_eq!(pte.paddr(), 0x1234_5000);
    assert!(flags.contains(MAP_READ));
    assert!(flags.contains(MAP_WRITE));
}

#[test]
fn page_table_entry_riscv_svpbmt_device_encodes_pbmt_io() {
    let pte = Rv64PTE::new_page(0x1234_6000, flags(MAP_READ | MAP_WRITE | MAP_DEVICE), false);
    let pbmt = (pte.bits() >> 61) & 0b11;
    assert_eq!(pbmt, 0b10);
    let flags = pte.flags();
    assert!(flags.contains(MAP_DEVICE));
    assert!(!flags.contains(MAP_UNCACHED));
    assert_eq!(pte.paddr(), 0x1234_6000);
}

#[test]
fn page_table_entry_riscv_svpbmt_absent_keeps_pbmt_pma() {
    let pte = Rv64PTE::new_page(0x1234_7000, flags(MAP_READ | MAP_WRITE), false);
    let pbmt = (pte.bits() >> 61) & 0b11;
    assert_eq!(pbmt, 0b00);
    let flags = pte.flags();
    assert!(!flags.contains(MAP_UNCACHED));
    assert!(!flags.contains(MAP_DEVICE));
}

#[test]
fn page_table_entry_x64_flags_roundtrip_and_empty_rules_hold() {
    assert_eq!(flags_from_ptf(0), MappingFlags::empty());

    let rwu = flags(MAP_READ | MAP_WRITE | MAP_USER);
    let pt_flags = ptf_from_flags(rwu);
    assert!(pt_flags & PTF_PRESENT != 0);
    assert!(pt_flags & PTF_WRITABLE != 0);
    assert!(pt_flags & PTF_USER_ACCESSIBLE != 0);
    assert!(pt_flags & PTF_NO_EXECUTE != 0);
    assert_eq!(flags_from_ptf(pt_flags), rwu);

    let executable = ptf_from_flags(flags(MAP_READ | MAP_EXECUTE));
    assert!(executable & PTF_NO_EXECUTE == 0);
    let device = ptf_from_flags(flags(MAP_READ | MAP_DEVICE));
    assert!(device & PTF_NO_CACHE != 0);
    assert!(device & PTF_WRITE_THROUGH != 0);
}

#[test]
fn page_table_entry_x64_pte_lifecycle_rules_hold() {
    let mut entry = X64PTE::empty();
    assert!(entry.is_unused());
    assert!(!entry.is_present());
    assert!(!entry.is_huge());

    entry = X64PTE::new_page(0x1234_5000, flags(MAP_READ | MAP_WRITE), true);
    assert!(entry.is_present());
    assert!(entry.is_huge());
    assert_eq!(entry.paddr(), 0x1234_5000);
    assert!(entry.flags().contains(MAP_READ));
    assert!(entry.flags().contains(MAP_WRITE));

    entry.set_paddr(0x2000_0000);
    entry.set_flags(flags(MAP_READ | MAP_EXECUTE | MAP_USER), false);
    assert_eq!(entry.paddr(), 0x2000_0000);
    assert!(!entry.is_huge());
    assert!(entry.flags().contains(MAP_EXECUTE));
    assert!(entry.flags().contains(MAP_USER));
    assert!(entry.bits() != 0);
    assert!(format!("{entry:?}").contains("X64PTE"));

    let table = X64PTE::new_table(0x3000_0000);
    assert!(table.is_present());
    assert!(!table.is_huge());
    assert_eq!(table.paddr(), 0x3000_0000);

    entry.clear();
    assert!(entry.is_unused());
}
