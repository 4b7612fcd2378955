use page_table_entry::{GenericPTE, MappingFlags, PTEFlags, PhysAddr, Rv64PTE};

fn flags(bits: usize) -> MappingFlags {
    MappingFlags(bits)
}

#[test]
fn new_page_packs_address_and_flags() {
    let e = Rv64PTE::new_page(
        PhysAddr::from_usize(0x8020_0000),
        flags(MappingFlags::READ | MappingFlags::WRITE),
        false,
    );
    assert_eq!(e.bits() & 0xff, 0xc7);
    assert_eq!(e.paddr().as_usize(), 0x8020_0000);
    assert_eq!(e.flags(), flags(MappingFlags::READ | MappingFlags::WRITE));
    assert_eq!(e.bits(), 0xc7 | (0x8020_0000 >> 2));
    assert!(e.is_present());
    assert!(e.is_dirty());
    assert!(e.is_accessed());
    assert!(e.is_huge());
    assert!(!e.is_unused());
}

#[test]
fn new_table_has_no_flags() {
    let e = Rv64PTE::new_table(PhysAddr::from_usize(0x8010_0000));
    assert_eq!(e.flags(), MappingFlags::empty());
    assert!(!e.is_huge());
    assert!(e.is_present());
    assert_eq!(e.bits() & 0x3ff, PTEFlags::V);
    assert_eq!(e.bits() & (PTEFlags::R | PTEFlags::W | PTEFlags::X | PTEFlags::U), 0);
    assert_eq!(e.paddr().as_usize(), 0x8010_0000);
}

#[test]
fn mark_cow_replaces_write() {
    let cow = MappingFlags::mark_cow(flags(MappingFlags::READ | MappingFlags::WRITE));
    assert_eq!(cow, flags(MappingFlags::READ | MappingFlags::COW));
    let e = Rv64PTE::new_page(PhysAddr::from_usize(0x8020_0000), cow, false);
    assert_eq!(e.flags(), cow);
    assert_eq!(e.bits() & 0x3ff, 0x1c3);
}

#[test]
fn mark_cow_without_write_is_unchanged() {
    let f = flags(MappingFlags::READ | MappingFlags::EXECUTE | MappingFlags::USER);
    assert_eq!(MappingFlags::mark_cow(f), f);
    assert_eq!(MappingFlags::mark_cow(MappingFlags::empty()), MappingFlags::empty());
}

#[test]
fn protect_keeps_cow_device_and_user() {
    let original = flags(MappingFlags::READ | MappingFlags::COW | MappingFlags::DEVICE | MappingFlags::USER);
    let new = flags(MappingFlags::READ | MappingFlags::EXECUTE);
    assert_eq!(
        original.protect(new),
        flags(
            MappingFlags::READ
                | MappingFlags::EXECUTE
                | MappingFlags::COW
                | MappingFlags::DEVICE
                | MappingFlags::USER
        )
    );
    let plain = flags(MappingFlags::READ | MappingFlags::WRITE | MappingFlags::UNCACHED);
    assert_eq!(plain.protect(new), new);
}

#[test]
fn paddr_round_trips_for_aligned_addresses() {
    for addr in [0usize, 0x1000, 0x8020_0000, 0x1234_5678_9000, 0x00ff_ffff_ffff_f000] {
        let e = Rv64PTE::new_page(PhysAddr::from_usize(addr), flags(MappingFlags::READ), false);
        assert_eq!(e.paddr().as_usize(), addr);
        let t = Rv64PTE::new_table(PhysAddr::from_usize(addr));
        assert_eq!(t.paddr().as_usize(), addr);
    }
}

#[test]
fn paddr_bits_outside_the_field_are_dropped() {
    let mut e = Rv64PTE::new_page(PhysAddr::from_usize(0x8020_0000), flags(MappingFlags::READ), false);
    let before = e.bits() & 0x3ff;
    e.set_paddr(PhysAddr::from_usize((1usize << 60) | 0x4000_1003));
    assert_eq!(e.paddr().as_usize(), 0x4000_1000);
    assert_eq!(e.bits() & 0x3ff, before);
    assert_eq!(e.flags(), flags(MappingFlags::READ));
}

#[test]
fn flags_round_trip_through_hardware_bits() {
    let all_kept = MappingFlags::READ
        | MappingFlags::WRITE
        | MappingFlags::EXECUTE
        | MappingFlags::USER
        | MappingFlags::COW;
    for bits in 0..=MappingFlags::ALL {
        let f = flags(bits);
        let back = MappingFlags::from(PTEFlags::from(f));
        assert_eq!(back, flags(bits & all_kept));
    }
}

#[test]
fn device_and_uncached_are_not_encoded() {
    let f = flags(MappingFlags::READ | MappingFlags::DEVICE | MappingFlags::UNCACHED);
    let e = Rv64PTE::new_page(PhysAddr::from_usize(0x1000), f, false);
    assert_eq!(e.flags(), flags(MappingFlags::READ));
}

#[test]
fn empty_flags_encode_without_valid_bit() {
    assert_eq!(PTEFlags::from(MappingFlags::empty()).bits(), 0);
    let only_device = PTEFlags::from(flags(MappingFlags::DEVICE));
    assert_eq!(only_device.bits(), PTEFlags::V);
}

#[test]
fn invalid_hardware_flags_decode_to_empty() {
    let hw = PTEFlags(
        PTEFlags::R | PTEFlags::W | PTEFlags::X | PTEFlags::U | PTEFlags::A | PTEFlags::D | PTEFlags::RSW1,
    );
    assert_eq!(MappingFlags::from(hw), MappingFlags::empty());
    let mut e = Rv64PTE::empty();
    e.set_flags_arch(hw);
    assert!(!e.is_present());
    assert_eq!(e.flags(), MappingFlags::empty());
}

#[test]
fn clear_makes_entry_unused() {
    let mut e = Rv64PTE::new_page(PhysAddr::from_usize(0x8020_0000), flags(MappingFlags::READ), false);
    assert!(!e.is_unused());
    e.clear();
    assert!(e.is_unused());
    assert!(!e.is_present());
    assert_eq!(e.bits(), 0);
}

#[test]
fn empty_entry_is_unused_and_not_present() {
    let e = Rv64PTE::empty();
    assert!(e.is_unused());
    assert!(!e.is_present());
    assert_eq!(e.flags(), MappingFlags::empty());
    assert_eq!(e.bits(), 0);
}

#[test]
fn dirty_and_accessed_are_independent() {
    let mut e = Rv64PTE::new_page(PhysAddr::from_usize(0x8020_0000), flags(MappingFlags::READ), false);
    let raw = e.bits();
    e.set_dirty(false);
    assert!(!e.is_dirty());
    assert!(e.is_accessed());
    assert_eq!(e.bits(), raw & !PTEFlags::D);
    e.set_accessed(false);
    assert!(!e.is_accessed());
    assert!(!e.is_dirty());
    assert_eq!(e.bits(), raw & !(PTEFlags::A | PTEFlags::D));
    e.set_dirty(true);
    assert!(e.is_dirty());
    assert!(!e.is_accessed());
    e.set_accessed(true);
    assert_eq!(e.bits(), raw);
    assert_eq!(e.paddr().as_usize(), 0x8020_0000);
    assert_eq!(e.flags(), flags(MappingFlags::READ));
}

#[test]
fn set_flags_keeps_address() {
    let mut e = Rv64PTE::new_table(PhysAddr::from_usize(0x8010_0000));
    e.set_flags(flags(MappingFlags::READ | MappingFlags::EXECUTE | MappingFlags::USER), true);
    assert_eq!(e.paddr().as_usize(), 0x8010_0000);
    assert_eq!(e.flags(), flags(MappingFlags::READ | MappingFlags::EXECUTE | MappingFlags::USER));
    assert_eq!(e.bits() & 0x3ff, 0xdb);
    assert!(e.is_huge());
}

#[test]
fn set_flags_arch_keeps_address() {
    let mut e = Rv64PTE::new_page(PhysAddr::from_usize(0x8020_0000), flags(MappingFlags::READ), false);
    e.set_flags_arch(PTEFlags(PTEFlags::V | PTEFlags::G | 0x400));
    assert_eq!(e.paddr().as_usize(), 0x8020_0000);
    assert_eq!(e.bits() & 0x3ff, PTEFlags::V | PTEFlags::G);
    assert!(!e.is_huge());
}

#[test]
fn permissions_as_text() {
    assert_eq!(flags(MappingFlags::READ | MappingFlags::WRITE).to_string(), "rw-");
    assert_eq!(flags(MappingFlags::EXECUTE | MappingFlags::USER).to_string(), "--x");
    assert_eq!(MappingFlags::empty().to_string(), "---");
}

#[test]
fn flag_set_operations() {
    let mut f = MappingFlags::from_bits_truncate(0xff);
    assert_eq!(f.bits(), MappingFlags::ALL);
    assert!(f.contains(flags(MappingFlags::READ | MappingFlags::COW)));
    f.remove(flags(MappingFlags::WRITE));
    assert!(!f.contains(flags(MappingFlags::WRITE)));
    f.insert(flags(MappingFlags::WRITE));
    assert_eq!(f.bits(), MappingFlags::ALL);
    assert!(MappingFlags::empty().is_empty());
    assert_eq!(
        flags(MappingFlags::READ).union(flags(MappingFlags::USER)).intersection(flags(MappingFlags::USER)),
        flags(MappingFlags::USER)
    );
    assert_eq!(PTEFlags::from_bits_truncate(0xfff).bits(), PTEFlags::ALL);
    assert!(PTEFlags(PTEFlags::R).intersects(PTEFlags(PTEFlags::R | PTEFlags::X)));
}
