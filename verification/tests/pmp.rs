use riscv_monitor::csr::Hart;
use riscv_monitor::physmem::{
    barrier, hypervisor_footprint, pmp_protect, protect, read_pmpcfg, tlb_flush,
    validate_phys_addr, validate_phys_range, validate_ram, write_pmp_addr, write_pmp_entry,
    write_pmpcfg, AccessPermissions, PhysRAMState, RAMArea,
};

#[test]
fn protect_then_validate() {
    let mut hart = Hart::new();
    assert!(protect(&mut hart, 0, 0x8000_0000, 0x9000_0000, AccessPermissions::ReadWriteExecute));
    assert_eq!(validate_phys_addr(&hart, 0x8800_0000), Some(0x8800_0000));
    assert_eq!(validate_phys_addr(&hart, 0x9000_0001), None);
    assert_eq!(validate_phys_addr(&hart, 0x8000_0000), Some(0x8000_0000));
    assert_eq!(validate_phys_addr(&hart, 0x8fff_ffff), Some(0x8fff_ffff));
    assert_eq!(validate_phys_addr(&hart, 0x9000_0000), None);
    assert_eq!(validate_phys_addr(&hart, 0x7fff_ffff), None);
    assert_eq!(validate_phys_addr(&hart, 0), None);
    assert_eq!(validate_phys_addr(&hart, u64::MAX), None);
}

#[test]
fn protect_programs_the_pair_of_entries() {
    let mut hart = Hart::new();
    assert!(protect(&mut hart, 0, 0x8000_0000, 0x9000_0000, AccessPermissions::ReadWriteExecute));
    assert_eq!(hart.pmpaddr[0], 0x2000_0000);
    assert_eq!(hart.pmpaddr[1], 0x2400_0000);
    assert_eq!(hart.pmpcfg0, 0x0f00);
    assert_eq!(hart.pmpcfg2, 0);
    assert!(hart.tlb_flush_pending);

    let mut hart = Hart::new();
    assert!(protect(&mut hart, 1, 0x1000, 0x2000, AccessPermissions::Read));
    assert_eq!(hart.pmpcfg0, 0x0900_0000);
    assert_eq!((hart.pmpaddr[2], hart.pmpaddr[3]), (0x400, 0x800));
    let mut hart = Hart::new();
    assert!(protect(&mut hart, 2, 0x1000, 0x2000, AccessPermissions::ReadWrite));
    assert_eq!(hart.pmpcfg0, 0x0b00_0000_0000);
    let mut hart = Hart::new();
    assert!(protect(&mut hart, 3, 0x1000, 0x2000, AccessPermissions::ReadExecute));
    assert_eq!(hart.pmpcfg0, 0x0d00_0000_0000_0000);
}

#[test]
fn upper_regions_use_the_second_configuration_register() {
    for region in 4..8usize {
        let mut hart = Hart::new();
        let base = 0x1_0000 * (region as u64 + 1);
        assert!(protect(&mut hart, region, base, base + 0x1000, AccessPermissions::ReadWrite));
        assert_eq!(hart.pmpcfg0, 0);
        assert_eq!(hart.pmpcfg2, 0x0b00u64 << (16 * (region - 4)));
        assert_eq!(hart.pmpaddr[2 * region], base >> 2);
        assert_eq!(hart.pmpaddr[2 * region + 1], (base + 0x1000) >> 2);
        assert_eq!(validate_phys_addr(&hart, base + 0x10), Some(base + 0x10));
        assert_eq!(validate_phys_addr(&hart, base + 0x1000), None);
    }
}

#[test]
fn protect_refuses_bad_regions_and_bounds() {
    let mut hart = Hart::new();
    hart.pmpcfg0 = 0x1122;
    let before = hart;
    assert!(!protect(&mut hart, 8, 0x1000, 0x2000, AccessPermissions::Read));
    assert!(!protect(&mut hart, usize::MAX, 0x1000, 0x2000, AccessPermissions::Read));
    assert!(!pmp_protect(&mut hart, 0, 0x2000, 0x1000, AccessPermissions::Read));
    assert_eq!(hart.pmpcfg0, before.pmpcfg0);
    assert_eq!(hart.pmpaddr, before.pmpaddr);
    assert!(!hart.tlb_flush_pending);
    assert!(pmp_protect(&mut hart, 7, 0x2000, 0x2000, AccessPermissions::Read));
    assert_eq!(validate_phys_addr(&hart, 0x2000), None);
}

#[test]
fn no_access_region_validates_nothing() {
    let mut hart = Hart::new();
    assert!(protect(&mut hart, 0, 0x8000_0000, 0x9000_0000, AccessPermissions::NoAccess));
    assert_eq!(hart.pmpcfg0, 0x0800);
    assert_eq!(validate_phys_addr(&hart, 0x8800_0000), None);
}

#[test]
fn reprotecting_replaces_the_region_and_keeps_the_others() {
    let mut hart = Hart::new();
    assert!(protect(&mut hart, 0, 0x8000_0000, 0x9000_0000, AccessPermissions::ReadWrite));
    assert!(protect(&mut hart, 5, 0x4000_0000, 0x4000_1000, AccessPermissions::Read));
    assert!(protect(&mut hart, 0, 0xa000_0000, 0xa000_1000, AccessPermissions::ReadExecute));
    assert_eq!(validate_phys_addr(&hart, 0x8800_0000), None);
    assert_eq!(validate_phys_addr(&hart, 0xa000_0800), Some(0xa000_0800));
    assert_eq!(validate_phys_addr(&hart, 0x4000_0800), Some(0x4000_0800));
    assert_eq!(hart.pmpcfg0, 0x0d00);
    assert_eq!(hart.pmpcfg2, 0x0900_0000);
}

#[test]
fn unaligned_end_is_rounded_down_to_a_word() {
    let mut hart = Hart::new();
    assert!(protect(&mut hart, 0, 0x8000_0000, 0x9000_0002, AccessPermissions::Read));
    assert_eq!(validate_phys_addr(&hart, 0x8fff_ffff), Some(0x8fff_ffff));
    assert_eq!(validate_phys_addr(&hart, 0x9000_0001), None);
}

#[test]
fn range_validation_needs_one_region_for_all_bytes() {
    let mut hart = Hart::new();
    assert!(protect(&mut hart, 0, 0x1000, 0x2000, AccessPermissions::Read));
    assert!(protect(&mut hart, 1, 0x3000, 0x4000, AccessPermissions::Read));
    assert!(validate_phys_range(&hart, 0x1000, 0x1000));
    assert!(validate_phys_range(&hart, 0x1ff8, 8));
    assert!(!validate_phys_range(&hart, 0x1ff8, 9));
    assert!(!validate_phys_range(&hart, 0x1000, 0));
    assert!(!validate_phys_range(&hart, 0x1800, 0x2000));
    assert!(!validate_phys_range(&hart, 0x1000, 0x3000));
    assert!(!validate_phys_range(&hart, u64::MAX, 2));
    assert!(!validate_phys_range(&hart, 0x1000, u64::MAX));
}

#[test]
fn configuration_registers_by_index() {
    let mut hart = Hart::new();
    write_pmpcfg(&mut hart, 0, 0x11);
    write_pmpcfg(&mut hart, 1, 0x22);
    write_pmpcfg(&mut hart, 2, 0x33);
    write_pmpcfg(&mut hart, 3, 0x44);
    write_pmpcfg(&mut hart, 4, 0x55);
    assert_eq!(read_pmpcfg(&hart, 0), 0x11);
    assert_eq!(read_pmpcfg(&hart, 1), 0);
    assert_eq!(read_pmpcfg(&hart, 2), 0x33);
    assert_eq!(read_pmpcfg(&hart, 3), 0);
    assert_eq!(read_pmpcfg(&hart, 4), 0);
    assert_eq!((hart.pmpcfg0, hart.pmpcfg2), (0x11, 0x33));
}

#[test]
fn address_registers_by_index() {
    let mut hart = Hart::new();
    for register in 0..20usize {
        write_pmp_addr(&mut hart, register, 0x100 + register as u64);
    }
    for register in 0..16usize {
        assert_eq!(hart.pmpaddr[register], 0x100 + register as u64);
    }
}

#[test]
fn entry_write_keeps_the_other_entries() {
    let mut hart = Hart::new();
    hart.pmpcfg0 = 0x8877_6655_4433_2211;
    hart.pmpcfg2 = 0x0102_0304_0506_0708;
    write_pmp_entry(&mut hart, 2, 0x1ab);
    assert_eq!(hart.pmpcfg0, 0x8877_6655_44ab_2211);
    assert_eq!(hart.pmpcfg2, 0x0102_0304_0506_0708);
    write_pmp_entry(&mut hart, 15, 0xee);
    assert_eq!(hart.pmpcfg2, 0xee02_0304_0506_0708);
    write_pmp_entry(&mut hart, 8, 0);
    assert_eq!(hart.pmpcfg2, 0xee02_0304_0506_0700);
    write_pmp_entry(&mut hart, 16, 0xff);
    write_pmp_entry(&mut hart, usize::MAX, 0xff);
    assert_eq!(hart.pmpcfg0, 0x8877_6655_44ab_2211);
    assert_eq!(hart.pmpcfg2, 0xee02_0304_0506_0700);
}

#[test]
fn barriers_are_recorded() {
    let mut hart = Hart::new();
    barrier(&mut hart);
    assert!(hart.io_fence_pending && !hart.tlb_flush_pending);
    tlb_flush(&mut hart);
    assert!(hart.io_fence_pending && hart.tlb_flush_pending);
    assert!(!hart.instruction_fence_pending);
}

#[test]
fn snapshot_of_memory_registers() {
    let mut hart = Hart::new();
    hart.pmpcfg0 = 1;
    hart.pmpcfg2 = 2;
    hart.pmpaddr = [10, 11, 12, 13, 14, 15, 16, 17, 18, 19, 20, 21, 22, 23, 24, 25];
    hart.satp = 3;
    hart.sstatus = 4;
    hart.stvec = 5;
    let state = PhysRAMState::new(&hart);
    assert_eq!(
        state,
        PhysRAMState {
            pmpcfg0: 1,
            pmpcfg1: 0,
            pmpcfg2: 2,
            pmpcfg3: 0,
            pmpaddr0: 10,
            pmpaddr1: 11,
            pmpaddr2: 12,
            pmpaddr3: 13,
            satp: 3,
            sstatus: 4,
            stvec: 5,
        }
    );
}

fn collect(cpus: usize, block: RAMArea, start: u64, end: u64) -> Vec<RAMArea> {
    let mut areas = validate_ram(cpus, block, start, end);
    let mut found = Vec::new();
    for _ in 0..8 {
        match areas.next() {
            Some(area) => found.push(area),
            None => break,
        }
    }
    assert_eq!(areas.next(), None);
    found
}

#[test]
fn footprint_includes_the_per_core_areas() {
    assert_eq!(hypervisor_footprint(0, 0x8000_0000, 0x8010_0000), (0x8000_0000, 0x8010_0000));
    assert_eq!(hypervisor_footprint(4, 0x8000_0000, 0x8010_0000), (0x8000_0000, 0x8050_0000));
}

#[test]
fn ram_around_a_footprint_in_the_middle() {
    let block = RAMArea { base: 0x8000_0000, size: 0x1000_0000 };
    let found = collect(2, block, 0x8100_0000, 0x8120_0000);
    assert_eq!(
        found,
        vec![
            RAMArea { base: 0x8000_0000, size: 0x0100_0000 },
            RAMArea { base: 0x8140_0000, size: 0x0ec0_0000 },
        ]
    );
}

#[test]
fn ram_with_the_footprint_at_its_base() {
    let block = RAMArea { base: 0x8000_0000, size: 0x1000_0000 };
    let found = collect(1, block, 0x8000_0000, 0x8020_0000);
    assert_eq!(found, vec![RAMArea { base: 0x8030_0000, size: 0x0fd0_0000 }]);
}

#[test]
fn ram_with_the_footprint_at_its_end() {
    let block = RAMArea { base: 0x8000_0000, size: 0x1000_0000 };
    let found = collect(1, block, 0x8fe0_0000, 0x8ff0_0000);
    assert_eq!(found, vec![RAMArea { base: 0x8000_0000, size: 0x0fe0_0000 }]);
}

#[test]
fn ram_apart_from_the_footprint() {
    let block = RAMArea { base: 0x8000_0000, size: 0x1000_0000 };
    assert_eq!(collect(0, block, 0xa000_0000, 0xa010_0000), vec![block]);
    assert_eq!(collect(0, block, 0x1000_0000, 0x1010_0000), vec![block]);
}

#[test]
fn ram_all_under_the_footprint() {
    let block = RAMArea { base: 0x8000_0000, size: 0x0010_0000 };
    assert_eq!(collect(1, block, 0x7000_0000, 0x9000_0000), vec![]);
    let empty = RAMArea { base: 0x8000_0000, size: 0 };
    assert_eq!(collect(1, empty, 0x1000, 0x2000), vec![]);
}

#[test]
fn ram_block_at_the_top_of_the_address_space() {
    let block = RAMArea { base: u64::MAX - 0xfff, size: 0xfff };
    assert_eq!(collect(0, block, 0x1000, 0x2000), vec![block]);
}
