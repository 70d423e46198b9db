use std::collections::HashMap;

use riscv_monitor::csr::Hart;
use riscv_monitor::mmu::{sv32_to_phys, sv39_to_phys, sv48_to_phys, supervisor_addr_to_phys};
use riscv_monitor::physmem::{protect, AccessPermissions};

const RAM: u64 = 0x8000_0000;
const RAM_END: u64 = 0x9000_0000;
const ROOT: u64 = 0x8000_1000;
const SV39: u64 = 8 << 60;
const SV48: u64 = 9 << 60;

const V: u64 = 1;
const R: u64 = 2;
const W: u64 = 4;
const X: u64 = 8;

fn guest(satp: u64) -> Hart {
    let mut hart = Hart::new();
    assert!(protect(&mut hart, 0, RAM, RAM_END, AccessPermissions::ReadWriteExecute));
    hart.satp = satp;
    hart
}

fn leaf(page: u64, flags: u64) -> u64 {
    (page << 10) | flags
}

fn walk(hart: &Hart, memory: &HashMap<u64, u64>, vaddr: u64) -> Option<u64> {
    supervisor_addr_to_phys(hart, vaddr, |addr| {
        assert!(addr >= RAM && addr + 8 <= RAM_END, "read outside the guest at {:x}", addr);
        *memory.get(&addr).unwrap_or(&0)
    })
}

#[test]
fn leaf_in_the_root_table() {
    let hart = guest(SV39 | (ROOT >> 12));
    let page = 0x8_0000;
    let mut memory = HashMap::new();
    memory.insert(ROOT, leaf(page, V | R));
    assert_eq!(walk(&hart, &memory, 0), Some(page << 12));
    assert_eq!(page << 12, 0x8000_0000);
    assert_eq!(walk(&hart, &memory, 0x1234_5678), Some(0x9234_5678));
    assert_eq!(walk(&hart, &memory, 0x3fff_ffff), Some(0xbfff_ffff));
    assert_eq!(walk(&hart, &memory, 0x4000_0000), None);
}

#[test]
fn write_only_leaf_is_reserved() {
    let hart = guest(SV39 | (ROOT >> 12));
    let mut memory = HashMap::new();
    memory.insert(ROOT, leaf(0x8_0000, V | W));
    assert_eq!(walk(&hart, &memory, 0), None);
    memory.insert(ROOT, leaf(0x8_0000, V | X));
    assert_eq!(walk(&hart, &memory, 0), Some(0x8000_0000));
    memory.insert(ROOT, leaf(0x8_0000, V | W | X));
    assert_eq!(walk(&hart, &memory, 0), Some(0x8000_0000));
    memory.insert(ROOT, leaf(0x8_0000, V | R | W));
    assert_eq!(walk(&hart, &memory, 0), Some(0x8000_0000));
}

#[test]
fn invalid_entry_has_no_mapping() {
    let hart = guest(SV39 | (ROOT >> 12));
    let mut memory = HashMap::new();
    memory.insert(ROOT, leaf(0x8_0000, R | X));
    assert_eq!(walk(&hart, &memory, 0), None);
    assert_eq!(walk(&hart, &HashMap::new(), 0), None);
}

#[test]
fn misaligned_superpage_has_no_mapping() {
    let hart = guest(SV39 | (ROOT >> 12));
    let mut memory = HashMap::new();
    memory.insert(ROOT, leaf(1, V | R));
    assert_eq!(walk(&hart, &memory, 0), None);
    memory.insert(ROOT, leaf(0x8_0200, V | R));
    assert_eq!(walk(&hart, &memory, 0), None);
}

#[test]
fn three_levels_down_to_a_page() {
    let hart = guest(SV39 | (ROOT >> 12));
    let middle = 0x8000_2000u64;
    let last = 0x8000_3000u64;
    let vaddr: u64 = (3 << 30) | (5 << 21) | (7 << 12) | 0xabc;
    let mut memory = HashMap::new();
    memory.insert(ROOT + 3 * 8, leaf(middle >> 12, V));
    memory.insert(middle + 5 * 8, leaf(last >> 12, V));
    memory.insert(last + 7 * 8, leaf(0x8_1234, V | R | X));
    assert_eq!(walk(&hart, &memory, vaddr), Some(0x8123_4abc));
    assert_eq!(walk(&hart, &memory, vaddr | (0xffff << 39)), Some(0x8123_4abc));
    assert_eq!(walk(&hart, &memory, vaddr + 0x1000), None);
}

#[test]
fn two_megabyte_page() {
    let hart = guest(SV39 | (ROOT >> 12));
    let middle = 0x8000_2000u64;
    let vaddr: u64 = (1 << 30) | (2 << 21) | 0x1f_f123;
    let mut memory = HashMap::new();
    memory.insert(ROOT + 8, leaf(middle >> 12, V));
    memory.insert(middle + 2 * 8, leaf(0x8_2200, V | R));
    assert_eq!(walk(&hart, &memory, vaddr), Some(0x8220_0000 | 0x1f_f123));
    memory.insert(middle + 2 * 8, leaf(0x8_2201, V | R));
    assert_eq!(walk(&hart, &memory, vaddr), None);
}

#[test]
fn pointer_at_the_last_level_has_no_mapping() {
    let hart = guest(SV39 | (ROOT >> 12));
    let middle = 0x8000_2000u64;
    let last = 0x8000_3000u64;
    let mut memory = HashMap::new();
    memory.insert(ROOT, leaf(middle >> 12, V));
    memory.insert(middle, leaf(last >> 12, V));
    memory.insert(last, leaf(0x8_0004, V));
    assert_eq!(walk(&hart, &memory, 0), None);
}

#[test]
fn tables_outside_the_guest_are_never_read() {
    let outside = 0x7000_0000u64;
    let hart = guest(SV39 | (outside >> 12));
    let refuse = |addr: u64| -> u64 { panic!("read at {:x}", addr) };
    assert_eq!(supervisor_addr_to_phys(&hart, 0, refuse), None);

    let hart = guest(SV39 | (ROOT >> 12));
    let mut memory = HashMap::new();
    memory.insert(ROOT, leaf(outside >> 12, V));
    assert_eq!(walk(&hart, &memory, 0), None);
}

#[test]
fn table_must_lie_in_one_region() {
    let mut hart = Hart::new();
    assert!(protect(&mut hart, 0, 0x1000, 0x1800, AccessPermissions::Read));
    assert!(protect(&mut hart, 1, 0x1c00, 0x3000, AccessPermissions::Read));
    hart.satp = SV39 | 1;
    let refuse = |addr: u64| -> u64 { panic!("read at {:x}", addr) };
    assert_eq!(supervisor_addr_to_phys(&hart, 0, refuse), None);
}

#[test]
fn bare_mode_is_the_identity_inside_the_guest() {
    let hart = guest(0);
    let refuse = |addr: u64| -> u64 { panic!("read at {:x}", addr) };
    for x in [RAM, RAM + 1, 0x8800_0000, RAM_END - 1] {
        assert_eq!(supervisor_addr_to_phys(&hart, x, refuse), Some(x));
    }
    for x in [0, RAM - 1, RAM_END, u64::MAX] {
        assert_eq!(supervisor_addr_to_phys(&hart, x, refuse), None);
    }
    let hart = guest(ROOT >> 12);
    assert_eq!(supervisor_addr_to_phys(&hart, 0x8800_0000, refuse), Some(0x8800_0000));
}

#[test]
fn other_modes_have_no_mapping() {
    let mut memory = HashMap::new();
    memory.insert(ROOT, leaf(0x8_0000, V | R));
    let hart = guest(SV48 | (ROOT >> 12));
    assert_eq!(walk(&hart, &memory, 0), None);
    for mode in [1u64, 2, 7, 10, 15] {
        let hart = guest((mode << 60) | (ROOT >> 12));
        assert_eq!(walk(&hart, &memory, 0x8800_0000), None);
    }
    assert_eq!(sv32_to_phys(ROOT, 0), None);
    assert_eq!(sv48_to_phys(ROOT, 0), None);
}

#[test]
fn modes_that_are_not_walked_read_nothing() {
    let refuse = |addr: u64| -> u64 { panic!("read at {:x}", addr) };
    for mode in [1u64, 2, 3, 4, 5, 6, 7, 9, 10, 11, 12, 13, 14, 15] {
        let hart = guest((mode << 60) | (ROOT >> 12));
        for saddr in [0u64, RAM, 0x8800_0000, u64::MAX] {
            assert_eq!(supervisor_addr_to_phys(&hart, saddr, refuse), None);
        }
    }
}

#[test]
fn root_table_outside_the_guest_reads_nothing() {
    let refuse = |addr: u64| -> u64 { panic!("read at {:x}", addr) };
    let hart = guest(0);
    for table in [0u64, RAM - 0x1000, RAM - 1, RAM_END - 0xfff, RAM_END, u64::MAX - 0xfff] {
        assert_eq!(sv39_to_phys(&hart, table, 0, refuse), None);
        assert_eq!(sv39_to_phys(&hart, table, 0x8800_0000, refuse), None);
    }
}

#[test]
fn walk_from_a_given_table() {
    let hart = guest(0);
    let mut memory = HashMap::new();
    memory.insert(ROOT + 511 * 8, leaf(5 << 18, V | X));
    let read = |addr: u64| *memory.get(&addr).unwrap_or(&0);
    assert_eq!(sv39_to_phys(&hart, ROOT, 511 << 30, read), Some(0x1_4000_0000));
    assert_eq!(sv39_to_phys(&hart, u64::MAX - 0x10, 0, read), None);
    assert_eq!(sv39_to_phys(&hart, 0x8fff_f800, 0, read), None);
}
