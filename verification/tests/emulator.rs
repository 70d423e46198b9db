use std::collections::HashMap;

use riscv_monitor::cpu::PrivilegeMode;
use riscv_monitor::csr::Hart;
use riscv_monitor::instructions::{
    emulate, emulate_instruction, emulate_with_timer, increment_epc, locate_instruction,
    EmulationResult,
};
use riscv_monitor::irq::IRQContext;
use riscv_monitor::physmem::{protect, AccessPermissions};
use riscv_monitor::timer::{Clint, PinnedTimer, Timer};

const RAM: u64 = 0x8000_0000;
const RAM_END: u64 = 0x9000_0000;
const PC: u64 = 0x8020_0000;
const RDTIME_T0: u32 = 0xc010_22f3;
const WFI: u32 = 0x1050_0073;

fn guest() -> Hart {
    let mut hart = Hart::new();
    assert!(protect(&mut hart, 0, RAM, RAM_END, AccessPermissions::ReadWriteExecute));
    hart.tlb_flush_pending = false;
    hart.mepc = PC;
    hart.mstatus = 1 << 11;
    hart
}

fn context() -> IRQContext {
    let mut context = IRQContext { registers: [0; 32] };
    for k in 0..32 {
        context.registers[k] = 0x100 + k as u64;
    }
    context
}

fn no_tables(addr: u64) -> u64 {
    panic!("page table read at {:x}", addr)
}

#[test]
fn read_time_writes_the_counter_into_the_destination() {
    let slot = PinnedTimer::new();
    Timer::new(10_000_000, 0x200_0000).pin(&slot);
    let clint = Clint { time: 0x1122_3344_5566, target: 0 };
    let mut hart = guest();
    let mut context = context();
    let before = context;
    let result = emulate(
        PrivilegeMode::Supervisor,
        &mut context,
        &mut hart,
        &slot,
        &clint,
        no_tables,
        |pc| {
            assert_eq!(pc, PC);
            RDTIME_T0
        },
    );
    assert_eq!(result, EmulationResult::Success);
    assert_eq!(context.registers[5], 0x1122_3344_5566);
    for k in 0..32 {
        if k != 5 {
            assert_eq!(context.registers[k], before.registers[k]);
        }
    }
    assert_eq!(hart.mepc, PC + 4);
}

#[test]
fn read_time_into_every_register() {
    let clint = Clint { time: 42, target: 0 };
    let timer = Some(Timer::new(1, 0));
    for rd in 0..32u32 {
        let mut hart = guest();
        let mut context = context();
        let instruction = 0xc010_2073 | (rd << 7);
        let result = emulate_instruction(instruction, timer, &clint, &mut context, &mut hart);
        assert_eq!(result, EmulationResult::Success);
        assert_eq!(context.registers[rd as usize], 42);
        assert_eq!(hart.mepc, PC + 4);
    }
}

#[test]
fn read_time_without_a_pinned_timer_cannot_be_emulated() {
    let slot = PinnedTimer::new();
    let clint = Clint { time: 42, target: 0 };
    let mut hart = guest();
    let mut context = context();
    let before = context;
    let result = emulate(
        PrivilegeMode::Supervisor,
        &mut context,
        &mut hart,
        &slot,
        &clint,
        no_tables,
        |_| RDTIME_T0,
    );
    assert_eq!(result, EmulationResult::CantEmulate);
    assert_eq!(context.registers, before.registers);
    assert_eq!(hart.mepc, PC);
}

#[test]
fn wait_for_interrupt_yields() {
    let clint = Clint { time: 42, target: 0 };
    let mut hart = guest();
    let mut context = context();
    let before = context;
    let result = emulate_with_timer(
        PrivilegeMode::Supervisor,
        &mut context,
        &mut hart,
        None,
        &clint,
        no_tables,
        |_| WFI,
    );
    assert_eq!(result, EmulationResult::Yield);
    assert_eq!(context.registers, before.registers);
    assert_eq!(hart.mepc, PC + 4);
}

#[test]
fn anything_else_is_illegal() {
    let clint = Clint { time: 42, target: 0 };
    let timer = Some(Timer::new(1, 0));
    for instruction in [0u32, 0xffff_ffff, 0x0000_0013, 0xc010_2073 ^ 0x1000, 0xc000_2073, 0x1050_0072] {
        let mut hart = guest();
        let mut context = context();
        let before = context;
        let result = emulate_instruction(instruction, timer, &clint, &mut context, &mut hart);
        assert_eq!(result, EmulationResult::IllegalInstruction);
        assert_eq!(context.registers, before.registers);
        assert_eq!(hart.mepc, PC);
    }
}

#[test]
fn unreachable_pc_cannot_be_accessed() {
    let slot = PinnedTimer::new();
    Timer::new(10_000_000, 0x200_0000).pin(&slot);
    let clint = Clint { time: 42, target: 0 };
    let mut hart = guest();
    hart.mepc = 0x7000_0000;
    let mut context = context();
    let before = context;
    let result = emulate(
        PrivilegeMode::Supervisor,
        &mut context,
        &mut hart,
        &slot,
        &clint,
        no_tables,
        |pc| -> u32 { panic!("instruction read at {:x}", pc) },
    );
    assert_eq!(result, EmulationResult::CantAccess);
    assert_eq!(context.registers, before.registers);
    assert_eq!(hart.mepc, 0x7000_0000);
}

#[test]
fn translated_pc_outside_the_guest_cannot_be_accessed() {
    let root = 0x8000_1000u64;
    let clint = Clint { time: 42, target: 0 };
    let mut memory = HashMap::new();
    memory.insert(root, (0x4_0000u64 << 10) | 0xb);
    let mut hart = guest();
    hart.satp = (8 << 60) | (root >> 12);
    hart.mepc = 0x20_0000;
    let mut context = context();
    let result = emulate_with_timer(
        PrivilegeMode::Supervisor,
        &mut context,
        &mut hart,
        Some(Timer::new(1, 0)),
        &clint,
        |addr| *memory.get(&addr).unwrap_or(&0),
        |pc| -> u32 { panic!("instruction read at {:x}", pc) },
    );
    assert_eq!(result, EmulationResult::CantAccess);
    assert_eq!(hart.mepc, 0x20_0000);

    memory.insert(root, (0x8_0000u64 << 10) | 0xb);
    let result = emulate_with_timer(
        PrivilegeMode::Supervisor,
        &mut context,
        &mut hart,
        Some(Timer::new(1, 0)),
        &clint,
        |addr| *memory.get(&addr).unwrap_or(&0),
        |_| WFI,
    );
    assert_eq!(result, EmulationResult::Yield);
    assert_eq!(hart.mepc, 0x20_0004);
}

#[test]
fn other_modes_are_not_translated() {
    let mut hart = guest();
    hart.mepc = 0x7000_0000;
    assert!(locate_instruction(PrivilegeMode::Machine, &hart, no_tables));
    assert!(locate_instruction(PrivilegeMode::User, &hart, no_tables));
    assert!(!locate_instruction(PrivilegeMode::Supervisor, &hart, no_tables));
    hart.mepc = PC;
    assert!(locate_instruction(PrivilegeMode::Supervisor, &hart, no_tables));
}

#[test]
fn program_counter_moves_on_by_four() {
    let mut hart = guest();
    increment_epc(&mut hart);
    assert_eq!(hart.mepc, PC + 4);
    hart.mepc = u64::MAX - 1;
    increment_epc(&mut hart);
    assert_eq!(hart.mepc, 2);
}

#[test]
fn traps_from_other_modes_are_fetched_without_translation() {
    let clint = Clint { time: 9, target: 0 };
    for mode in [PrivilegeMode::User, PrivilegeMode::Machine] {
        let mut hart = guest();
        hart.mepc = 0x7000_0000;
        hart.satp = (8 << 60) | 0x7_0000;
        let mut context = context();
        let result = emulate_with_timer(
            mode,
            &mut context,
            &mut hart,
            Some(Timer::new(1, 0)),
            &clint,
            no_tables,
            |pc| {
                assert_eq!(pc, 0x7000_0000);
                RDTIME_T0
            },
        );
        assert_eq!(result, EmulationResult::Success);
        assert_eq!(context.registers[5], 9);
        assert_eq!(hart.mepc, 0x7000_0004);
    }
}

#[test]
fn supervisor_in_a_mode_that_is_not_walked_cannot_be_accessed() {
    let clint = Clint { time: 9, target: 0 };
    for mode in [1u64, 9, 15] {
        let mut hart = guest();
        hart.satp = (mode << 60) | 0x8_0001;
        let mut context = context();
        let result = emulate_with_timer(
            PrivilegeMode::Supervisor,
            &mut context,
            &mut hart,
            Some(Timer::new(1, 0)),
            &clint,
            no_tables,
            |pc| -> u32 { panic!("instruction read at {:x}", pc) },
        );
        assert_eq!(result, EmulationResult::CantAccess);
        assert_eq!(hart.mepc, PC);
    }
}
