use riscv_monitor::cpu::PrivilegeMode;
use riscv_monitor::csr::{Csr, Hart};
use riscv_monitor::irq::{
    acknowledge, dispatch, IRQCause, IRQContext, IRQSeverity, IRQType, IRQ, REG_SP,
};

const INTERRUPT: u64 = 1 << 63;

fn trap(mcause: u64) -> IRQ {
    let mut hart = Hart::new();
    hart.mcause = mcause;
    hart.mepc = 0x8020_0000;
    hart.mstatus = 1 << 11;
    let mut context = IRQContext { registers: [0; 32] };
    context.registers[REG_SP] = 0x8100_0000;
    dispatch(context, &hart).expect("every cause gives a record")
}

#[test]
fn exceptions_by_code() {
    let table = [
        (0u64, IRQSeverity::Fatal, IRQCause::InstructionAlignment),
        (1, IRQSeverity::Fatal, IRQCause::InstructionAccess),
        (2, IRQSeverity::Fatal, IRQCause::IllegalInstruction),
        (3, IRQSeverity::Fatal, IRQCause::Breakpoint),
        (4, IRQSeverity::Fatal, IRQCause::LoadAlignment),
        (5, IRQSeverity::Fatal, IRQCause::LoadAccess),
        (6, IRQSeverity::Fatal, IRQCause::StoreAlignment),
        (7, IRQSeverity::Fatal, IRQCause::StoreAccess),
        (8, IRQSeverity::NonFatal, IRQCause::UserEnvironmentCall),
        (9, IRQSeverity::NonFatal, IRQCause::SupervisorEnvironmentCall),
        (10, IRQSeverity::NonFatal, IRQCause::Unknown),
        (11, IRQSeverity::NonFatal, IRQCause::MachineEnvironmentCall),
        (12, IRQSeverity::NonFatal, IRQCause::InstructionPageFault),
        (13, IRQSeverity::NonFatal, IRQCause::LoadPageFault),
        (14, IRQSeverity::NonFatal, IRQCause::Unknown),
        (15, IRQSeverity::NonFatal, IRQCause::StorePageFault),
        (16, IRQSeverity::NonFatal, IRQCause::Unknown),
    ];
    for (code, severity, cause) in table {
        let irq = trap(code);
        assert_eq!(irq.irq_type, IRQType::Exception);
        assert_eq!(irq.severity, severity);
        assert_eq!(irq.cause, cause);
    }
}

#[test]
fn interrupts_by_code() {
    let table = [
        (0u64, IRQCause::UserSWI),
        (1, IRQCause::SupervisorSWI),
        (2, IRQCause::Unknown),
        (3, IRQCause::MachineSWI),
        (4, IRQCause::UserTimer),
        (5, IRQCause::SupervisorTimer),
        (6, IRQCause::Unknown),
        (7, IRQCause::MachineTimer),
        (8, IRQCause::UserInterrupt),
        (9, IRQCause::SupervisorInterrupt),
        (10, IRQCause::Unknown),
        (11, IRQCause::MachineInterrupt),
        (12, IRQCause::Unknown),
    ];
    for (code, cause) in table {
        let irq = trap(INTERRUPT | code);
        assert_eq!(irq.irq_type, IRQType::Interrupt);
        assert_eq!(irq.severity, IRQSeverity::NonFatal);
        assert_eq!(irq.cause, cause);
    }
}

#[test]
fn dispatch_is_total_on_odd_causes() {
    for mcause in [
        u64::MAX,
        INTERRUPT - 1,
        INTERRUPT,
        0x7fff_ffff_ffff_fff0,
        0xffff_ffff_0000_0002,
        1 << 62,
        (1 << 62) | 2,
    ] {
        let irq = trap(mcause);
        if mcause >= INTERRUPT {
            assert_eq!(irq.irq_type, IRQType::Interrupt);
            assert_eq!(irq.severity, IRQSeverity::NonFatal);
        } else {
            assert_eq!(irq.irq_type, IRQType::Exception);
            assert_eq!(irq.cause, IRQCause::Unknown);
            assert_eq!(irq.severity, IRQSeverity::NonFatal);
        }
    }
}

#[test]
fn record_carries_pc_sp_and_privilege() {
    let irq = trap(2);
    assert_eq!(irq.pc, 0x8020_0000);
    assert_eq!(irq.sp, 0x8100_0000);
    assert_eq!(irq.privilege_mode, PrivilegeMode::Supervisor);

    let mut hart = Hart::new();
    hart.mstatus = 0;
    let context = IRQContext { registers: [0; 32] };
    assert_eq!(dispatch(context, &hart).unwrap().privilege_mode, PrivilegeMode::User);
    hart.mstatus = 3 << 11;
    assert_eq!(dispatch(context, &hart).unwrap().privilege_mode, PrivilegeMode::Machine);
    hart.mstatus = 2 << 11;
    assert_eq!(dispatch(context, &hart).unwrap().privilege_mode, PrivilegeMode::Machine);
}

fn irq_with(cause: IRQCause) -> IRQ {
    IRQ {
        severity: IRQSeverity::NonFatal,
        privilege_mode: PrivilegeMode::Supervisor,
        irq_type: IRQType::Interrupt,
        cause,
        pc: 0,
        sp: 0,
    }
}

#[test]
fn acknowledge_clears_the_matching_pending_bit() {
    let table = [
        (IRQCause::UserSWI, 0u32),
        (IRQCause::SupervisorSWI, 1),
        (IRQCause::UserTimer, 4),
        (IRQCause::SupervisorTimer, 5),
        (IRQCause::UserInterrupt, 8),
        (IRQCause::SupervisorInterrupt, 9),
    ];
    for (cause, bit) in table {
        let mut hart = Hart::new();
        hart.mip = 0xfff;
        hart.mie = 0xabc;
        acknowledge(irq_with(cause), &mut hart);
        assert_eq!(hart.mip, 0xfff & !(1u64 << bit));
        assert_eq!(hart.mie, 0xabc);
    }
}

#[test]
fn acknowledge_ignores_causes_without_a_pending_bit() {
    for cause in [
        IRQCause::MachineSWI,
        IRQCause::MachineTimer,
        IRQCause::MachineInterrupt,
        IRQCause::IllegalInstruction,
        IRQCause::SupervisorEnvironmentCall,
        IRQCause::Unknown,
    ] {
        let mut hart = Hart::new();
        hart.mip = 0xfff;
        acknowledge(irq_with(cause), &mut hart);
        assert_eq!(hart.mip, 0xfff);
    }
}

#[test]
fn csr_primitives() {
    let mut hart = Hart::new();
    assert_eq!(hart.read_csr(Csr::Mstatus), 0);
    hart.write_csr(Csr::Mstatus, 0xff00);
    assert_eq!(hart.read_csr(Csr::Mstatus), 0xff00);
    assert_eq!(hart.mstatus, 0xff00);
    assert_eq!(hart.read_csr(Csr::Sstatus), 0);
    hart.clear_csr(Csr::Mstatus, 0x0f00);
    assert_eq!(hart.read_csr(Csr::Mstatus), 0xf000);
    hart.set_csr(Csr::Mstatus, 0x3);
    assert_eq!(hart.read_csr(Csr::Mstatus), 0xf003);
    let all = [
        Csr::Misa, Csr::Mvendorid, Csr::Marchid, Csr::Mimpid, Csr::Mstatus, Csr::Mepc,
        Csr::Mcause, Csr::Mip, Csr::Mie, Csr::Sstatus, Csr::Sedeleg, Csr::Sideleg, Csr::Stvec,
        Csr::Sip, Csr::Sie, Csr::Scounteren, Csr::Sscratch, Csr::Sepc, Csr::Scause, Csr::Stval,
        Csr::Satp, Csr::Fcsr,
    ];
    let mut hart = Hart::new();
    for (i, csr) in all.iter().enumerate() {
        hart.write_csr(*csr, 100 + i as u64);
    }
    for (i, csr) in all.iter().enumerate() {
        assert_eq!(hart.read_csr(*csr), 100 + i as u64);
    }
}
