//! Emulation of instructions that the physical core does not have.
//!
//! Called when a guest has trapped on an illegal instruction. The word that
//! trapped is fetched through a reader that the caller supplies, which
//! loads it with the privilege of the code that trapped, so that a fault on
//! the load is the guest's own.

use vstd::prelude::*;
use crate::cpu::PrivilegeMode;
use crate::csr::Csr;
use crate::csr::Hart;
use crate::irq::IRQContext;
use crate::mmu::reads_from;
use crate::mmu::reads_guest_memory;
use crate::mmu::satp_mode;
use crate::mmu::satp_root_table;
use crate::mmu::supervisor_addr_to_phys;
use crate::mmu::translation;
use crate::physmem::phys_addr_valid;
use crate::physmem::phys_range_valid;
use crate::physmem::validate_phys_addr;
use crate::timer::Clint;
use crate::timer::PinnedTimer;
use crate::timer::Timer;
use crate::timer::TimerValue;
use crate::timer::pinned_timer_freq;
use crate::timer::pinned_timer_now;

verus! {

/// How an attempt to emulate an instruction ended.
#[derive(Clone, Copy, Debug, PartialEq, Eq, Structural)]
pub enum EmulationResult {
    /// The instruction was emulated.
    Success,
    /// The means to emulate the instruction are missing.
    CantEmulate,
    /// The instruction cannot be found or reached.
    CantAccess,
    /// The instruction is illegal indeed.
    IllegalInstruction,
    /// The guest gives way to other guests.
    Yield,
}

/// Reading the real-time counter into a register: `csrrs rd, time, x0`,
/// with the register field blank.
pub const RDTIME_INST: u32 = 0xc010_2073;

/// Everything of an instruction word but its destination register.
pub const RDTIME_MASK: u32 = 0xffff_f07f;

/// Waiting for an interrupt.
pub const WFI_INST: u32 = 0x1050_0073;

/// Length of an instruction in bytes.
pub const INSTRUCTION_SIZE: u64 = 4;

/// The instruction reads the real-time counter.
pub open spec fn is_rdtime(instruction: u32) -> bool {
    instruction & 0xffff_f07f == 0xc010_2073
}

/// The instruction waits for an interrupt.
pub open spec fn is_wfi(instruction: u32) -> bool {
    instruction == 0x1050_0073
}

/// The destination register of an instruction: bits seven to eleven.
pub open spec fn destination(instruction: u32) -> int {
    ((instruction >> 7) & 0x1f) as int
}

/// The address of the instruction after the one at `pc`.
pub open spec fn next_instruction(pc: u64) -> u64 {
    if pc + 4 > u64::MAX {
        (pc + 4 - 0x1_0000_0000_0000_0000) as u64
    } else {
        (pc + 4) as u64
    }
}

/// The monitor can reach the instruction that trapped. For a trap from
/// supervisor mode, the program counter must translate to a physical
/// address that the guest may touch.
pub open spec fn instruction_reachable(
    priv_mode: PrivilegeMode,
    hart: Hart,
    memory: spec_fn(u64) -> u64,
) -> bool {
    match priv_mode {
        PrivilegeMode::Supervisor => match translation(hart, memory, hart.mepc) {
            Some(paddr) => phys_addr_valid(hart, paddr as int),
            None => false,
        },
        _ => true,
    }
}

/// The result of emulating `instruction` with the pinned timer `pinned`.
pub open spec fn emulation_result(instruction: u32, pinned: Option<Timer>) -> EmulationResult {
    if is_rdtime(instruction) {
        if pinned is Some {
            EmulationResult::Success
        } else {
            EmulationResult::CantEmulate
        }
    } else if is_wfi(instruction) {
        EmulationResult::Yield
    } else {
        EmulationResult::IllegalInstruction
    }
}

/// The stacked registers after `instruction` was emulated: reading the
/// counter puts the controller's count into the destination register,
/// nothing else changes a register.
pub open spec fn emulation_registers(
    instruction: u32,
    pinned: Option<Timer>,
    clint: Clint,
    registers: Seq<u64>,
) -> Seq<u64> {
    if is_rdtime(instruction) && pinned is Some {
        registers.update(destination(instruction), clint.time)
    } else {
        registers
    }
}

/// The program counter after `instruction` was emulated: past the
/// instruction if it was emulated or the guest yields, unchanged otherwise.
pub open spec fn emulation_pc(instruction: u32, pinned: Option<Timer>, pc: u64) -> u64 {
    match emulation_result(instruction, pinned) {
        EmulationResult::Success | EmulationResult::Yield => next_instruction(pc),
        _ => pc,
    }
}

/// Moves the exception program counter on to the next instruction.
/// Instructions are taken to be four bytes long.
pub fn increment_epc(hart: &mut Hart)
    ensures
        *final(hart) == (Hart { mepc: next_instruction(old(hart).mepc), ..*old(hart) }),
{
    let epc = hart.read_csr(Csr::Mepc);
    hart.write_csr(Csr::Mepc, epc.wrapping_add(INSTRUCTION_SIZE));
}

/// Emulates one instruction word, with the pinned timer as it was found.
pub fn emulate_instruction(
    instruction: u32,
    pinned: Option<Timer>,
    clint: &Clint,
    context: &mut IRQContext,
    hart: &mut Hart,
) -> (result: EmulationResult)
    ensures
        result == emulation_result(instruction, pinned),
        final(context)@ == emulation_registers(instruction, pinned, *clint, old(context)@),
        *final(hart) == (Hart {
            mepc: emulation_pc(instruction, pinned, old(hart).mepc),
            ..*old(hart)
        }),
{
    if (instruction & RDTIME_MASK) == RDTIME_INST {
        let time_now = match (pinned_timer_now(pinned, clint), pinned_timer_freq(pinned)) {
            (Some(t), Some(f)) => t.to_exact(f),
            (_, _) => {
                return EmulationResult::CantEmulate;
            },
        };
        let rd = (instruction >> 7) & 0x1f;
        assert(rd < 32) by (bit_vector)
            requires
                rd == (instruction >> 7) & 0x1f,
        ;
        context.registers[rd as usize] = time_now;
        increment_epc(hart);
        return EmulationResult::Success;
    }
    if instruction == WFI_INST {
        assert(0x1050_0073u32 & 0xffff_f07f != 0xc010_2073) by (bit_vector);
        increment_epc(hart);
        return EmulationResult::Yield;
    }
    EmulationResult::IllegalInstruction
}

/// The instruction can be reached whatever memory holds: the trap did not
/// come from supervisor mode, or the guest runs without translation and the
/// program counter is an address that it may touch.
pub open spec fn instruction_in_reach(priv_mode: PrivilegeMode, hart: Hart) -> bool {
    match priv_mode {
        PrivilegeMode::Supervisor => satp_mode(hart.satp) == 0 && phys_addr_valid(
            hart,
            hart.mepc as int,
        ),
        _ => true,
    }
}

/// The instruction cannot be reached whatever memory holds: the trap came
/// from supervisor mode, and the guest runs without translation at a
/// program counter that it may not touch, or in a mode that is not walked,
/// or with a root table outside its memory.
pub open spec fn instruction_out_of_reach(priv_mode: PrivilegeMode, hart: Hart) -> bool {
    let mode = satp_mode(hart.satp);
    let root = satp_root_table(hart.satp);
    match priv_mode {
        PrivilegeMode::Supervisor => {
            ||| mode == 0 && !phys_addr_valid(hart, hart.mepc as int)
            ||| mode != 0 && mode != 8
            ||| mode == 8 && !phys_range_valid(hart, root as int, root + 4095)
        },
        _ => false,
    }
}

/// Where reach does not depend on memory, it is the same for every memory.
pub proof fn lemma_reach_without_memory(
    priv_mode: PrivilegeMode,
    hart: Hart,
    memory: spec_fn(u64) -> u64,
)
    ensures
        instruction_in_reach(priv_mode, hart) ==> instruction_reachable(priv_mode, hart, memory),
        instruction_out_of_reach(priv_mode, hart) ==> !instruction_reachable(
            priv_mode,
            hart,
            memory,
        ),
{
}

/// Whether the monitor can reach the instruction that trapped from the
/// privilege level `priv_mode`. The page tables are read for a trap from
/// supervisor mode only.
pub fn locate_instruction<F: Fn(u64) -> u64>(priv_mode: PrivilegeMode, hart: &Hart, read_entry: F) -> (found:
    bool)
    requires
        reads_guest_memory(read_entry, *hart),
    ensures
        instruction_in_reach(priv_mode, *hart) ==> found,
        instruction_out_of_reach(priv_mode, *hart) ==> !found,
        forall|memory: spec_fn(u64) -> u64| #[trigger]
            reads_from(read_entry, memory) ==> found == instruction_reachable(
                priv_mode,
                *hart,
                memory,
            ),
{
    match priv_mode {
        PrivilegeMode::Supervisor => {
            let pc = hart.read_csr(Csr::Mepc);
            match supervisor_addr_to_phys(hart, pc, read_entry) {
                Some(paddr) => validate_phys_addr(hart, paddr).is_some(),
                None => false,
            }
        },
        _ => true,
    }
}

/// The instruction was fetched and emulated: the word is one that the
/// reader gave for the program counter, and result, registers and program
/// counter are those of that word with the pinned timer `pinned`.
pub open spec fn fetched_and_emulated<G: Fn(u64) -> u32>(
    pinned: Option<Timer>,
    clint: Clint,
    read_instruction: G,
    registers: Seq<u64>,
    hart: Hart,
    registers_after: Seq<u64>,
    hart_after: Hart,
    result: EmulationResult,
) -> bool {
    exists|instruction: u32| #[trigger]
        call_ensures(read_instruction, (hart.mepc,), instruction) && {
            &&& result == emulation_result(instruction, pinned)
            &&& registers_after == emulation_registers(instruction, pinned, clint, registers)
            &&& hart_after == (Hart {
                mepc: emulation_pc(instruction, pinned, hart.mepc),
                ..hart
            })
        }
}

/// The instruction was not reached: the answer is `CantAccess` and nothing
/// has changed.
pub open spec fn not_accessed(
    registers: Seq<u64>,
    hart: Hart,
    registers_after: Seq<u64>,
    hart_after: Hart,
    result: EmulationResult,
) -> bool {
    result == EmulationResult::CantAccess && registers_after == registers && hart_after == hart
}

/// What an attempt to emulate leaves behind when the pinned timer is
/// `pinned`. Where the instruction can be reached, it was fetched and
/// emulated; where it cannot, it was not accessed. Only for a trap from
/// supervisor mode under the three-level translation, with the root table
/// in the guest's memory, does that depend on what memory holds.
pub open spec fn emulated<F: Fn(u64) -> u64, G: Fn(u64) -> u32>(
    priv_mode: PrivilegeMode,
    pinned: Option<Timer>,
    clint: Clint,
    read_entry: F,
    read_instruction: G,
    registers: Seq<u64>,
    hart: Hart,
    registers_after: Seq<u64>,
    hart_after: Hart,
    result: EmulationResult,
) -> bool {
    let fetched = fetched_and_emulated(
        pinned,
        clint,
        read_instruction,
        registers,
        hart,
        registers_after,
        hart_after,
        result,
    );
    let missed = not_accessed(registers, hart, registers_after, hart_after, result);
    if instruction_in_reach(priv_mode, hart) {
        fetched
    } else if instruction_out_of_reach(priv_mode, hart) {
        missed
    } else {
        forall|memory: spec_fn(u64) -> u64| #[trigger]
            reads_from(read_entry, memory) ==> if instruction_reachable(priv_mode, hart, memory) {
                fetched
            } else {
                missed
            }
    }
}

/// The instruction reader can be asked for the word at the program counter
/// once the instruction is known to be reachable, and need not take the
/// program counter before. An attempt to emulate that asks this much of its
/// reader, and no more, cannot load the word before the program counter was
/// translated and found in the guest's memory.
pub open spec fn reads_reachable_instruction<F: Fn(u64) -> u64, G: Fn(u64) -> u32>(
    priv_mode: PrivilegeMode,
    hart: Hart,
    read_entry: F,
    read_instruction: G,
) -> bool {
    (forall|memory: spec_fn(u64) -> u64| #[trigger]
        reads_from(read_entry, memory) ==> instruction_reachable(priv_mode, hart, memory))
        ==> call_requires(read_instruction, (hart.mepc,))
}

/// Tries to emulate the instruction that has just trapped, with the pinned
/// timer as it was found. `read_entry` reads the guest's page tables;
/// `read_instruction` loads the instruction word at a program counter of
/// the guest, and is asked only after the instruction was found to be
/// reachable.
pub fn emulate_with_timer<F: Fn(u64) -> u64, G: Fn(u64) -> u32>(
    priv_mode: PrivilegeMode,
    context: &mut IRQContext,
    hart: &mut Hart,
    pinned: Option<Timer>,
    clint: &Clint,
    read_entry: F,
    read_instruction: G,
) -> (result: EmulationResult)
    requires
        reads_guest_memory(read_entry, *old(hart)),
        reads_reachable_instruction(priv_mode, *old(hart), read_entry, read_instruction),
    ensures
        emulated(
            priv_mode,
            pinned,
            *clint,
            read_entry,
            read_instruction,
            old(context)@,
            *old(hart),
            final(context)@,
            *final(hart),
            result,
        ),
{
    if !locate_instruction(priv_mode, hart, read_entry) {
        return EmulationResult::CantAccess;
    }
    let addr = hart.read_csr(Csr::Mepc);
    let instruction = read_instruction(addr);
    let result = emulate_instruction(instruction, pinned, clint, context, hart);
    assert(call_ensures(read_instruction, (old(hart).mepc,), instruction));
    assert(context@ == emulation_registers(instruction, pinned, *clint, old(context)@));
    assert(*hart == (Hart {
        mepc: emulation_pc(instruction, pinned, old(hart).mepc),
        ..*old(hart)
    }));
    assert(fetched_and_emulated(
        pinned,
        *clint,
        read_instruction,
        old(context)@,
        *old(hart),
        context@,
        *hart,
        result,
    ));
    result
}

/// Tries to emulate the instruction that has just trapped. The context may
/// be changed in doing so. The pinned timer is the one that `slot` holds
/// when it is asked.
pub fn emulate<F: Fn(u64) -> u64, G: Fn(u64) -> u32>(
    priv_mode: PrivilegeMode,
    context: &mut IRQContext,
    hart: &mut Hart,
    slot: &PinnedTimer,
    clint: &Clint,
    read_entry: F,
    read_instruction: G,
) -> (result: EmulationResult)
    requires
        reads_guest_memory(read_entry, *old(hart)),
        reads_reachable_instruction(priv_mode, *old(hart), read_entry, read_instruction),
    ensures
        exists|pinned: Option<Timer>| #[trigger]
            emulated(
                priv_mode,
                pinned,
                *clint,
                read_entry,
                read_instruction,
                old(context)@,
                *old(hart),
                final(context)@,
                *final(hart),
                result,
            ),
{
    let pinned = slot.get();
    emulate_with_timer(priv_mode, context, hart, pinned, clint, read_entry, read_instruction)
}

} // verus!
