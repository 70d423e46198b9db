//! The supervisor-visible state of a virtual core, and what the physical
//! core can do.

use vstd::prelude::*;
use vstd::string::StringExecFns;
use crate::csr::Csr;
use crate::csr::Hart;
use crate::irq::IRQContext;
use crate::physmem::PhysMemBase;

verus! {

/// Extension D: double-precision floating point.
pub const CPUFEATURES_DP_FPU: u64 = 0x8;

/// Extension F: single-precision floating point.
pub const CPUFEATURES_SP_FPU: u64 = 0x20;

/// Supervisor mode is implemented.
pub const CPUFEATURES_SUPERVISOR_MODE: u64 = 0x4_0000;

/// User mode is implemented.
pub const CPUFEATURES_USER_MODE: u64 = 0x10_0000;

/// Previous-privilege field of the machine status set to supervisor.
pub const MSTATUS_MPP_SUPERVISOR: u64 = 0x800;

/// Lowest bit of the previous-privilege field of the machine status.
pub const MSTATUS_MPP_SHIFT: u64 = 11;

/// Width mask of the previous-privilege field.
pub const MSTATUS_MPP_MASK: u64 = 0x3;

/// Lowest bit of the floating-point state field of the machine status.
pub const MSTATUS_FS_SHIFT: u64 = 13;

/// Width mask of the floating-point state field.
pub const MSTATUS_FS_MASK: u64 = 0x3;

/// Floating-point state: a register was written since the last load.
pub const MSTATUS_FS_DIRTY: u64 = 3;

/// Floating-point state: the registers are as they were loaded.
pub const MSTATUS_FS_CLEAN: u64 = 2;

/// Floating-point state: no usable floating-point unit.
pub const MSTATUS_FS_OFF: u64 = 0;

/// Levels of privilege.
#[derive(Clone, Copy, Debug, PartialEq, Eq, Structural)]
pub enum PrivilegeMode {
    /// The monitor itself.
    Machine,
    /// A guest kernel.
    Supervisor,
    /// Code under a guest kernel.
    User,
}

/// The privilege level that a machine status value names as the one the
/// hart came from.
pub open spec fn spec_previous_privilege(mstatus: u64) -> PrivilegeMode {
    let field = (mstatus >> 11) & 0x3;
    if field == 0 {
        PrivilegeMode::User
    } else if field == 1 {
        PrivilegeMode::Supervisor
    } else {
        PrivilegeMode::Machine
    }
}

/// The privilege level of the code that ran before the hart entered
/// machine mode.
pub fn previous_privilege(hart: &Hart) -> (mode: PrivilegeMode)
    ensures
        mode == spec_previous_privilege(hart.mstatus),
{
    match (hart.read_csr(Csr::Mstatus) >> MSTATUS_MPP_SHIFT) & MSTATUS_MPP_MASK {
        0 => PrivilegeMode::User,
        1 => PrivilegeMode::Supervisor,
        _ => PrivilegeMode::Machine,
    }
}

/// A number of cores.
pub type CPUcount = usize;

/// The contents of a register.
pub type Reg = u64;

/// The address at which a guest kernel starts.
pub type Entry = u64;

/// Bit mask of the features and extensions of a core.
pub type CPUFeatures = u64;

/// A complete snapshot of a virtual core: the supervisor's registers, where
/// and in which mode it resumes, and the integer registers `x1` to `x31`
/// (`x0` is always zero and has no slot).
#[derive(Clone, Copy, Debug)]
pub struct SupervisorState {
    pub sstatus: Reg,
    pub sedeleg: Reg,
    pub sideleg: Reg,
    pub stvec: Reg,
    pub sip: Reg,
    pub sie: Reg,
    pub scounteren: Reg,
    pub sscratch: Reg,
    pub sepc: Reg,
    pub scause: Reg,
    pub stval: Reg,
    pub satp: Reg,
    /// Where the core resumes.
    pub mepc: Entry,
    /// Machine status on resume; holds the mode that is returned to.
    pub mstatus: Reg,
    /// `x1` to `x31`: slot `k - 1` holds `xk`.
    pub registers: [Reg; 31],
}

/// The floating-point registers of a virtual core, as raw bits.
#[derive(Clone, Copy, Debug)]
pub enum SupervisorFPRegisters {
    /// The core has no floating-point unit.
    Absent,
    /// Thirty-two registers of 32 bits.
    SinglePrecision([u32; 32]),
    /// Thirty-two registers of 64 bits.
    DoublePrecision([u64; 32]),
}

/// The floating-point state of a virtual core. The width of the registers
/// is chosen when the state is made and stays.
#[derive(Clone, Copy, Debug)]
pub struct SupervisorFPState {
    /// Floating-point control and status.
    pub fcsr: Reg,
    pub registers: SupervisorFPRegisters,
}

/// The state in which a fresh virtual core starts: every supervisor
/// register zero, `a0` the core's number, `a1` the address of the device
/// tree, `a2` the number of cores, execution at `entry` in supervisor mode.
pub open spec fn initial_state(
    cpu_nr: CPUcount,
    cpu_total: CPUcount,
    entry: Entry,
    dtb: PhysMemBase,
    state: SupervisorState,
) -> bool {
    &&& state.sstatus == 0
    &&& state.sedeleg == 0
    &&& state.sideleg == 0
    &&& state.stvec == 0
    &&& state.sip == 0
    &&& state.sie == 0
    &&& state.scounteren == 0
    &&& state.sscratch == 0
    &&& state.sepc == 0
    &&& state.scause == 0
    &&& state.stval == 0
    &&& state.satp == 0
    &&& state.mepc == entry
    &&& state.mstatus == 0x800
    &&& state.registers@ =~= Seq::new(31, |i: int| 0u64).update(9, cpu_nr as u64).update(
        10,
        dtb,
    ).update(11, cpu_total as u64)
}

/// Makes the state from which a guest kernel or service starts on one
/// virtual core.
pub fn init_supervisor_cpu_state(
    cpu_nr: CPUcount,
    cpu_total: CPUcount,
    entry: Entry,
    dtb: PhysMemBase,
) -> (state: SupervisorState)
    ensures
        initial_state(cpu_nr, cpu_total, entry, dtb, state),
        spec_previous_privilege(state.mstatus) == PrivilegeMode::Supervisor,
{
    let mut state = SupervisorState {
        sstatus: 0,
        sedeleg: 0,
        sideleg: 0,
        stvec: 0,
        sip: 0,
        sie: 0,
        scounteren: 0,
        sscratch: 0,
        sepc: 0,
        scause: 0,
        stval: 0,
        satp: 0,
        mepc: entry,
        mstatus: MSTATUS_MPP_SUPERVISOR,
        registers: [0u64; 31],
    };
    // x10 = a0, x11 = a1, x12 = a2; x0 has no slot
    state.registers[10 - 1] = cpu_nr as u64;
    state.registers[11 - 1] = dtb;
    state.registers[12 - 1] = cpu_total as u64;
    assert((0x800u64 >> 11) & 0x3 == 1) by (bit_vector);
    state
}

/// The floating-point registers that a core with the features `features`
/// has: none without extension F, single precision with F alone, double
/// precision with F and D.
pub open spec fn fp_width(features: CPUFeatures) -> u64 {
    if features & 0x20 == 0 {
        0
    } else if features & 0x8 == 0 {
        32
    } else {
        64
    }
}

/// The floating-point state is empty and as wide as the core's features
/// say.
pub open spec fn initial_fp_state(features: CPUFeatures, state: SupervisorFPState) -> bool {
    &&& state.fcsr == 0
    &&& match state.registers {
        SupervisorFPRegisters::Absent => fp_width(features) == 0,
        SupervisorFPRegisters::SinglePrecision(regs) => fp_width(features) == 32 && forall|
            i: int,
        |
            0 <= i < 32 ==> regs[i] == 0,
        SupervisorFPRegisters::DoublePrecision(regs) => fp_width(features) == 64 && forall|
            i: int,
        |
            0 <= i < 32 ==> regs[i] == 0,
    }
}

/// Makes the empty floating-point state of a virtual core on this physical
/// core.
pub fn init_supervisor_fp_state(hart: &Hart) -> (state: SupervisorFPState)
    ensures
        initial_fp_state(hart.misa, state),
{
    let features = features(hart);
    let registers = if features & CPUFEATURES_SP_FPU == 0 {
        SupervisorFPRegisters::Absent
    } else if features & CPUFEATURES_DP_FPU == 0 {
        SupervisorFPRegisters::SinglePrecision([0u32; 32])
    } else {
        SupervisorFPRegisters::DoublePrecision([0u64; 32])
    };
    SupervisorFPState { fcsr: 0, registers }
}

/// The snapshot of a core whose registers are `hart` and whose stacked
/// integer registers are `context`.
pub open spec fn saved(hart: Hart, context: Seq<u64>, state: SupervisorState) -> bool {
    &&& state.sstatus == hart.sstatus
    &&& state.sedeleg == hart.sedeleg
    &&& state.sideleg == hart.sideleg
    &&& state.stvec == hart.stvec
    &&& state.sip == hart.sip
    &&& state.sie == hart.sie
    &&& state.scounteren == hart.scounteren
    &&& state.sscratch == hart.sscratch
    &&& state.sepc == hart.sepc
    &&& state.scause == hart.scause
    &&& state.stval == hart.stval
    &&& state.satp == hart.satp
    &&& state.mepc == hart.mepc
    &&& state.mstatus == hart.mstatus
    &&& state.registers@ =~= context.subrange(1, 32)
}

/// Saves the supervisor's registers and `x1` to `x31` into `state`. The
/// integer registers are taken from the frame that the trap entry stacked,
/// so this is for use while a trap is handled and nowhere else.
pub fn save_supervisor_cpu_state(state: &mut SupervisorState, hart: &Hart, context: &IRQContext)
    ensures
        saved(*hart, context@, *final(state)),
{
    state.sstatus = hart.read_csr(Csr::Sstatus);
    state.sedeleg = hart.read_csr(Csr::Sedeleg);
    state.sideleg = hart.read_csr(Csr::Sideleg);
    state.stvec = hart.read_csr(Csr::Stvec);
    state.sip = hart.read_csr(Csr::Sip);
    state.sie = hart.read_csr(Csr::Sie);
    state.scounteren = hart.read_csr(Csr::Scounteren);
    state.sscratch = hart.read_csr(Csr::Sscratch);
    state.sepc = hart.read_csr(Csr::Sepc);
    state.scause = hart.read_csr(Csr::Scause);
    state.stval = hart.read_csr(Csr::Stval);
    state.satp = hart.read_csr(Csr::Satp);
    state.mepc = hart.read_csr(Csr::Mepc);
    state.mstatus = hart.read_csr(Csr::Mstatus);
    let mut i: usize = 0;
    while i < 31
        invariant
            i <= 31,
            state.sstatus == hart.sstatus,
            state.sedeleg == hart.sedeleg,
            state.sideleg == hart.sideleg,
            state.stvec == hart.stvec,
            state.sip == hart.sip,
            state.sie == hart.sie,
            state.scounteren == hart.scounteren,
            state.sscratch == hart.sscratch,
            state.sepc == hart.sepc,
            state.scause == hart.scause,
            state.stval == hart.stval,
            state.satp == hart.satp,
            state.mepc == hart.mepc,
            state.mstatus == hart.mstatus,
            forall|k: int| 0 <= k < i ==> state.registers[k] == context.registers[k + 1],
        decreases 31 - i,
    {
        state.registers[i] = context.registers[i + 1];
        i = i + 1;
    }
}

/// The floating-point state field of a machine status value.
pub open spec fn fp_status(mstatus: u64) -> u64 {
    (mstatus >> 13) & 0x3
}

/// The low 32 bits of each of the hart's floating-point registers.
pub open spec fn single_precision_of(registers: Seq<u64>) -> Seq<u32> {
    Seq::new(32, |i: int| registers[i] as u32)
}

/// Each 32-bit value widened to 64 bits.
pub open spec fn widened(registers: Seq<u32>) -> Seq<u64> {
    Seq::new(32, |i: int| registers[i] as u64)
}

/// The floating-point state after a save from `hart`. Nothing is saved
/// unless the machine status says that a register was written since the
/// last load, nor where the state has no registers.
pub open spec fn fp_saved(hart: Hart, before: SupervisorFPState, after: SupervisorFPState) -> bool {
    if fp_status(hart.mstatus) != 3 {
        after == before
    } else {
        match before.registers {
            SupervisorFPRegisters::Absent => after == before,
            SupervisorFPRegisters::SinglePrecision(_) => after.fcsr == hart.fcsr
                && match after.registers {
                SupervisorFPRegisters::SinglePrecision(regs) => regs@ =~= single_precision_of(
                    hart.fp_registers@,
                ),
                _ => false,
            },
            SupervisorFPRegisters::DoublePrecision(_) => after.fcsr == hart.fcsr
                && match after.registers {
                SupervisorFPRegisters::DoublePrecision(regs) => regs@ =~= hart.fp_registers@,
                _ => false,
            },
        }
    }
}

/// Saves the floating-point registers and their control register into
/// `fp_state`, if the guest has written any of them since they were loaded.
pub fn save_supervisor_fp_state(fp_state: &mut SupervisorFPState, hart: &Hart)
    ensures
        fp_saved(*hart, *old(fp_state), *final(fp_state)),
{
    if (hart.read_csr(Csr::Mstatus) >> MSTATUS_FS_SHIFT) & MSTATUS_FS_MASK != MSTATUS_FS_DIRTY {
        return ;
    }
    match fp_state.registers {
        SupervisorFPRegisters::Absent => {
            return ;
        },
        SupervisorFPRegisters::SinglePrecision(_) => {
            let mut regs = [0u32; 32];
            let mut i: usize = 0;
            while i < 32
                invariant
                    i <= 32,
                    forall|k: int| 0 <= k < i ==> regs[k] == hart.fp_registers[k] as u32,
                decreases 32 - i,
            {
                regs[i] = hart.fp_registers[i] as u32;
                i = i + 1;
            }
            fp_state.registers = SupervisorFPRegisters::SinglePrecision(regs);
        },
        SupervisorFPRegisters::DoublePrecision(_) => {
            fp_state.registers = SupervisorFPRegisters::DoublePrecision(hart.fp_registers);
        },
    }
    fp_state.fcsr = hart.read_csr(Csr::Fcsr);
}

/// The hart's registers after the supervisor's registers were loaded from
/// `state`.
pub open spec fn cpu_loaded(state: SupervisorState, hart: Hart) -> Hart {
    Hart {
        sstatus: state.sstatus,
        sedeleg: state.sedeleg,
        sideleg: state.sideleg,
        stvec: state.stvec,
        sip: state.sip,
        sie: state.sie,
        scounteren: state.scounteren,
        sscratch: state.sscratch,
        sepc: state.sepc,
        scause: state.scause,
        stval: state.stval,
        satp: state.satp,
        mepc: state.mepc,
        mstatus: state.mstatus,
        ..hart
    }
}

/// The hart's floating-point registers after a load from `fp_state`.
pub open spec fn fp_loaded(fp_state: SupervisorFPState, hart: Hart, after: Hart) -> bool {
    match fp_state.registers {
        SupervisorFPRegisters::Absent => after == hart,
        SupervisorFPRegisters::SinglePrecision(regs) => {
            &&& after.fp_registers@ =~= widened(regs@)
            &&& after == (Hart { fcsr: fp_state.fcsr, fp_registers: after.fp_registers, ..hart })
        },
        SupervisorFPRegisters::DoublePrecision(regs) => after == (Hart {
            fcsr: fp_state.fcsr,
            fp_registers: regs,
            ..hart
        }),
    }
}

/// A machine status value with its floating-point state field set to
/// clean.
pub open spec fn marked_clean(mstatus: u64) -> u64 {
    (mstatus & !(0x3u64 << 13)) | (2u64 << 13)
}

/// The hart after the supervisor's registers and then its floating-point
/// registers were loaded. The floating-point registers are loaded only
/// where the machine status that was loaded does not say that the unit is
/// off; its field is then set to clean, so that a later save can tell
/// whether the guest wrote a register.
pub open spec fn cpu_fp_loaded(
    state: SupervisorState,
    fp_state: SupervisorFPState,
    hart: Hart,
    after: Hart,
) -> bool {
    let loaded = cpu_loaded(state, hart);
    if fp_status(state.mstatus) == 0 {
        after == loaded
    } else {
        exists|with_fp: Hart| #[trigger]
            fp_loaded(fp_state, loaded, with_fp) && after == (Hart {
                mstatus: marked_clean(state.mstatus),
                ..with_fp
            })
    }
}

/// Loads the supervisor's registers and floating-point registers from
/// `state` and `fp_state`. `x1` to `x31` go into the stacked frame, from
/// where the trap exit restores them; slot zero of the frame is left as it
/// is.
pub fn load_supervisor_cpu_fp_state(
    state: &SupervisorState,
    fp_state: &SupervisorFPState,
    hart: &mut Hart,
    context: &mut IRQContext,
)
    ensures
        final(context)@ =~= seq![old(context)@[0]] + state.registers@,
        cpu_fp_loaded(*state, *fp_state, *old(hart), *final(hart)),
{
    hart.write_csr(Csr::Sstatus, state.sstatus);
    hart.write_csr(Csr::Sedeleg, state.sedeleg);
    hart.write_csr(Csr::Sideleg, state.sideleg);
    hart.write_csr(Csr::Stvec, state.stvec);
    hart.write_csr(Csr::Sip, state.sip);
    hart.write_csr(Csr::Sie, state.sie);
    hart.write_csr(Csr::Scounteren, state.scounteren);
    hart.write_csr(Csr::Sscratch, state.sscratch);
    hart.write_csr(Csr::Sepc, state.sepc);
    hart.write_csr(Csr::Scause, state.scause);
    hart.write_csr(Csr::Stval, state.stval);
    hart.write_csr(Csr::Satp, state.satp);
    hart.write_csr(Csr::Mepc, state.mepc);
    hart.write_csr(Csr::Mstatus, state.mstatus);
    let mut i: usize = 0;
    while i < 31
        invariant
            i <= 31,
            context.registers[0] == old(context).registers[0],
            forall|k: int| 0 <= k < i ==> context.registers[k + 1] == state.registers[k],
        decreases 31 - i,
    {
        context.registers[i + 1] = state.registers[i];
        i = i + 1;
    }
    assert(*hart == cpu_loaded(*state, *old(hart)));

    if (hart.read_csr(Csr::Mstatus) >> MSTATUS_FS_SHIFT) & MSTATUS_FS_MASK != MSTATUS_FS_OFF {
        load_supervisor_fp_state(fp_state, hart);
        let ghost with_fp = *hart;
        let mstatus = hart.read_csr(Csr::Mstatus) & !(MSTATUS_FS_MASK << MSTATUS_FS_SHIFT);
        hart.write_csr(Csr::Mstatus, mstatus | (MSTATUS_FS_CLEAN << MSTATUS_FS_SHIFT));
        assert(with_fp.mstatus == state.mstatus);
        assert(fp_loaded(*fp_state, cpu_loaded(*state, *old(hart)), with_fp));
    }
}

/// Loads the floating-point registers and their control register from
/// `fp_state`, if it has any.
pub fn load_supervisor_fp_state(fp_state: &SupervisorFPState, hart: &mut Hart)
    ensures
        fp_loaded(*fp_state, *old(hart), *final(hart)),
{
    match fp_state.registers {
        SupervisorFPRegisters::Absent => {
            return ;
        },
        SupervisorFPRegisters::SinglePrecision(regs) => {
            let mut i: usize = 0;
            while i < 32
                invariant
                    i <= 32,
                    *hart == (Hart { fp_registers: hart.fp_registers, ..*old(hart) }),
                    forall|k: int| 0 <= k < i ==> hart.fp_registers[k] == regs[k] as u64,
                decreases 32 - i,
            {
                hart.fp_registers[i] = regs[i] as u64;
                i = i + 1;
            }
        },
        SupervisorFPRegisters::DoublePrecision(regs) => {
            hart.fp_registers = regs;
        },
    }
    hart.write_csr(Csr::Fcsr, fp_state.fcsr);
}

/// A machine status value with its previous-privilege field set to
/// supervisor.
pub open spec fn returning_to_supervisor(mstatus: u64) -> u64 {
    (mstatus & !(0x3u64 << 11)) | 0x800
}

/// Makes sure that the return from the trap goes to supervisor mode.
pub fn prep_supervisor_return(hart: &mut Hart)
    ensures
        *final(hart) == (Hart { mstatus: returning_to_supervisor(old(hart).mstatus), ..*old(hart) }),
        spec_previous_privilege(final(hart).mstatus) == PrivilegeMode::Supervisor,
{
    let mstatus = hart.read_csr(Csr::Mstatus);
    let cleared = mstatus & !(MSTATUS_MPP_MASK << MSTATUS_MPP_SHIFT);
    assert((((mstatus & !(0x3u64 << 11)) | 0x800) >> 11) & 0x3 == 1) by (bit_vector);
    hart.write_csr(Csr::Mstatus, cleared | MSTATUS_MPP_SUPERVISOR);
}

/// The feature bits of this core.
pub fn features(hart: &Hart) -> (features: CPUFeatures)
    ensures
        features == hart.misa,
{
    hart.read_csr(Csr::Misa)
}

/// A core with the features `features` can run code at the level
/// `required`: every core has machine mode, supervisor mode is a feature,
/// and user mode is taken only together with supervisor mode.
pub open spec fn supports_privilege(features: CPUFeatures, required: PrivilegeMode) -> bool {
    match required {
        PrivilegeMode::Machine => true,
        PrivilegeMode::Supervisor => features & 0x4_0000 != 0,
        PrivilegeMode::User => features & 0x4_0000 != 0 && features & 0x10_0000 != 0,
    }
}

/// Whether this core can run code at the privilege level `required`.
pub fn features_priv_check(required: PrivilegeMode, hart: &Hart) -> (able: bool)
    ensures
        able == supports_privilege(hart.misa, required),
{
    let cpu = hart.read_csr(Csr::Misa);
    let supervisor = cpu & CPUFEATURES_SUPERVISOR_MODE != 0;
    let user = cpu & CPUFEATURES_USER_MODE != 0;
    match required {
        PrivilegeMode::Machine => true,
        PrivilegeMode::Supervisor => supervisor,
        PrivilegeMode::User => supervisor && user,
    }
}

/// The width in bits of the registers of the cores this monitor runs on.
pub fn get_isa_width() -> (width: usize)
    ensures
        width == 64,
{
    64
}

/// Number of extensions that have a letter in the description of a core.
pub const EXTENSION_COUNT: usize = 18;

/// The feature bit of the extension at `index` in the conventional order.
pub open spec fn extension_bit(index: int) -> u64 {
    if index == 0 {
        8
    } else if index == 1 {
        4
    } else if index == 2 {
        12
    } else if index == 3 {
        0
    } else if index == 4 {
        5
    } else if index == 5 {
        3
    } else if index == 6 {
        6
    } else if index == 7 {
        16
    } else if index == 8 {
        11
    } else if index == 9 {
        2
    } else if index == 10 {
        1
    } else if index == 11 {
        9
    } else if index == 12 {
        19
    } else if index == 13 {
        15
    } else if index == 14 {
        21
    } else if index == 15 {
        13
    } else if index == 16 {
        7
    } else {
        25
    }
}

/// The letter of the extension at `index` in the conventional order.
pub open spec fn extension_initial(index: int) -> char {
    if index == 0 {
        'I'
    } else if index == 1 {
        'E'
    } else if index == 2 {
        'M'
    } else if index == 3 {
        'A'
    } else if index == 4 {
        'F'
    } else if index == 5 {
        'D'
    } else if index == 6 {
        'G'
    } else if index == 7 {
        'Q'
    } else if index == 8 {
        'L'
    } else if index == 9 {
        'C'
    } else if index == 10 {
        'B'
    } else if index == 11 {
        'J'
    } else if index == 12 {
        'T'
    } else if index == 13 {
        'P'
    } else if index == 14 {
        'V'
    } else if index == 15 {
        'N'
    } else if index == 16 {
        'H'
    } else {
        'Z'
    }
}

/// The letters of those among the first `count` extensions that the
/// features `misa` include, in the conventional order.
pub open spec fn extension_letters(misa: u64, count: int) -> Seq<char>
    decreases count,
{
    if count <= 0 {
        Seq::empty()
    } else {
        let before = extension_letters(misa, count - 1);
        if misa & (1u64 << extension_bit(count - 1)) != 0 {
            before.push(extension_initial(count - 1))
        } else {
            before
        }
    }
}

/// The description of the instruction set of a core with the features
/// `misa`: `RV64` and the letters of its extensions.
pub open spec fn isa_string(misa: u64) -> Seq<char> {
    "RV64"@ + extension_letters(misa, 18)
}

/// A letter in lower case, if it is an upper-case letter of the basic
/// alphabet; any other character as it is.
pub open spec fn lowered(c: char) -> char {
    if 'A' as u32 <= c as u32 <= 'Z' as u32 {
        ((c as u32) + 32) as char
    } else {
        c
    }
}

/// The description of the instruction set of a core with the features
/// `misa`, in lower case.
pub open spec fn lowercase_isa_string(misa: u64) -> Seq<char> {
    isa_string(misa).map_values(|c: char| lowered(c))
}

/// The extension at `index`: its feature bit and its letter, in upper and
/// in lower case.
fn extension(index: usize) -> (entry: (u64, &'static str, &'static str))
    requires
        index < 18,
    ensures
        entry.0 == extension_bit(index as int),
        entry.0 < 64,
        entry.1@ == seq![extension_initial(index as int)],
        entry.2@ == seq![lowered(extension_initial(index as int))],
{
    proof {
        reveal_strlit("I");
        reveal_strlit("E");
        reveal_strlit("M");
        reveal_strlit("A");
        reveal_strlit("F");
        reveal_strlit("D");
        reveal_strlit("G");
        reveal_strlit("Q");
        reveal_strlit("L");
        reveal_strlit("C");
        reveal_strlit("B");
        reveal_strlit("J");
        reveal_strlit("T");
        reveal_strlit("P");
        reveal_strlit("V");
        reveal_strlit("N");
        reveal_strlit("H");
        reveal_strlit("Z");
        reveal_strlit("i");
        reveal_strlit("e");
        reveal_strlit("m");
        reveal_strlit("a");
        reveal_strlit("f");
        reveal_strlit("d");
        reveal_strlit("g");
        reveal_strlit("q");
        reveal_strlit("l");
        reveal_strlit("c");
        reveal_strlit("b");
        reveal_strlit("j");
        reveal_strlit("t");
        reveal_strlit("p");
        reveal_strlit("v");
        reveal_strlit("n");
        reveal_strlit("h");
        reveal_strlit("z");
    }
    let entry = match index {
        0 => (8, "I", "i"),
        1 => (4, "E", "e"),
        2 => (12, "M", "m"),
        3 => (0, "A", "a"),
        4 => (5, "F", "f"),
        5 => (3, "D", "d"),
        6 => (6, "G", "g"),
        7 => (16, "Q", "q"),
        8 => (11, "L", "l"),
        9 => (2, "C", "c"),
        10 => (1, "B", "b"),
        11 => (9, "J", "j"),
        12 => (19, "T", "t"),
        13 => (15, "P", "p"),
        14 => (21, "V", "v"),
        15 => (13, "N", "n"),
        16 => (7, "H", "h"),
        _ => (25, "Z", "z"),
    };
    assert(entry.1@ =~= seq![extension_initial(index as int)]);
    assert(entry.2@ =~= seq![lowered(extension_initial(index as int))]);
    entry
}

/// The name of the microarchitecture with the identifier `marchid`.
pub open spec fn arch_name(marchid: u64) -> Seq<char> {
    if marchid == 0 {
        "Qemu/SiFive/Unknown"@
    } else if marchid == 1 {
        "Rocket"@
    } else if marchid == 2 {
        "BOOM"@
    } else if marchid == 3 {
        "Ariane"@
    } else if marchid == 4 {
        "RI5CY"@
    } else if marchid == 5 {
        "Spike"@
    } else if marchid == 6 {
        "E-Class"@
    } else if marchid == 7 || marchid == 8 {
        "ORCA"@
    } else if marchid == 9 {
        "YARVI"@
    } else if marchid == 10 {
        "RVBS"@
    } else if marchid == 11 {
        "SweRV EH1"@
    } else if marchid == 12 {
        "MSCC"@
    } else if marchid == 13 {
        "BlackParrot"@
    } else if marchid == 14 {
        "BaseJump Manycore"@
    } else if marchid == 15 {
        "C-Class"@
    } else if marchid == 16 {
        "SweRV EL2"@
    } else if marchid == 17 {
        "SweRV EH2"@
    } else if marchid == 18 {
        "SERV"@
    } else if marchid == 19 {
        "NEORV32"@
    } else {
        "Unknown"@
    }
}

/// Describes the running core: the width of its registers, its extensions
/// and the name of its microarchitecture.
#[derive(Clone, Copy, Debug)]
pub struct CPUDescription;

impl CPUDescription {
    /// The instruction set in the usual form: `RV64` followed by the
    /// letters of the extensions, upper case, without spaces.
    pub fn isa_to_string(&self, hart: &Hart) -> (isa: String)
        ensures
            isa@ == isa_string(hart.misa),
    {
        let misa = hart.read_csr(Csr::Misa);
        let mut isa = String::from_str("RV64");
        let mut i: usize = 0;
        while i < EXTENSION_COUNT
            invariant
                i <= 18,
                misa == hart.misa,
                isa@ == "RV64"@ + extension_letters(misa, i as int),
            decreases 18 - i,
        {
            let (bit, initial, _) = extension(i);
            if misa & (1u64 << bit) != 0 {
                isa.append(initial);
            }
            assert(isa@ =~= "RV64"@ + extension_letters(misa, i + 1));
            i = i + 1;
        }
        isa
    }

    /// The instruction set as [`CPUDescription::isa_to_string`] gives it,
    /// in lower case.
    pub fn isa_to_lowercase_string(&self, hart: &Hart) -> (isa: String)
        ensures
            isa@ == lowercase_isa_string(hart.misa),
    {
        let misa = hart.read_csr(Csr::Misa);
        let mut isa = String::from_str("rv64");
        proof {
            reveal_strlit("RV64");
            reveal_strlit("rv64");
            assert("rv64"@ =~= "RV64"@.map_values(|c: char| lowered(c)));
        }
        let mut i: usize = 0;
        while i < EXTENSION_COUNT
            invariant
                i <= 18,
                misa == hart.misa,
                isa@ == ("RV64"@ + extension_letters(misa, i as int)).map_values(
                    |c: char| lowered(c),
                ),
            decreases 18 - i,
        {
            let ghost before = "RV64"@ + extension_letters(misa, i as int);
            let (bit, _, initial) = extension(i);
            if misa & (1u64 << bit) != 0 {
                isa.append(initial);
                assert(isa@ =~= before.push(extension_initial(i as int)).map_values(
                    |c: char| lowered(c),
                ));
                assert(before.push(extension_initial(i as int)) =~= "RV64"@ + extension_letters(
                    misa,
                    i + 1,
                ));
            } else {
                assert(before =~= "RV64"@ + extension_letters(misa, i + 1));
            }
            i = i + 1;
        }
        isa
    }

    /// The name of the core's microarchitecture.
    pub fn arch_to_string(&self, hart: &Hart) -> (arch: String)
        ensures
            arch@ == arch_name(hart.marchid),
    {
        let name = match hart.read_csr(Csr::Marchid) {
            0 => "Qemu/SiFive/Unknown",
            1 => "Rocket",
            2 => "BOOM",
            3 => "Ariane",
            4 => "RI5CY",
            5 => "Spike",
            6 => "E-Class",
            7 => "ORCA",
            8 => "ORCA",
            9 => "YARVI",
            10 => "RVBS",
            11 => "SweRV EH1",
            12 => "MSCC",
            13 => "BlackParrot",
            14 => "BaseJump Manycore",
            15 => "C-Class",
            16 => "SweRV EL2",
            17 => "SweRV EH2",
            18 => "SERV",
            19 => "NEORV32",
            _ => "Unknown",
        };
        String::from_str(name)
    }

    /// The description for people to read: the instruction set, a space,
    /// and the microarchitecture in brackets.
    pub fn description(&self, hart: &Hart) -> (text: String)
        ensures
            text@ == isa_string(hart.misa) + " ("@ + arch_name(hart.marchid) + ")"@,
    {
        let mut text = self.isa_to_string(hart);
        text.append(" (");
        let arch = self.arch_to_string(hart);
        text.append(arch.as_str());
        text.append(")");
        text
    }
}

/// A state that was saved from a stacked frame and is loaded into another
/// frame gives the guest back the integer registers and the supervisor
/// registers that it had, whatever the frame and the hart held in between.
pub proof fn lemma_save_then_load(
    saved_hart: Hart,
    saved_context: Seq<u64>,
    state: SupervisorState,
    fp_state: SupervisorFPState,
    other_hart: Hart,
    other_context: Seq<u64>,
    loaded_hart: Hart,
    loaded_context: Seq<u64>,
)
    requires
        saved_context.len() == 32,
        other_context.len() == 32,
        saved(saved_hart, saved_context, state),
        loaded_context =~= seq![other_context[0]] + state.registers@,
        cpu_fp_loaded(state, fp_state, other_hart, loaded_hart),
    ensures
        forall|k: int| 1 <= k < 32 ==> loaded_context[k] == saved_context[k],
        loaded_hart.sstatus == saved_hart.sstatus,
        loaded_hart.sedeleg == saved_hart.sedeleg,
        loaded_hart.sideleg == saved_hart.sideleg,
        loaded_hart.stvec == saved_hart.stvec,
        loaded_hart.sip == saved_hart.sip,
        loaded_hart.sie == saved_hart.sie,
        loaded_hart.scounteren == saved_hart.scounteren,
        loaded_hart.sscratch == saved_hart.sscratch,
        loaded_hart.sepc == saved_hart.sepc,
        loaded_hart.scause == saved_hart.scause,
        loaded_hart.stval == saved_hart.stval,
        loaded_hart.satp == saved_hart.satp,
        loaded_hart.mepc == saved_hart.mepc,
        spec_previous_privilege(loaded_hart.mstatus) == spec_previous_privilege(
            saved_hart.mstatus,
        ),
{
    let m = saved_hart.mstatus;
    assert((((m & !(0x3u64 << 13)) | (2u64 << 13)) >> 11) & 0x3 == (m >> 11) & 0x3)
        by (bit_vector);
    assert forall|k: int| 1 <= k < 32 implies loaded_context[k] == saved_context[k] by {
        assert(state.registers@[k - 1] == saved_context.subrange(1, 32)[k - 1]);
    }
}

/// A save while the machine status does not say that a floating-point
/// register was written leaves the saved floating-point state untouched.
pub proof fn lemma_lazy_fp_save(hart: Hart, before: SupervisorFPState, after: SupervisorFPState)
    requires
        fp_status(hart.mstatus) != 3,
        fp_saved(hart, before, after),
    ensures
        after == before,
{
}

/// After a load with the floating-point unit on, the machine status says
/// that the floating-point registers are clean.
pub proof fn lemma_load_marks_clean(mstatus: u64)
    ensures
        fp_status(marked_clean(mstatus)) == 2,
{
    assert((((mstatus & !(0x3u64 << 13)) | (2u64 << 13)) >> 13) & 0x3 == 2) by (bit_vector);
}

} // verus!

