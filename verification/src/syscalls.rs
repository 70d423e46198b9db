//! The supervisor binary interface: decoding a guest's call into a reply in
//! its registers and an action for the policy layer.
//!
//! A call names an extension in `a7` and a function in `a6`. The reply is an
//! error code in `a0` and a value in `a1`. The handler never blocks,
//! schedules or allocates: what must happen outside the hart is handed back
//! as an [`Action`].

use vstd::prelude::*;
use crate::csr::Csr;
use crate::csr::Hart;
use crate::irq::IRQContext;
use crate::irq::REG_A0;
use crate::irq::REG_A1;
use crate::irq::REG_A2;
use crate::irq::REG_A6;
use crate::irq::REG_A7;
use crate::timer::TimerValue;
use crate::timer::clear_supervisor_irq;
use crate::timer::enable_supervisor_irq;

verus! {

/// Version of the interface that is implemented: 0.2.
pub const SBI_SPEC_VERSION: u64 = 2;

/// Identifier of this implementation.
pub const SBI_IMPL_ID: u64 = 5;

/// Version of this implementation.
pub const SBI_IMPL_VERSION: u64 = 1;

/// The extension that holds the monitor's own calls.
pub const SBI_EXT_DIOSIX: u64 = 0x0A00_0005;

pub const SBI_EXT_DIOSIX_YIELD: u64 = 0;
pub const SBI_EXT_DIOSIX_REGISTER_SERVICE: u64 = 1;
pub const SBI_EXT_DIOSIX_CONSOLE_PUTC: u64 = 2;
pub const SBI_EXT_DIOSIX_CONSOLE_GETC: u64 = 3;
pub const SBI_EXT_DIOSIX_HV_GETC: u64 = 4;

pub const SBI_SUCCESS: u64 = 0;
pub const SBI_ERR_FAILED: u64 = 0xFFFF_FFFF_FFFF_FFFF;
pub const SBI_ERR_NOT_SUPPORTED: u64 = 0xFFFF_FFFF_FFFF_FFFE;
pub const SBI_ERR_INVALID_PARAM: u64 = 0xFFFF_FFFF_FFFF_FFFD;
pub const SBI_ERR_DENIED: u64 = 0xFFFF_FFFF_FFFF_FFFC;
pub const SBI_ERR_INVALID_ADDRESS: u64 = 0xFFFF_FFFF_FFFF_FFFB;
pub const SBI_ERR_ALREADY_AVAILABLE: u64 = 0xFFFF_FFFF_FFFF_FFFA;

pub const SBI_EXT_CONSOLE_PUTCHAR: u64 = 0x1;
pub const SBI_EXT_CONSOLE_GETCHAR: u64 = 0x2;
pub const SBI_EXT_SHUTDOWN: u64 = 0x8;

pub const SBI_EXT_BASE: u64 = 0x10;
pub const SBI_EXT_BASE_GET_SPEC_VERSION: u64 = 0;
pub const SBI_EXT_BASE_GET_IMPL_ID: u64 = 1;
pub const SBI_EXT_BASE_GET_IMPL_VERSION: u64 = 2;
pub const SBI_EXT_BASE_PROBE_EXTENSION: u64 = 3;
pub const SBI_EXT_BASE_GET_MVENDORID: u64 = 4;
pub const SBI_EXT_BASE_GET_MARCHID: u64 = 5;
pub const SBI_EXT_BASE_GET_MIMPLD: u64 = 6;

pub const SBI_EXT_TIMER: u64 = 0x5449_4d45;
pub const SBI_EXT_TIMER_SET: u64 = 0;
pub const SBI_LEGACY_TIMER_SET: u64 = 0;

pub const SBI_EXT_RFENCE: u64 = 0x5246_4e43;
pub const SBI_EXT_RFENCE_I: u64 = 0;
pub const SBI_EXT_RFENCE_SFENCE_VMA: u64 = 1;
pub const SBI_LEGACY_REMOTE_FENCE_I: u64 = 5;
pub const SBI_LEGACY_SFENCE_VMA: u64 = 6;

pub const SBI_EXT_SYS_RESET: u64 = 0x5352_5354;
pub const SBI_EXT_SYS_RESET_FUNC: u64 = 0;
pub const SBI_EXT_SYS_RESET_SHUTDOWN: u64 = 0;
pub const SBI_EXT_SYS_RESET_COLD_REBOOT: u64 = 1;
pub const SBI_EXT_SYS_RESET_WARM_REBOOT: u64 = 2;

/// What the policy layer is asked to do after a call.
#[derive(Clone, Copy, Debug, PartialEq, Eq, Structural)]
pub enum Action {
    /// Give the physical core to another virtual core, if there is one.
    Yield,
    /// End the running guest.
    Terminate,
    /// Restart the running guest.
    Restart,
    /// Raise a timer interrupt at or after the given time.
    TimerIRQAt(TimerValue),
    /// Write a character to the console.
    OutputChar(char),
    /// Read a character from the console.
    InputChar,
    /// Write a character to the console buffer of the given capsule.
    ConsoleBufferWriteChar(char, u64),
    /// Read the next character from the guests' console buffers.
    ConsoleBufferReadChar,
    /// Read the next character from the monitor's own log buffer.
    HypervisorBufferReadChar,
    /// Register the calling capsule as the provider of a service.
    RegisterService(u64),
    /// A call that is not implemented: its extension and function.
    Unknown(u64, u64),
}

/// How the policy layer reports that an action did not succeed.
#[derive(Clone, Copy, Debug, PartialEq, Eq, Structural)]
pub enum ActionResult {
    /// The action did not work.
    Failed,
    /// The action was not permitted.
    Denied,
    /// The action's parameters were invalid.
    BadParams,
    /// The action is not supported after all.
    Unsupported,
}

/// The services that a call can name.
pub enum Service {
    LegacyPutChar,
    LegacyGetChar,
    LegacyShutdown,
    SpecVersion,
    ImplId,
    ImplVersion,
    ProbeExtension,
    VendorId,
    ArchId,
    MachineImplId,
    FenceI,
    SfenceVma,
    TimerSet,
    SystemReset,
    Yield,
    RegisterService,
    ConsolePutc,
    ConsoleGetc,
    HypervisorGetc,
    Unsupported,
}

/// The service that extension `ext`, function `func` names. Legacy
/// extensions have one service each, whatever the function.
pub open spec fn service_of(ext: u64, func: u64) -> Service {
    if ext == 0x1 {
        Service::LegacyPutChar
    } else if ext == 0x2 {
        Service::LegacyGetChar
    } else if ext == 0x8 {
        Service::LegacyShutdown
    } else if ext == 0x10 && func == 0 {
        Service::SpecVersion
    } else if ext == 0x10 && func == 1 {
        Service::ImplId
    } else if ext == 0x10 && func == 2 {
        Service::ImplVersion
    } else if ext == 0x10 && func == 3 {
        Service::ProbeExtension
    } else if ext == 0x10 && func == 4 {
        Service::VendorId
    } else if ext == 0x10 && func == 5 {
        Service::ArchId
    } else if ext == 0x10 && func == 6 {
        Service::MachineImplId
    } else if ext == 5 || (ext == 0x5246_4e43 && func == 0) {
        Service::FenceI
    } else if ext == 6 || (ext == 0x5246_4e43 && func == 1) {
        Service::SfenceVma
    } else if ext == 0 || (ext == 0x5449_4d45 && func == 0) {
        Service::TimerSet
    } else if ext == 0x5352_5354 && func == 0 {
        Service::SystemReset
    } else if ext == 0x0A00_0005 && func == 0 {
        Service::Yield
    } else if ext == 0x0A00_0005 && func == 1 {
        Service::RegisterService
    } else if ext == 0x0A00_0005 && func == 2 {
        Service::ConsolePutc
    } else if ext == 0x0A00_0005 && func == 3 {
        Service::ConsoleGetc
    } else if ext == 0x0A00_0005 && func == 4 {
        Service::HypervisorGetc
    } else {
        Service::Unsupported
    }
}

/// The extensions that a probe reports as present.
pub open spec fn supported_extension(ext: u64) -> bool {
    ext == 0x10 || ext == 0x5449_4d45 || ext == 0x5246_4e43 || ext == 0x5352_5354 || ext
        == 0x0A00_0005 || ext == 0x1 || ext == 0x2 || ext == 5 || ext == 0
}

/// The answer to a probe: the extension's own identifier where it is
/// present, zero where it is not.
pub open spec fn probe_result(ext: u64) -> u64 {
    if supported_extension(ext) {
        ext
    } else {
        0
    }
}

/// What a call leaves in the guest's reply registers.
pub enum Reply {
    /// `a0` and `a1` stay as the guest set them: the policy layer replies.
    Deferred,
    /// `a0` is zero and `a1` holds the value.
    Value(u64),
    /// `a0` holds the error code and `a1` stays.
    Error(u64),
}

/// The guest's registers after a reply.
pub open spec fn replied(registers: Seq<u64>, reply: Reply) -> Seq<u64> {
    match reply {
        Reply::Deferred => registers,
        Reply::Value(value) => registers.update(10, 0u64).update(11, value),
        Reply::Error(code) => registers.update(10, code),
    }
}

/// The reply that the handler itself gives to a call.
pub open spec fn reply_of(registers: Seq<u64>, hart: Hart) -> Reply {
    let a0 = registers[10];
    match service_of(registers[17], registers[16]) {
        Service::LegacyPutChar => Reply::Value(0),
        Service::LegacyGetChar => Reply::Deferred,
        Service::LegacyShutdown => Reply::Deferred,
        Service::SpecVersion => Reply::Value(2),
        Service::ImplId => Reply::Value(5),
        Service::ImplVersion => Reply::Value(1),
        Service::ProbeExtension => Reply::Value(probe_result(a0)),
        Service::VendorId => Reply::Value(hart.mvendorid),
        Service::ArchId => Reply::Value(hart.marchid),
        Service::MachineImplId => Reply::Value(hart.mimpid),
        Service::FenceI => Reply::Value(0),
        Service::SfenceVma => Reply::Value(0),
        Service::TimerSet => Reply::Value(0),
        Service::SystemReset => if a0 == 0 || a0 == 1 || a0 == 2 {
            Reply::Deferred
        } else {
            Reply::Error(0xFFFF_FFFF_FFFF_FFFE)
        },
        Service::Yield => Reply::Value(0),
        Service::RegisterService => Reply::Value(0),
        Service::ConsolePutc => Reply::Value(0),
        Service::ConsoleGetc => Reply::Deferred,
        Service::HypervisorGetc => Reply::Deferred,
        Service::Unsupported => Reply::Error(0xFFFF_FFFF_FFFF_FFFE),
    }
}

/// The action that a call asks of the policy layer, if any.
pub open spec fn action_of(registers: Seq<u64>) -> Option<Action> {
    let ext = registers[17];
    let func = registers[16];
    let a0 = registers[10];
    let a1 = registers[11];
    match service_of(ext, func) {
        Service::LegacyPutChar => Some(Action::OutputChar((a0 as u8) as char)),
        Service::LegacyGetChar => Some(Action::InputChar),
        Service::LegacyShutdown => Some(Action::Terminate),
        Service::SpecVersion => None,
        Service::ImplId => None,
        Service::ImplVersion => None,
        Service::ProbeExtension => None,
        Service::VendorId => None,
        Service::ArchId => None,
        Service::MachineImplId => None,
        Service::FenceI => None,
        Service::SfenceVma => None,
        Service::TimerSet => Some(Action::TimerIRQAt(TimerValue::Exact(a0))),
        Service::SystemReset => if a0 == 0 {
            Some(Action::Terminate)
        } else if a0 == 1 || a0 == 2 {
            Some(Action::Restart)
        } else {
            Some(Action::Unknown(ext, func))
        },
        Service::Yield => Some(Action::Yield),
        Service::RegisterService => Some(Action::RegisterService(a0)),
        Service::ConsolePutc => Some(Action::ConsoleBufferWriteChar((a0 as u8) as char, a1)),
        Service::ConsoleGetc => Some(Action::ConsoleBufferReadChar),
        Service::HypervisorGetc => Some(Action::HypervisorBufferReadChar),
        Service::Unsupported => Some(Action::Unknown(ext, func)),
    }
}

/// What a call does to the hart. A fence is owed after either fence call;
/// setting the timer clears the supervisor's pending timer interrupt and
/// enables it. No other call touches the hart.
pub open spec fn hart_after(registers: Seq<u64>, hart: Hart) -> Hart {
    match service_of(registers[17], registers[16]) {
        Service::FenceI => Hart { instruction_fence_pending: true, ..hart },
        Service::SfenceVma => Hart { tlb_flush_pending: true, ..hart },
        Service::TimerSet => Hart { mip: hart.mip & !0x20u64, mie: hart.mie | 0x20, ..hart },
        _ => hart,
    }
}

/// Whether a probe reports `ext` as present.
fn is_supported_extension(ext: u64) -> (present: bool)
    ensures
        present == supported_extension(ext),
{
    let extensions: [u64; 9] = [
        SBI_EXT_BASE,
        SBI_EXT_TIMER,
        SBI_EXT_RFENCE,
        SBI_EXT_SYS_RESET,
        SBI_EXT_DIOSIX,
        SBI_EXT_CONSOLE_PUTCHAR,
        SBI_EXT_CONSOLE_GETCHAR,
        SBI_LEGACY_REMOTE_FENCE_I,
        SBI_LEGACY_TIMER_SET,
    ];
    let mut i: usize = 0;
    while i < 9
        invariant
            i <= 9,
            extensions[0] == 0x10,
            extensions[1] == 0x5449_4d45,
            extensions[2] == 0x5246_4e43,
            extensions[3] == 0x5352_5354,
            extensions[4] == 0x0A00_0005,
            extensions[5] == 0x1,
            extensions[6] == 0x2,
            extensions[7] == 5,
            extensions[8] == 0,
            forall|k: int| 0 <= k < i ==> extensions[k] != ext,
        decreases 9 - i,
    {
        if extensions[i] == ext {
            return true;
        }
        i = i + 1;
    }
    false
}

/// Decodes the call in `context`, writes the reply that is already known
/// into the guest's registers and returns the action that is left for the
/// policy layer. A supported call is taken to succeed; the policy layer
/// overwrites the reply with [`failed`] or one of the `result` functions
/// where it turns out otherwise. A call that is not implemented is answered
/// with the not-supported error and reported as `Action::Unknown`.
pub fn handler(context: &mut IRQContext, hart: &mut Hart) -> (action: Option<Action>)
    ensures
        action == action_of(old(context)@),
        final(context)@ == replied(old(context)@, reply_of(old(context)@, *old(hart))),
        *final(hart) == hart_after(old(context)@, *old(hart)),
{
    let extension = context.registers[REG_A7];
    let function = context.registers[REG_A6];
    let a0 = context.registers[REG_A0];
    let a1 = context.registers[REG_A1];

    if extension == SBI_EXT_CONSOLE_PUTCHAR {
        let c = a0 as u8 as char;
        success(context, 0);
        Some(Action::OutputChar(c))
    } else if extension == SBI_EXT_CONSOLE_GETCHAR {
        Some(Action::InputChar)
    } else if extension == SBI_EXT_SHUTDOWN {
        Some(Action::Terminate)
    } else if extension == SBI_EXT_BASE && function == SBI_EXT_BASE_GET_SPEC_VERSION {
        success(context, SBI_SPEC_VERSION);
        None
    } else if extension == SBI_EXT_BASE && function == SBI_EXT_BASE_GET_IMPL_ID {
        success(context, SBI_IMPL_ID);
        None
    } else if extension == SBI_EXT_BASE && function == SBI_EXT_BASE_GET_IMPL_VERSION {
        success(context, SBI_IMPL_VERSION);
        None
    } else if extension == SBI_EXT_BASE && function == SBI_EXT_BASE_PROBE_EXTENSION {
        if is_supported_extension(a0) {
            success(context, a0);
        } else {
            success(context, 0);
        }
        None
    } else if extension == SBI_EXT_BASE && function == SBI_EXT_BASE_GET_MVENDORID {
        success(context, hart.read_csr(Csr::Mvendorid));
        None
    } else if extension == SBI_EXT_BASE && function == SBI_EXT_BASE_GET_MARCHID {
        success(context, hart.read_csr(Csr::Marchid));
        None
    } else if extension == SBI_EXT_BASE && function == SBI_EXT_BASE_GET_MIMPLD {
        success(context, hart.read_csr(Csr::Mimpid));
        None
    } else if extension == SBI_LEGACY_REMOTE_FENCE_I || (extension == SBI_EXT_RFENCE && function
        == SBI_EXT_RFENCE_I) {
        hart.instruction_fence_pending = true;
        success(context, 0);
        None
    } else if extension == SBI_LEGACY_SFENCE_VMA || (extension == SBI_EXT_RFENCE && function
        == SBI_EXT_RFENCE_SFENCE_VMA) {
        hart.tlb_flush_pending = true;
        success(context, 0);
        None
    } else if extension == SBI_LEGACY_TIMER_SET || (extension == SBI_EXT_TIMER && function
        == SBI_EXT_TIMER_SET) {
        clear_supervisor_irq(hart);
        enable_supervisor_irq(hart);
        success(context, 0);
        Some(Action::TimerIRQAt(TimerValue::Exact(a0)))
    } else if extension == SBI_EXT_SYS_RESET && function == SBI_EXT_SYS_RESET_FUNC {
        if a0 == SBI_EXT_SYS_RESET_SHUTDOWN {
            Some(Action::Terminate)
        } else if a0 == SBI_EXT_SYS_RESET_WARM_REBOOT || a0 == SBI_EXT_SYS_RESET_COLD_REBOOT {
            Some(Action::Restart)
        } else {
            set_error_code(context, SBI_ERR_NOT_SUPPORTED);
            Some(Action::Unknown(SBI_EXT_SYS_RESET, SBI_EXT_SYS_RESET_FUNC))
        }
    } else if extension == SBI_EXT_DIOSIX && function == SBI_EXT_DIOSIX_YIELD {
        success(context, 0);
        Some(Action::Yield)
    } else if extension == SBI_EXT_DIOSIX && function == SBI_EXT_DIOSIX_REGISTER_SERVICE {
        success(context, 0);
        Some(Action::RegisterService(a0))
    } else if extension == SBI_EXT_DIOSIX && function == SBI_EXT_DIOSIX_CONSOLE_PUTC {
        let character = (a0 & 0xff) as u8 as char;
        assert((a0 & 0xff) as u8 == a0 as u8) by (bit_vector);
        success(context, 0);
        Some(Action::ConsoleBufferWriteChar(character, a1))
    } else if extension == SBI_EXT_DIOSIX && function == SBI_EXT_DIOSIX_CONSOLE_GETC {
        Some(Action::ConsoleBufferReadChar)
    } else if extension == SBI_EXT_DIOSIX && function == SBI_EXT_DIOSIX_HV_GETC {
        Some(Action::HypervisorBufferReadChar)
    } else {
        set_error_code(context, SBI_ERR_NOT_SUPPORTED);
        Some(Action::Unknown(extension, function))
    }
}

/// The error code that stands for a reason of failure.
pub open spec fn error_code_of(reason: ActionResult) -> u64 {
    match reason {
        ActionResult::Failed => 0xFFFF_FFFF_FFFF_FFFFu64,
        ActionResult::Denied => 0xFFFF_FFFF_FFFF_FFFCu64,
        ActionResult::BadParams => 0xFFFF_FFFF_FFFF_FFFDu64,
        ActionResult::Unsupported => 0xFFFF_FFFF_FFFF_FFFEu64,
    }
}

/// Tells the guest that its call failed, and why.
pub fn failed(context: &mut IRQContext, reason: ActionResult)
    ensures
        final(context)@ == replied(old(context)@, Reply::Error(error_code_of(reason))),
{
    set_error_code(
        context,
        match reason {
            ActionResult::Failed => SBI_ERR_FAILED,
            ActionResult::Denied => SBI_ERR_DENIED,
            ActionResult::BadParams => SBI_ERR_INVALID_PARAM,
            ActionResult::Unsupported => SBI_ERR_NOT_SUPPORTED,
        },
    );
}

/// Tells the guest that its call succeeded, with `value` as the result.
pub fn result(context: &mut IRQContext, value: u64)
    ensures
        final(context)@ == replied(old(context)@, Reply::Value(value)),
{
    success(context, value);
}

/// Returns `value` in the error slot and zero in the value slot, for guests
/// that read the result of some calls from the error slot.
pub fn result_as_error(context: &mut IRQContext, value: u64)
    ensures
        final(context)@ == old(context)@.update(10, value).update(11, 0u64),
{
    success(context, 0);
    set_error_code(context, value);
    assert(context@ =~= old(context)@.update(10, value).update(11, 0u64));
}

/// As [`result`], with a second value in `a2`. Only calls of the monitor's
/// own extension return a second value.
pub fn result_1extra(context: &mut IRQContext, value: u64, extra1: u64)
    ensures
        final(context)@ == old(context)@.update(10, 0u64).update(11, value).update(12, extra1),
{
    set_error_code(context, SBI_SUCCESS);
    context.registers[REG_A1] = value;
    context.registers[REG_A2] = extra1;
}

/// Sets the error code of the reply.
pub fn set_error_code(context: &mut IRQContext, error_code: u64)
    ensures
        final(context)@ == replied(old(context)@, Reply::Error(error_code)),
{
    context.registers[REG_A0] = error_code;
}

/// Replies with success and a value. Overwrites `a0` and `a1`.
pub fn success(context: &mut IRQContext, result: u64)
    ensures
        final(context)@ == replied(old(context)@, Reply::Value(result)),
{
    set_error_code(context, SBI_SUCCESS);
    context.registers[REG_A1] = result;
}

/// A probe answers with the extension's identifier for every extension that
/// is present, and with zero for every other.
pub proof fn lemma_probe(registers: Seq<u64>, hart: Hart)
    requires
        registers.len() == 32,
        registers[17] == 0x10,
        registers[16] == 3,
    ensures
        action_of(registers) is None,
        supported_extension(registers[10]) ==> replied(registers, reply_of(registers, hart))[11]
            == registers[10],
        !supported_extension(registers[10]) ==> replied(registers, reply_of(registers, hart))[11]
            == 0,
        replied(registers, reply_of(registers, hart))[10] == 0,
{
}

} // verus!
