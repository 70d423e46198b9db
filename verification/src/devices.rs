//! The hardware that the monitor starts from, and the hardware that it
//! shows to a guest.
//!
//! Both are device trees. The host's tree comes from the firmware as a
//! blob; this module works on what the parser found in it, as plain values.
//! A guest's tree is made here as a list of properties to set, which is
//! then written out as a blob.

use vstd::prelude::*;
use vstd::string::StringExecFns;
use crate::cpu::CPUDescription;
use crate::cpu::lowercase_isa_string;
use crate::csr::Hart;
use crate::errata::from_model;
use crate::errata::known_errata;
use crate::physmem::PhysMemBase;
use crate::physmem::PhysMemSize;
use crate::physmem::RAMArea;
use crate::serial::SerialPort;
use crate::serial::SerialPortView;
use crate::serial::controller_for;
use crate::serial::port_for;
use crate::text::decimal_digits;
use crate::text::hex_digits;
use crate::text::to_decimal;
use crate::text::to_hex;
use crate::timer::Clint;
use crate::timer::PinnedTimer;
use crate::timer::Timer;
use crate::timer::TimerValue;

verus! {

/// Why something could not be had from a device tree.
#[derive(Clone, Copy, Debug, PartialEq, Eq, Structural)]
pub enum DeviceTreeError {
    /// The node, property or value is not there.
    NotFound,
    /// Addresses or sizes have a width that is not supported.
    WidthUnsupported,
    /// The device is there but cannot be driven.
    DeviceFailure,
    /// The property does not hold what was asked of it.
    CannotConvert,
    /// The blob is not a device tree.
    Malformed,
}

/// How many 32-bit cells an address and a size take in the `reg`
/// properties below a node.
#[derive(Clone, Copy, Debug, PartialEq, Eq, Structural)]
pub struct AddressSizeCells {
    pub address: usize,
    pub size: usize,
}

/// A property of the host's tree, in each of the readings that are asked
/// of it.
#[derive(Debug)]
pub struct Property {
    /// Read as text.
    pub as_text: Result<String, DeviceTreeError>,
    /// Read as one 32-bit number.
    pub as_u32: Result<u32, DeviceTreeError>,
    /// Read as a list of 32-bit numbers.
    pub as_multi_u32: Result<Vec<u32>, DeviceTreeError>,
    /// Read as a list of 64-bit numbers.
    pub as_multi_u64: Result<Vec<u64>, DeviceTreeError>,
}

/// A device node of the host's tree.
#[derive(Debug)]
pub struct HostNode {
    /// The cell counts of the node's parent, which govern its `reg`.
    pub cells: AddressSizeCells,
    /// The node's `reg` property.
    pub reg: Result<Property, DeviceTreeError>,
    /// The node's `compatible` property.
    pub compatible: Result<Property, DeviceTreeError>,
}

/// What discovery reads off the host's tree.
#[derive(Debug)]
pub struct HostDescription {
    /// The `model` property of the root.
    pub model: Result<Property, DeviceTreeError>,
    /// The cell counts of `/cpus`.
    pub cpu_cells: AddressSizeCells,
    /// The `reg` property of each `/cpus/cpu*` node.
    pub cpus: Vec<Result<Property, DeviceTreeError>>,
    /// The node that `/chosen/stdout-path` names, if that property is there
    /// and is text.
    pub chosen_console: Option<HostNode>,
    /// The nodes that `/aliases/serial0`, `serial1` and so on name, each if
    /// the alias is there and is text.
    pub serial_aliases: Vec<Option<HostNode>>,
    /// Each `/memory@*` node.
    pub memory: Vec<HostNode>,
    /// The first `/soc/clint@*` node.
    pub clint: Option<HostNode>,
    /// The `timebase-frequency` property of `/cpus`.
    pub timebase_frequency: Result<Property, DeviceTreeError>,
}

/// Number of serial aliases that are tried for the debug console.
pub const SERIAL_ALIASES: usize = 4;

/// Path of the root node, which holds the model name.
pub const ROOT_PATH: &'static str = "/";

/// Property of the root that names the platform.
pub const MODEL_PROPERTY: &'static str = "model";

/// Path of the node that holds the cores.
pub const CPUS_PATH: &'static str = "/cpus";

/// What the path of every core node starts with.
pub const CPU_NODES: &'static str = "/cpus/cpu";

/// How many levels down the core nodes lie.
pub const CPU_NODES_DEPTH: usize = 2;

/// Property of `/cpus` that holds the frequency of the time base.
pub const TIMEBASE_PROPERTY: &'static str = "timebase-frequency";

/// Path of the node that holds the firmware's choices.
pub const CHOSEN_PATH: &'static str = "/chosen";

/// Property of `/chosen` that names the node of the console.
pub const STDOUT_PROPERTY: &'static str = "stdout-path";

/// Path of the node that holds the aliases.
pub const ALIASES_PATH: &'static str = "/aliases";

/// What the name of every serial alias starts with; its number follows.
pub const SERIAL_ALIAS: &'static str = "serial";

/// What the path of every memory node starts with.
pub const MEMORY_NODES: &'static str = "/memory@";

/// How many levels down the memory nodes lie.
pub const MEMORY_NODES_DEPTH: usize = 1;

/// What the path of every core-local interrupt controller starts with.
pub const CLINT_NODES: &'static str = "/soc/clint@";

/// How many levels down the interrupt controllers lie.
pub const CLINT_NODES_DEPTH: usize = 2;

/// Property that holds the addresses and sizes of a node.
pub const REG_PROPERTY: &'static str = "reg";

/// Property that tells what a node is compatible with.
pub const COMPATIBLE_PROPERTY: &'static str = "compatible";

/// The name of the serial alias with the number `index`.
pub fn serial_alias(index: usize) -> (name: String)
    ensures
        name@ == "serial"@ + decimal_digits(index as nat),
{
    let mut name = String::from_str(SERIAL_ALIAS);
    name.append(to_decimal(index).as_str());
    name
}

/// The first two numbers of a node's `reg`, read at the width that the
/// node's address cells ask for: an address and a size.
pub open spec fn reg_pair(node: HostNode) -> Result<(u64, u64), DeviceTreeError> {
    match node.reg {
        Err(e) => Err(e),
        Ok(reg) => if node.cells.address == 1 {
            match reg.as_multi_u32 {
                Err(e) => Err(e),
                Ok(words) => if words@.len() >= 2 {
                    Ok((words@[0] as u64, words@[1] as u64))
                } else {
                    Err(DeviceTreeError::NotFound)
                },
            }
        } else if node.cells.address == 2 {
            match reg.as_multi_u64 {
                Err(e) => Err(e),
                Ok(words) => if words@.len() >= 2 {
                    Ok((words@[0], words@[1]))
                } else {
                    Err(DeviceTreeError::NotFound)
                },
            }
        } else {
            Err(DeviceTreeError::WidthUnsupported)
        },
    }
}

/// The first number of a node's `reg`, read at the width that the node's
/// address cells ask for.
pub open spec fn reg_base(node: HostNode) -> Result<u64, DeviceTreeError> {
    match node.reg {
        Err(e) => Err(e),
        Ok(reg) => if node.cells.address == 1 {
            match reg.as_multi_u32 {
                Err(e) => Err(e),
                Ok(words) => if words@.len() >= 1 {
                    Ok(words@[0] as u64)
                } else {
                    Err(DeviceTreeError::NotFound)
                },
            }
        } else if node.cells.address == 2 {
            match reg.as_multi_u64 {
                Err(e) => Err(e),
                Ok(words) => if words@.len() >= 1 {
                    Ok(words@[0])
                } else {
                    Err(DeviceTreeError::NotFound)
                },
            }
        } else {
            Err(DeviceTreeError::WidthUnsupported)
        },
    }
}

/// The RAM area that a memory node describes. Address and size must both
/// take one cell or both take two.
pub open spec fn ram_chunk(node: HostNode) -> Result<RAMArea, DeviceTreeError> {
    match node.reg {
        Err(e) => Err(e),
        Ok(_) => if (node.cells.address == 1 && node.cells.size == 1) || (node.cells.address == 2
            && node.cells.size == 2) {
            match reg_pair(node) {
                Err(e) => Err(e),
                Ok(pair) => Ok(RAMArea { base: pair.0, size: pair.1 }),
            }
        } else {
            Err(DeviceTreeError::WidthUnsupported)
        },
    }
}

/// The first two numbers of `reg` where an address takes one cell.
fn reg_pair_u32(reg: &Property) -> (pair: Result<(u64, u64), DeviceTreeError>)
    ensures
        pair == match reg.as_multi_u32 {
            Err(e) => Err::<(u64, u64), DeviceTreeError>(e),
            Ok(words) => if words@.len() >= 2 {
                Ok((words@[0] as u64, words@[1] as u64))
            } else {
                Err(DeviceTreeError::NotFound)
            },
        },
{
    match &reg.as_multi_u32 {
        Err(e) => Err(*e),
        Ok(words) => if words.len() >= 2 {
            Ok((words[0] as u64, words[1] as u64))
        } else {
            Err(DeviceTreeError::NotFound)
        },
    }
}

/// The first two numbers of `reg` where an address takes two cells.
fn reg_pair_u64(reg: &Property) -> (pair: Result<(u64, u64), DeviceTreeError>)
    ensures
        pair == match reg.as_multi_u64 {
            Err(e) => Err::<(u64, u64), DeviceTreeError>(e),
            Ok(words) => if words@.len() >= 2 {
                Ok((words@[0], words@[1]))
            } else {
                Err(DeviceTreeError::NotFound)
            },
        },
{
    match &reg.as_multi_u64 {
        Err(e) => Err(*e),
        Ok(words) => if words.len() >= 2 {
            Ok((words[0], words[1]))
        } else {
            Err(DeviceTreeError::NotFound)
        },
    }
}

/// Describes the RAM area of a memory node of the host's tree.
pub fn get_ram_chunk(node: &HostNode) -> (chunk: Result<RAMArea, DeviceTreeError>)
    ensures
        chunk == ram_chunk(*node),
{
    let reg = match &node.reg {
        Ok(r) => r,
        Err(e) => {
            return Err(*e);
        },
    };
    if node.cells.address == 1 && node.cells.size == 1 {
        match reg_pair_u32(reg) {
            Ok((base, size)) => Ok(RAMArea { base, size }),
            Err(e) => Err(e),
        }
    } else if node.cells.address == 2 && node.cells.size == 2 {
        match reg_pair_u64(reg) {
            Ok((base, size)) => Ok(RAMArea { base, size }),
            Err(e) => Err(e),
        }
    } else {
        Err(DeviceTreeError::WidthUnsupported)
    }
}

/// A property read as one 32-bit number.
pub open spec fn number_of(property: Result<Property, DeviceTreeError>) -> Result<
    u32,
    DeviceTreeError,
> {
    match property {
        Err(e) => Err(e),
        Ok(p) => p.as_u32,
    }
}

/// The timer behind the controller that `node` describes, counting at the
/// frequency that `timebase` holds.
pub open spec fn system_timer(
    timebase: Result<Property, DeviceTreeError>,
    node: HostNode,
) -> Result<Timer, DeviceTreeError> {
    match number_of(timebase) {
        Err(e) => Err(e),
        Ok(frequency) => match reg_base(node) {
            Err(e) => Err(e),
            Ok(base) => Ok(Timer::spec_new(frequency as u64, base)),
        },
    }
}

/// Makes the timer of the core-local interrupt controller that `node`
/// describes.
pub fn get_system_timer(timebase: &Result<Property, DeviceTreeError>, node: &HostNode) -> (timer:
    Result<Timer, DeviceTreeError>)
    ensures
        timer == system_timer(*timebase, *node),
{
    let tbf = match timebase {
        Ok(f) => match f.as_u32 {
            Ok(value) => value as u64,
            Err(e) => {
                return Err(e);
            },
        },
        Err(e) => {
            return Err(*e);
        },
    };
    let reg = match &node.reg {
        Ok(r) => r,
        Err(e) => {
            return Err(*e);
        },
    };
    if node.cells.address == 1 {
        match &reg.as_multi_u32 {
            Err(e) => Err(*e),
            Ok(words) => if words.len() >= 1 {
                Ok(Timer::new(tbf, words[0] as u64))
            } else {
                Err(DeviceTreeError::NotFound)
            },
        }
    } else if node.cells.address == 2 {
        match &reg.as_multi_u64 {
            Err(e) => Err(*e),
            Ok(words) => if words.len() >= 1 {
                Ok(Timer::new(tbf, words[0]))
            } else {
                Err(DeviceTreeError::NotFound)
            },
        }
    } else {
        Err(DeviceTreeError::WidthUnsupported)
    }
}

/// What is needed to set up the serial port that a node describes.
pub struct ConsoleRequest {
    pub base: PhysMemBase,
    pub size: PhysMemSize,
    pub compat: Seq<char>,
}

/// What a node says of the serial port it describes: where its registers
/// are and what it is compatible with.
pub open spec fn console_request(node: HostNode) -> Result<ConsoleRequest, DeviceTreeError> {
    match (node.reg, node.compatible) {
        (Err(e), _) => Err(e),
        (Ok(_), Err(e)) => Err(e),
        (Ok(_), Ok(compatible)) => match reg_pair(node) {
            Err(e) => Err(e),
            Ok(pair) => match compatible.as_text {
                Err(e) => Err(e),
                Ok(text) => Ok(ConsoleRequest { base: pair.0, size: pair.1, compat: text@ }),
            },
        },
    }
}

/// The serial port that comes of a request when the driver answers
/// `window`. A port that cannot be driven is a device failure.
pub open spec fn console_for(
    request: Result<ConsoleRequest, DeviceTreeError>,
    window: Option<PhysMemSize>,
) -> Result<SerialPortView, DeviceTreeError> {
    match request {
        Err(e) => Err(e),
        Ok(r) => match port_for(r.base, r.size, r.compat, window) {
            Some(port) => Ok(port),
            None => Err(DeviceTreeError::DeviceFailure),
        },
    }
}

/// The driver is asked about the request, and `window` is its answer.
pub open spec fn probe_answers<F: Fn(PhysMemBase) -> Option<PhysMemSize>>(
    probe: F,
    request: Result<ConsoleRequest, DeviceTreeError>,
    window: Option<PhysMemSize>,
) -> bool {
    match request {
        Ok(r) => controller_for(r.compat) is Some ==> call_ensures(probe, (r.base,), window),
        Err(_) => true,
    }
}

/// A port or an error, with the port as plain values.
pub open spec fn console_view(console: Result<SerialPort, DeviceTreeError>) -> Result<
    SerialPortView,
    DeviceTreeError,
> {
    match console {
        Ok(port) => Ok(port@),
        Err(e) => Err(e),
    }
}

/// The driver can be asked about a controller at any address.
pub open spec fn probes_anywhere<F: Fn(PhysMemBase) -> Option<PhysMemSize>>(probe: F) -> bool {
    forall|base: PhysMemBase| #[trigger] call_requires(probe, (base,))
}

/// Makes the serial port that `node` describes.
pub fn create_debug_console<F: Fn(PhysMemBase) -> Option<PhysMemSize>>(
    node: &HostNode,
    probe: F,
) -> (console: Result<SerialPort, DeviceTreeError>)
    requires
        probes_anywhere(probe),
    ensures
        exists|window: Option<PhysMemSize>|
            #![trigger console_for(console_request(*node), window)]
            probe_answers(probe, console_request(*node), window) && console_view(console)
                == console_for(console_request(*node), window),
{
    let reg = match &node.reg {
        Ok(r) => r,
        Err(e) => {
            assert(console_view(Err(*e)) == console_for(console_request(*node), None));
            return Err(*e);
        },
    };
    let compat = match &node.compatible {
        Ok(c) => c,
        Err(e) => {
            assert(console_view(Err(*e)) == console_for(console_request(*node), None));
            return Err(*e);
        },
    };
    let pair = if node.cells.address == 1 {
        reg_pair_u32(reg)
    } else if node.cells.address == 2 {
        reg_pair_u64(reg)
    } else {
        Err(DeviceTreeError::WidthUnsupported)
    };
    let (base, size) = match pair {
        Ok(p) => p,
        Err(e) => {
            assert(console_view(Err(e)) == console_for(console_request(*node), None));
            return Err(e);
        },
    };
    let text = match &compat.as_text {
        Ok(t) => t,
        Err(e) => {
            assert(console_view(Err(*e)) == console_for(console_request(*node), None));
            return Err(*e);
        },
    };
    let port = SerialPort::new(base, size, text, probe);
    let console = match port {
        Some(sp) => Ok(sp),
        None => Err(DeviceTreeError::DeviceFailure),
    };
    proof {
        if controller_for(text@) is Some {
            let window = choose|window: Option<PhysMemSize>| #[trigger]
                call_ensures(probe, (base,), window) && crate::serial::port_matches(
                    port,
                    port_for(base, size, text@, window),
                );
            assert(console_view(console) == console_for(console_request(*node), window));
        } else {
            assert(console_view(console) == console_for(console_request(*node), None));
        }
    }
    console
}

/// The node that describes the debug console among the first `count`
/// aliases, if one of them is there.
pub open spec fn first_alias(aliases: Seq<Option<HostNode>>, count: int) -> Option<HostNode>
    decreases count,
{
    if count <= 0 {
        None
    } else {
        match first_alias(aliases, count - 1) {
            Some(node) => Some(node),
            None => aliases[count - 1],
        }
    }
}

/// The number of aliases that are tried: the first four at most.
pub open spec fn aliases_tried(host: HostDescription) -> int {
    if host.serial_aliases@.len() < 4 {
        host.serial_aliases@.len() as int
    } else {
        4
    }
}

/// The node that describes the debug console: the one that the firmware
/// chose for output, else the first of the serial aliases.
pub open spec fn console_node(host: HostDescription) -> Option<HostNode> {
    match host.chosen_console {
        Some(node) => Some(node),
        None => first_alias(host.serial_aliases@, aliases_tried(host)),
    }
}

/// The debug console of a host, given the driver's answer.
pub open spec fn debug_console_for(host: HostDescription, window: Option<PhysMemSize>) -> Result<
    SerialPortView,
    DeviceTreeError,
> {
    match console_node(host) {
        Some(node) => console_for(console_request(node), window),
        None => Err(DeviceTreeError::NotFound),
    }
}

/// The driver is asked about the host's console, and `window` is its
/// answer.
pub open spec fn console_probed<F: Fn(PhysMemBase) -> Option<PhysMemSize>>(
    probe: F,
    host: HostDescription,
    window: Option<PhysMemSize>,
) -> bool {
    match console_node(host) {
        Some(node) => probe_answers(probe, console_request(node), window),
        None => true,
    }
}

/// Finds a serial port for the debug console and makes it.
pub fn setup_debug_console<F: Fn(PhysMemBase) -> Option<PhysMemSize>>(
    host: &HostDescription,
    probe: F,
) -> (console: Result<SerialPort, DeviceTreeError>)
    requires
        probes_anywhere(probe),
    ensures
        exists|window: Option<PhysMemSize>|
            #![trigger debug_console_for(*host, window)]
            console_probed(probe, *host, window) && console_view(console) == debug_console_for(
                *host,
                window,
            ),
{
    if let Some(node) = &host.chosen_console {
        let console = create_debug_console(node, probe);
        proof {
            let window = choose|window: Option<PhysMemSize>|
                #![trigger console_for(console_request(*node), window)]
                probe_answers(probe, console_request(*node), window) && console_view(console)
                    == console_for(console_request(*node), window);
            assert(console_view(console) == debug_console_for(*host, window));
        }
        return console;
    }
    let tried = if host.serial_aliases.len() < SERIAL_ALIASES {
        host.serial_aliases.len()
    } else {
        SERIAL_ALIASES
    };
    let mut idx: usize = 0;
    while idx < tried
        invariant
            idx <= tried,
            probes_anywhere(probe),
            host.chosen_console is None,
            tried == aliases_tried(*host),
            tried <= host.serial_aliases@.len(),
            first_alias(host.serial_aliases@, idx as int) is None,
        decreases tried - idx,
    {
        if let Some(node) = &host.serial_aliases[idx] {
            let console = create_debug_console(node, probe);
            proof {
                lemma_first_alias(host.serial_aliases@, idx as int, tried as int);
                let window = choose|window: Option<PhysMemSize>|
                    #![trigger console_for(console_request(*node), window)]
                    probe_answers(probe, console_request(*node), window) && console_view(console)
                        == console_for(console_request(*node), window);
                assert(console_view(console) == debug_console_for(*host, window));
            }
            return console;
        }
        idx = idx + 1;
    }
    proof {
        assert(console_view(Err(DeviceTreeError::NotFound)) == debug_console_for(*host, None));
    }
    Err(DeviceTreeError::NotFound)
}

/// Once an alias is found, later aliases do not matter.
proof fn lemma_first_alias(aliases: Seq<Option<HostNode>>, at: int, count: int)
    requires
        0 <= at < count,
        first_alias(aliases, at) is None,
        aliases[at] is Some,
    ensures
        first_alias(aliases, count) == aliases[at],
    decreases count,
{
    if count > at + 1 {
        lemma_first_alias(aliases, at, count - 1);
    }
}

/// The number of identifiers in the `reg` of one core node.
pub open spec fn cpu_ids(cpu: Result<Property, DeviceTreeError>) -> Result<int, DeviceTreeError> {
    match cpu {
        Err(e) => Err(e),
        Ok(reg) => match reg.as_multi_u32 {
            Err(e) => Err(e),
            Ok(ids) => Ok(ids@.len() as int),
        },
    }
}

/// The number of logical cores that the first `count` core nodes hold: each
/// node lists the identifiers of its logical cores, `address_cells` cells
/// to an identifier. A node that cannot be read, an identifier of no cells
/// and a count beyond what a `usize` holds are errors.
pub open spec fn count_cores(
    cpus: Seq<Result<Property, DeviceTreeError>>,
    address_cells: usize,
    count: int,
) -> Result<int, DeviceTreeError>
    decreases count,
{
    if count <= 0 {
        Ok(0)
    } else {
        match count_cores(cpus, address_cells, count - 1) {
            Err(e) => Err(e),
            Ok(before) => match cpu_ids(cpus[count - 1]) {
                Err(e) => Err(e),
                Ok(ids) => if address_cells == 0 || before + ids / (address_cells as int)
                    > usize::MAX {
                    Err(DeviceTreeError::WidthUnsupported)
                } else {
                    Ok(before + ids / (address_cells as int))
                },
            },
        }
    }
}

/// The RAM areas that the first `count` memory nodes describe, or the
/// error of the first node among them that cannot be read.
pub open spec fn ram_areas(memory: Seq<HostNode>, count: int) -> Result<
    Seq<RAMArea>,
    DeviceTreeError,
>
    decreases count,
{
    if count <= 0 {
        Ok(Seq::empty())
    } else {
        match ram_areas(memory, count - 1) {
            Err(e) => Err(e),
            Ok(areas) => match ram_chunk(memory[count - 1]) {
                Ok(chunk) => Ok(areas.push(chunk)),
                Err(e) => Err(e),
            },
        }
    }
}

/// The RAM of the host: the areas that its memory nodes describe. A host
/// without a memory node has no RAM to run on, which is an error as much
/// as a node that cannot be read.
pub open spec fn system_ram(host: HostDescription) -> Result<Seq<RAMArea>, DeviceTreeError> {
    if host.memory@.len() == 0 {
        Err(DeviceTreeError::NotFound)
    } else {
        ram_areas(host.memory@, host.memory@.len() as int)
    }
}

/// The model name of the host.
pub open spec fn model_of(host: HostDescription) -> Result<Seq<char>, DeviceTreeError> {
    match host.model {
        Err(e) => Err(e),
        Ok(model) => match model.as_text {
            Err(e) => Err(e),
            Ok(text) => Ok(text@),
        },
    }
}

/// Why discovery fails on a host, if it does: its model, one of its core
/// nodes or its RAM cannot be read. The console and the timer are optional.
pub open spec fn discovery_error(host: HostDescription) -> Option<DeviceTreeError> {
    match model_of(host) {
        Err(e) => Some(e),
        Ok(_) => match count_cores(host.cpus@, host.cpu_cells.address, host.cpus@.len() as int) {
            Err(e) => Some(e),
            Ok(_) => match system_ram(host) {
                Err(e) => Some(e),
                Ok(_) => None,
            },
        },
    }
}

/// The timer for the scheduler: that of the host's first core-local
/// interrupt controller, if it has one and it can be read.
pub open spec fn scheduler_timer_of(host: HostDescription) -> Option<Timer> {
    match host.clint {
        None => None,
        Some(node) => match system_timer(host.timebase_frequency, node) {
            Ok(timer) => Some(timer),
            Err(_) => None,
        },
    }
}

/// The frequency of the host's time base, if the tree tells it.
pub open spec fn timebase_of(host: HostDescription) -> Option<u32> {
    match number_of(host.timebase_frequency) {
        Ok(frequency) => Some(frequency),
        Err(_) => None,
    }
}

/// The basic devices of the machine: the cores, the RAM, an outlet for
/// debug messages and a timer for the scheduler.
#[derive(Debug)]
pub struct Devices {
    nr_cpu_cores: usize,
    system_ram: Vec<RAMArea>,
    debug_console: Option<SerialPort>,
    scheduler_timer: Option<Timer>,
    timebase_frequency: Option<u32>,
    errata_known: u64,
    errata_fixed: u64,
}

/// The value in a property of a guest's device tree.
#[derive(Debug)]
pub enum DeviceTreeProperty {
    /// The property is there and holds nothing.
    Empty,
    /// One 32-bit number.
    UnsignedInt32(u32),
    /// Pairs of 64-bit numbers.
    MultipleUnsignedInt64_64(Vec<(u64, u64)>),
    /// Text.
    Text(String),
}

/// The value of a property, as plain values.
pub enum PropertyView {
    Empty,
    UnsignedInt32(u32),
    MultipleUnsignedInt64_64(Seq<(u64, u64)>),
    Text(Seq<char>),
}

impl View for DeviceTreeProperty {
    type V = PropertyView;

    open spec fn view(&self) -> PropertyView {
        match self {
            DeviceTreeProperty::Empty => PropertyView::Empty,
            DeviceTreeProperty::UnsignedInt32(value) => PropertyView::UnsignedInt32(*value),
            DeviceTreeProperty::MultipleUnsignedInt64_64(pairs) => {
                PropertyView::MultipleUnsignedInt64_64(pairs@)
            },
            DeviceTreeProperty::Text(text) => PropertyView::Text(text@),
        }
    }
}

/// One property to set in a guest's device tree.
#[derive(Debug)]
pub struct PropertyEdit {
    /// Path of the node.
    pub path: String,
    /// Name of the property.
    pub name: String,
    pub value: DeviceTreeProperty,
}

/// One property to set, as plain values.
pub struct EditView {
    pub path: Seq<char>,
    pub name: Seq<char>,
    pub value: PropertyView,
}

impl View for PropertyEdit {
    type V = EditView;

    open spec fn view(&self) -> EditView {
        EditView { path: self.path@, name: self.name@, value: self.value@ }
    }
}

/// The device tree of a guest: the properties to set, in order, and the
/// core that boots the guest.
#[derive(Debug)]
pub struct GuestTree {
    pub edits: Vec<PropertyEdit>,
    pub boot_cpu_id: u32,
}

/// A list of properties to set, as plain values.
pub open spec fn edit_views(edits: Seq<PropertyEdit>) -> Seq<EditView> {
    edits.map_values(|edit: PropertyEdit| edit@)
}

/// A property that holds text.
pub open spec fn text_edit(path: Seq<char>, name: Seq<char>, text: Seq<char>) -> EditView {
    EditView { path, name, value: PropertyView::Text(text) }
}

/// A property that holds one 32-bit number.
pub open spec fn number_edit(path: Seq<char>, name: Seq<char>, value: u32) -> EditView {
    EditView { path, name, value: PropertyView::UnsignedInt32(value) }
}

/// The properties of the root, the memory and the `/cpus` node of a guest
/// with `ram_size` bytes of RAM at `ram_base`: addresses and sizes take two
/// cells each, there is one memory node named after its base address, core
/// identifiers take one cell, and the host's time base is passed on where
/// it is known.
pub open spec fn machine_edits(
    ram_base: PhysMemBase,
    ram_size: PhysMemSize,
    timebase: Option<u32>,
) -> Seq<EditView> {
    let memory = "/memory@"@ + hex_digits(ram_base as nat);
    let fixed = seq![
        number_edit("/"@, "#address-cells"@, 2),
        number_edit("/"@, "#size-cells"@, 2),
        EditView {
            path: memory,
            name: "reg"@,
            value: PropertyView::MultipleUnsignedInt64_64(seq![(ram_base, ram_size)]),
        },
        text_edit(memory, "device_type"@, "memory"@),
        number_edit("/cpus"@, "#address-cells"@, 1),
        number_edit("/cpus"@, "#size-cells"@, 0),
    ];
    match timebase {
        Some(frequency) => fixed.push(number_edit("/cpus"@, "timebase-frequency"@, frequency)),
        None => fixed,
    }
}

/// The properties of the virtual core `cpu` and of its interrupt
/// controller. `isa` names the instruction set in lower case.
pub open spec fn cpu_edits(cpu: usize, isa: Seq<char>) -> Seq<EditView> {
    let path = "/cpus/cpu@"@ + decimal_digits(cpu as nat);
    let controller = path + "/interrupt-controller"@;
    seq![
        text_edit(path, "device_type"@, "cpu"@),
        number_edit(path, "reg"@, cpu as u32),
        text_edit(path, "status"@, "okay"@),
        text_edit(path, "compatible"@, "riscv"@),
        text_edit(path, "mmu-type"@, "riscv,sv48"@),
        text_edit(path, "riscv,isa"@, isa),
        number_edit(controller, "#interrupt-cells"@, 1),
        EditView { path: controller, name: "interrupt-controller"@, value: PropertyView::Empty },
        text_edit(controller, "compatible"@, "riscv,cpu-intc"@),
    ]
}

/// The properties of the virtual cores `0` to `count - 1`.
pub open spec fn cpus_edits(count: int, isa: Seq<char>) -> Seq<EditView>
    decreases count,
{
    if count <= 0 {
        Seq::empty()
    } else {
        cpus_edits(count - 1, isa) + cpu_edits((count - 1) as usize, isa)
    }
}

/// All the properties of a guest's device tree: the machine, then each
/// core, then the boot arguments, which send the console through the
/// supervisor binary interface.
pub open spec fn guest_edits(
    cpus: usize,
    ram_base: PhysMemBase,
    ram_size: PhysMemSize,
    timebase: Option<u32>,
    misa: u64,
) -> Seq<EditView> {
    machine_edits(ram_base, ram_size, timebase) + cpus_edits(
        cpus as int,
        lowercase_isa_string(misa),
    ) + seq![text_edit("/chosen"@, "bootargs"@, "console=hvc0"@)]
}

/// Adds one property to the list.
fn push_edit(edits: &mut Vec<PropertyEdit>, path: &str, name: &str, value: DeviceTreeProperty)
    ensures
        edit_views(final(edits)@) == edit_views(old(edits)@).push(
            EditView { path: path@, name: name@, value: value@ },
        ),
{
    let edit = PropertyEdit { path: String::from_str(path), name: String::from_str(name), value };
    edits.push(edit);
    assert(edit_views(edits@) =~= edit_views(old(edits)@).push(
        EditView { path: path@, name: name@, value: value@ },
    ));
}

/// Adds one property that holds text.
fn push_text(edits: &mut Vec<PropertyEdit>, path: &str, name: &str, text: &str)
    ensures
        edit_views(final(edits)@) == edit_views(old(edits)@).push(text_edit(path@, name@, text@)),
{
    push_edit(edits, path, name, DeviceTreeProperty::Text(String::from_str(text)));
}

/// Adds one property that holds a number.
fn push_number(edits: &mut Vec<PropertyEdit>, path: &str, name: &str, value: u32)
    ensures
        edit_views(final(edits)@) == edit_views(old(edits)@).push(
            number_edit(path@, name@, value),
        ),
{
    push_edit(edits, path, name, DeviceTreeProperty::UnsignedInt32(value));
}

impl Devices {
    /// Number of logical cores.
    pub closed spec fn spec_nr_cpu_cores(&self) -> usize {
        self.nr_cpu_cores
    }

    /// The areas of physical RAM.
    pub closed spec fn spec_system_ram(&self) -> Seq<RAMArea> {
        self.system_ram@
    }

    /// The debug console, if there is one.
    pub closed spec fn spec_debug_console(&self) -> Option<SerialPortView> {
        match self.debug_console {
            Some(port) => Some(port@),
            None => None,
        }
    }

    /// The scheduler's timer, if there is one.
    pub closed spec fn spec_scheduler_timer(&self) -> Option<Timer> {
        self.scheduler_timer
    }

    /// The frequency of the host's time base, if it is known.
    pub closed spec fn spec_timebase_frequency(&self) -> Option<u32> {
        self.timebase_frequency
    }

    /// The known defects of the platform, and those that can be fixed.
    pub closed spec fn spec_errata(&self) -> (u64, u64) {
        (self.errata_known, self.errata_fixed)
    }

    /// What discovery makes of a host whose console driver answers
    /// `window`.
    pub open spec fn discovered(
        &self,
        host: HostDescription,
        window: Option<PhysMemSize>,
    ) -> bool {
        &&& count_cores(host.cpus@, host.cpu_cells.address, host.cpus@.len() as int) == Ok::<
            int,
            DeviceTreeError,
        >(self.spec_nr_cpu_cores() as int)
        &&& system_ram(host) == Ok::<Seq<RAMArea>, DeviceTreeError>(self.spec_system_ram())
        &&& self.spec_debug_console() == match debug_console_for(host, window) {
            Ok(port) => Some(port),
            Err(_) => None,
        }
        &&& self.spec_scheduler_timer() == scheduler_timer_of(host)
        &&& self.spec_timebase_frequency() == timebase_of(host)
        &&& model_of(host) is Ok
        &&& self.spec_errata() == (known_errata(model_of(host)->Ok_0), 0u64)
    }

    /// Gathers the devices that the monitor needs from what the host's tree
    /// holds. The model, the cores and the RAM must be there; the console
    /// and the timer may be missing. A timer that is found is pinned in
    /// `slot`. `probe` sets up the driver of a serial controller,
    /// as for [`SerialPort::new`].
    pub fn new<F: Fn(PhysMemBase) -> Option<PhysMemSize>>(
        host: &HostDescription,
        slot: &PinnedTimer,
        probe: F,
    ) -> (devices: Result<Devices, DeviceTreeError>)
        requires
            probes_anywhere(probe),
        ensures
            match discovery_error(*host) {
                Some(e) => devices == Err::<Devices, DeviceTreeError>(e),
                None => devices is Ok && exists|window: Option<PhysMemSize>|
                    #![trigger debug_console_for(*host, window)]
                    console_probed(probe, *host, window) && devices->Ok_0.discovered(
                        *host,
                        window,
                    ),
            },
    {
        let model = match &host.model {
            Ok(property) => match &property.as_text {
                Ok(text) => text.clone(),
                Err(e) => {
                    return Err(*e);
                },
            },
            Err(e) => {
                return Err(*e);
            },
        };
        let (errata_known, errata_fixed) = from_model(model);

        let cells = host.cpu_cells;
        let mut count: usize = 0;
        let mut i: usize = 0;
        while i < host.cpus.len()
            invariant
                i <= host.cpus@.len(),
                cells == host.cpu_cells,
                model_of(*host) is Ok,
                count_cores(host.cpus@, cells.address, i as int) == Ok::<int, DeviceTreeError>(
                    count as int,
                ),
            decreases host.cpus@.len() - i,
        {
            let cpu_ids = match &host.cpus[i] {
                Ok(reg) => match &reg.as_multi_u32 {
                    Ok(ids) => ids.len(),
                    Err(e) => {
                        proof {
                            lemma_count_error(host.cpus@, cells.address, i + 1, host.cpus@.len() as int);
                        }
                        return Err(*e);
                    },
                },
                Err(e) => {
                    proof {
                        lemma_count_error(host.cpus@, cells.address, i + 1, host.cpus@.len() as int);
                    }
                    return Err(*e);
                },
            };
            if cells.address == 0 || cpu_ids / cells.address > usize::MAX - count {
                proof {
                    lemma_count_error(host.cpus@, cells.address, i + 1, host.cpus@.len() as int);
                }
                return Err(DeviceTreeError::WidthUnsupported);
            }
            count = count + cpu_ids / cells.address;
            i = i + 1;
        }

        let console = setup_debug_console(host, probe);
        let ghost found = console_view(console);
        let debug_console = match console {
            Ok(dc) => Some(dc),
            Err(_) => None,
        };

        if host.memory.len() == 0 {
            return Err(DeviceTreeError::NotFound);
        }
        let mut chunks: Vec<RAMArea> = Vec::new();
        let mut j: usize = 0;
        while j < host.memory.len()
            invariant
                j <= host.memory@.len(),
                host.memory@.len() > 0,
                model_of(*host) is Ok,
                count_cores(host.cpus@, host.cpu_cells.address, host.cpus@.len() as int) is Ok,
                ram_areas(host.memory@, j as int) == Ok::<Seq<RAMArea>, DeviceTreeError>(chunks@),
            decreases host.memory@.len() - j,
        {
            match get_ram_chunk(&host.memory[j]) {
                Ok(chunk) => {
                    chunks.push(chunk);
                },
                Err(e) => {
                    proof {
                        lemma_ram_error(host.memory@, j + 1, host.memory@.len() as int);
                    }
                    return Err(e);
                },
            }
            j = j + 1;
        }

        let scheduler_timer = match &host.clint {
            Some(node) => match get_system_timer(&host.timebase_frequency, node) {
                Ok(t) => {
                    t.pin(slot);
                    Some(t)
                },
                Err(_) => None,
            },
            None => None,
        };

        let timebase_frequency = match &host.timebase_frequency {
            Ok(property) => match property.as_u32 {
                Ok(frequency) => Some(frequency),
                Err(_) => None,
            },
            Err(_) => None,
        };

        let d = Devices {
            nr_cpu_cores: count,
            system_ram: chunks,
            debug_console,
            scheduler_timer,
            timebase_frequency,
            errata_known,
            errata_fixed,
        };
        proof {
            let window = choose|window: Option<PhysMemSize>|
                #![trigger debug_console_for(*host, window)]
                console_probed(probe, *host, window) && found == debug_console_for(
                    *host,
                    window,
                );
            assert(d.discovered(*host, window));
        }
        Ok(d)
    }

    /// What a byte from the debug console stands for: nothing without a
    /// console, and zero bytes are passed over.
    pub open spec fn debug_char(&self, byte: Option<u8>) -> Option<char> {
        match (self.spec_debug_console(), byte) {
            (Some(_), Some(b)) => if b == 0 {
                None
            } else {
                Some(b as char)
            },
            _ => None,
        }
    }

    /// The debug console, if there is one. Writing to it and reading from
    /// it is the driver's part.
    pub fn get_debug_console(&self) -> (console: &Option<SerialPort>)
        ensures
            match *console {
                Some(port) => self.spec_debug_console() == Some(port@),
                None => self.spec_debug_console() is None,
            },
    {
        &self.debug_console
    }

    /// Turns a byte that was read from the debug console, if one was
    /// waiting, into a character. Zero bytes are passed over.
    pub fn read_debug_char(&self, byte: Option<u8>) -> (c: Option<char>)
        ensures
            c == self.debug_char(byte),
    {
        if let Some(_con) = &self.debug_console {
            if let Some(b) = byte {
                match b {
                    0 => {
                        return None;
                    },
                    b => {
                        return Some(b as char);
                    },
                }
            }
        }
        None
    }

    /// Number of logical cores that were found.
    pub fn get_nr_cpu_cores(&self) -> (count: usize)
        ensures
            count == self.spec_nr_cpu_cores(),
    {
        self.nr_cpu_cores
    }

    /// The areas of physical RAM that were found.
    pub fn get_phys_ram_areas(&self) -> (areas: Vec<RAMArea>)
        ensures
            areas@ == self.spec_system_ram(),
    {
        let mut areas: Vec<RAMArea> = Vec::new();
        let mut i: usize = 0;
        while i < self.system_ram.len()
            invariant
                i <= self.system_ram@.len(),
                areas@ == self.system_ram@.subrange(0, i as int),
            decreases self.system_ram@.len() - i,
        {
            areas.push(self.system_ram[i]);
            assert(areas@ =~= self.system_ram@.subrange(0, i + 1));
            i = i + 1;
        }
        assert(areas@ =~= self.system_ram@);
        areas
    }

    /// The known defects of the platform, and those among them that can be
    /// fixed.
    pub fn get_errata(&self) -> (errata: (u64, u64))
        ensures
            errata == self.spec_errata(),
    {
        (self.errata_known, self.errata_fixed)
    }

    /// The scheduler's timer, if there is one.
    pub fn get_scheduler_timer(&self) -> (timer: Option<Timer>)
        ensures
            timer == self.spec_scheduler_timer(),
    {
        self.scheduler_timer
    }

    /// Starts the scheduler's timer on this core, if there is one.
    pub fn scheduler_timer_start(&self, hart: &mut Hart, clint: &mut Clint)
        ensures
            self.spec_scheduler_timer() is None ==> *final(hart) == *old(hart) && *final(clint)
                == *old(clint),
            self.spec_scheduler_timer() is Some ==> {
                &&& *final(clint) == (Clint { time: old(clint).time, target: old(clint).time })
                &&& *final(hart) == (Hart { mie: old(hart).mie | 0x80, ..*old(hart) })
            },
    {
        if let Some(s) = self.scheduler_timer {
            s.start(hart, clint);
        }
    }

    /// The timer's value now, or `None` without a timer.
    pub fn scheduler_get_timer_now(&self, clint: &Clint) -> (now: Option<TimerValue>)
        ensures
            now == crate::timer::spec_pinned_now(self.spec_scheduler_timer(), *clint),
    {
        if let Some(s) = self.scheduler_timer {
            return Some(s.get_now(clint));
        }
        None
    }

    /// Asks for a timer interrupt on this core once `duration` has passed.
    pub fn scheduler_timer_next_in(&self, clint: &mut Clint, duration: TimerValue)
        ensures
            match self.spec_scheduler_timer() {
                Some(timer) => *final(clint) == (Clint {
                    time: old(clint).time,
                    target: crate::timer::wrap64(
                        crate::timer::wrap64(duration.ticks(timer.spec_frequency())) + old(
                            clint,
                        ).time,
                    ),
                }),
                None => *final(clint) == *old(clint),
            },
    {
        if let Some(s) = self.scheduler_timer {
            s.next_in(clint, duration);
        }
    }

    /// The target of the next timer interrupt, or `None` without a timer.
    pub fn scheduler_get_timer_next_at(&self, clint: &Clint) -> (target: Option<TimerValue>)
        ensures
            target == match self.spec_scheduler_timer() {
                Some(_) => Some(TimerValue::Exact(clint.target)),
                None => None,
            },
    {
        if let Some(s) = self.scheduler_timer {
            return Some(s.get_next_at(clint));
        }
        None
    }

    /// The timer's frequency in Hz, or `None` without a timer.
    pub fn scheduler_get_timer_frequency(&self) -> (frequency: Option<u64>)
        ensures
            frequency == crate::timer::spec_pinned_freq(self.spec_scheduler_timer()),
    {
        if let Some(s) = self.scheduler_timer {
            return Some(s.get_frequency());
        }
        None
    }

    /// Asks for a timer interrupt on this core when the timer passes
    /// `target`.
    pub fn scheduler_timer_at(&self, clint: &mut Clint, target: TimerValue)
        ensures
            match self.spec_scheduler_timer() {
                Some(timer) => *final(clint) == (Clint {
                    time: old(clint).time,
                    target: crate::timer::wrap64(target.ticks(timer.spec_frequency())),
                }),
                None => *final(clint) == *old(clint),
            },
    {
        if let Some(s) = self.scheduler_timer {
            s.next_at(clint, target);
        }
    }

    /// Describes the hardware of a guest with `cpus` virtual cores and
    /// `ram_size` bytes of RAM at `ram_base`, modelled on the host. The
    /// guest boots on the core `boot_cpu_id`.
    pub fn spawn_virtual_environment(
        &self,
        cpus: usize,
        boot_cpu_id: u32,
        ram_base: PhysMemBase,
        ram_size: PhysMemSize,
        hart: &Hart,
    ) -> (tree: GuestTree)
        ensures
            tree.boot_cpu_id == boot_cpu_id,
            edit_views(tree.edits@) == guest_edits(
                cpus,
                ram_base,
                ram_size,
                self.spec_timebase_frequency(),
                hart.misa,
            ),
    {
        let mut edits: Vec<PropertyEdit> = Vec::new();
        assert(edit_views(edits@) =~= Seq::empty());
        push_number(&mut edits, ROOT_PATH, "#address-cells", 2);
        push_number(&mut edits, ROOT_PATH, "#size-cells", 2);

        let mut memory = String::from_str(MEMORY_NODES);
        memory.append(to_hex(ram_base).as_str());
        let mut reg: Vec<(u64, u64)> = Vec::new();
        reg.push((ram_base, ram_size));
        assert(reg@ =~= seq![(ram_base, ram_size)]);
        push_edit(
            &mut edits,
            memory.as_str(),
            REG_PROPERTY,
            DeviceTreeProperty::MultipleUnsignedInt64_64(reg),
        );
        push_text(&mut edits, memory.as_str(), "device_type", "memory");

        push_number(&mut edits, CPUS_PATH, "#address-cells", 1);
        push_number(&mut edits, CPUS_PATH, "#size-cells", 0);
        if let Some(frequency) = self.timebase_frequency {
            push_number(&mut edits, CPUS_PATH, TIMEBASE_PROPERTY, frequency);
        }
        assert(edit_views(edits@) =~= machine_edits(ram_base, ram_size, self.timebase_frequency));

        let isa = (CPUDescription).isa_to_lowercase_string(hart);
        let mut cpu: usize = 0;
        while cpu < cpus
            invariant
                cpu <= cpus,
                isa@ == lowercase_isa_string(hart.misa),
                edit_views(edits@) == machine_edits(ram_base, ram_size, self.timebase_frequency)
                    + cpus_edits(cpu as int, isa@),
            decreases cpus - cpu,
        {
            let ghost before = edit_views(edits@);
            let mut path = String::from_str("/cpus/cpu@");
            path.append(to_decimal(cpu).as_str());
            push_text(&mut edits, path.as_str(), "device_type", "cpu");
            push_number(&mut edits, path.as_str(), REG_PROPERTY, cpu as u32);
            push_text(&mut edits, path.as_str(), "status", "okay");
            push_text(&mut edits, path.as_str(), COMPATIBLE_PROPERTY, "riscv");
            push_text(&mut edits, path.as_str(), "mmu-type", "riscv,sv48");
            push_text(&mut edits, path.as_str(), "riscv,isa", isa.as_str());

            let mut controller = path.clone();
            controller.append("/interrupt-controller");
            push_number(&mut edits, controller.as_str(), "#interrupt-cells", 1);
            push_edit(
                &mut edits,
                controller.as_str(),
                "interrupt-controller",
                DeviceTreeProperty::Empty,
            );
            push_text(&mut edits, controller.as_str(), COMPATIBLE_PROPERTY, "riscv,cpu-intc");
            assert(edit_views(edits@) =~= before + cpu_edits(cpu, isa@));
            assert(before + cpu_edits(cpu, isa@) =~= machine_edits(
                ram_base,
                ram_size,
                self.timebase_frequency,
            ) + cpus_edits(cpu + 1, isa@));
            cpu = cpu + 1;
        }

        push_text(&mut edits, CHOSEN_PATH, "bootargs", "console=hvc0");
        GuestTree { edits, boot_cpu_id }
    }
}

/// An error among the first memory nodes is the error of them all.
proof fn lemma_ram_error(memory: Seq<HostNode>, at: int, count: int)
    requires
        0 < at <= count,
        ram_areas(memory, at) is Err,
    ensures
        ram_areas(memory, count) == ram_areas(memory, at),
    decreases count,
{
    if count > at {
        lemma_ram_error(memory, at, count - 1);
    }
}

/// An error among the first core nodes is the error of them all.
proof fn lemma_count_error(
    cpus: Seq<Result<Property, DeviceTreeError>>,
    address_cells: usize,
    at: int,
    count: int,
)
    requires
        0 < at <= count,
        count_cores(cpus, address_cells, at) is Err,
    ensures
        count_cores(cpus, address_cells, count) == count_cores(cpus, address_cells, at),
    decreases count,
{
    if count > at {
        lemma_count_error(cpus, address_cells, at, count - 1);
    }
}

} // verus!

