//! Serial ports, told apart by the controller that drives them.
//!
//! This module decides whether a port can be used and describes it. Moving
//! bytes through the controller's registers is left to the driver.

use vstd::prelude::*;
use crate::physmem::PhysMemBase;
use crate::physmem::PhysMemSize;
use crate::text::contains;
use crate::text::occurs_in;

verus! {

/// The serial controllers that are supported.
#[derive(Clone, Copy, Debug, PartialEq, Eq, Structural)]
pub enum Controllers {
    /// The 16550a and those compatible with it.
    NS16550a,
}

/// A serial port for input and output.
#[derive(Debug)]
pub struct SerialPort {
    base: PhysMemBase,
    size: PhysMemSize,
    compat: String,
    chip: Controllers,
}

/// What a serial port is, as plain values.
pub struct SerialPortView {
    pub base: PhysMemBase,
    pub size: PhysMemSize,
    pub compat: Seq<char>,
    pub chip: Controllers,
}

impl View for SerialPort {
    type V = SerialPortView;

    closed spec fn view(&self) -> SerialPortView {
        SerialPortView { base: self.base, size: self.size, compat: self.compat@, chip: self.chip }
    }
}

/// The controller that drives a port with the compatibility string
/// `compat`, if one is supported.
pub open spec fn controller_for(compat: Seq<char>) -> Option<Controllers> {
    if occurs_in(compat, "16550a"@) {
        Some(Controllers::NS16550a)
    } else {
        None
    }
}

/// The port that is made from a register window of `size` bytes at `base`
/// when the driver answers `window`: the number of bytes of registers that
/// it needs, or `None` if it cannot drive the controller. A window smaller
/// than the driver needs gives no port.
pub open spec fn port_for(
    base: PhysMemBase,
    size: PhysMemSize,
    compat: Seq<char>,
    window: Option<PhysMemSize>,
) -> Option<SerialPortView> {
    match (controller_for(compat), window) {
        (Some(chip), Some(needed)) => if needed > size {
            None
        } else {
            Some(SerialPortView { base, size, compat, chip })
        },
        _ => None,
    }
}

impl SerialPort {
    /// Makes a serial port, if there is a driver for it. `base` and `size`
    /// give the controller's register window, `compat` the devices that the
    /// port is compatible with, separated by commas. `probe` sets up the
    /// driver for the controller at an address and tells how many bytes of
    /// registers it needs; it is asked only where a driver is known.
    pub fn new<F: Fn(PhysMemBase) -> Option<PhysMemSize>>(
        base: PhysMemBase,
        size: PhysMemSize,
        compat: &String,
        probe: F,
    ) -> (port: Option<SerialPort>)
        requires
            call_requires(probe, (base,)),
        ensures
            controller_for(compat@) is None ==> port is None,
            controller_for(compat@) is Some ==> exists|window: Option<PhysMemSize>| #[trigger]
                call_ensures(probe, (base,), window) && port_matches(
                    port,
                    port_for(base, size, compat@, window),
                ),
    {
        if contains(compat.as_str(), "16550a") {
            let window = probe(base);
            let port = match window {
                Some(needed) => {
                    if needed > size {
                        None
                    } else {
                        Some(
                            SerialPort {
                                base,
                                size,
                                compat: compat.clone(),
                                chip: Controllers::NS16550a,
                            },
                        )
                    }
                },
                None => None,
            };
            assert(port_matches(port, port_for(base, size, compat@, window)));
            return port;
        }
        None
    }

    /// Base address of the controller's registers.
    pub fn get_mmio_base(&self) -> (base: PhysMemBase)
        ensures
            base == self@.base,
    {
        self.base
    }

    /// Size of the controller's register window in bytes.
    pub fn get_mmio_size(&self) -> (size: PhysMemSize)
        ensures
            size == self@.size,
    {
        self.size
    }

    /// The devices that the port is compatible with.
    pub fn get_compatibility(&self) -> (compat: &String)
        ensures
            compat@ == self@.compat,
    {
        &self.compat
    }

    /// The controller that drives the port.
    pub fn get_controller(&self) -> (chip: Controllers)
        ensures
            chip == self@.chip,
    {
        self.chip
    }
}

/// The port, if any, is the one described.
pub open spec fn port_matches(port: Option<SerialPort>, view: Option<SerialPortView>) -> bool {
    match (port, view) {
        (Some(p), Some(v)) => p@ == v,
        (None, None) => true,
        _ => false,
    }
}

} // verus!
