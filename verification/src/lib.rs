//! The machine-mode core of a RISC-V hypervisor for 64-bit harts.
//!
//! The monitor sits between the firmware and one or more guest kernels in
//! supervisor mode. This library holds what it decides: what a trap means,
//! what a guest may touch, what a guest's virtual address stands for, how a
//! call through the supervisor binary interface is answered, what an
//! instruction that the hardware lacks does, when the timer fires, and what
//! hardware a guest is shown.
//!
//! Nothing here touches the machine. The registers of a hart are worked on
//! as a copy ([`csr::Hart`]) that the trap stubs fill on entry and commit on
//! exit; the timer registers likewise ([`timer::Clint`]); memory is read
//! through a reader that the caller supplies, and which is asked only for
//! addresses that were found inside the guest's memory first.

pub mod cpu;
pub mod csr;
pub mod devices;
pub mod errata;
pub mod instructions;
pub mod irq;
pub mod mmu;
pub mod physmem;
pub mod serial;
pub mod syscalls;
pub mod test;
pub mod text;
pub mod timer;
