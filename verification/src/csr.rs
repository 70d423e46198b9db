//! Control and status registers of one hardware thread.
//!
//! The monitor never touches a register directly. On trap entry the low-level
//! stub fills a [`Hart`] with the values of the registers; the monitor works
//! on that copy; on trap exit the stub commits the copy and issues the
//! barriers that were requested meanwhile. Everything the monitor decides is
//! therefore a function from one `Hart` to the next.

use vstd::prelude::*;

verus! {

/// Number of address registers of the physical memory protection unit.
pub const PMP_ADDR_REGISTERS: usize = 16;

/// The named registers that the monitor reads or writes.
#[derive(Clone, Copy, Debug, PartialEq, Eq, Structural)]
pub enum Csr {
    Misa,
    Mvendorid,
    Marchid,
    Mimpid,
    Mstatus,
    Mepc,
    Mcause,
    Mip,
    Mie,
    Sstatus,
    Sedeleg,
    Sideleg,
    Stvec,
    Sip,
    Sie,
    Scounteren,
    Sscratch,
    Sepc,
    Scause,
    Stval,
    Satp,
    Fcsr,
}

/// The register state of one hardware thread, and the barriers that are
/// owed before it resumes a guest.
#[derive(Clone, Copy, Debug)]
pub struct Hart {
    pub misa: u64,
    pub mvendorid: u64,
    pub marchid: u64,
    pub mimpid: u64,
    pub mstatus: u64,
    pub mepc: u64,
    pub mcause: u64,
    pub mip: u64,
    pub mie: u64,
    pub sstatus: u64,
    pub sedeleg: u64,
    pub sideleg: u64,
    pub stvec: u64,
    pub sip: u64,
    pub sie: u64,
    pub scounteren: u64,
    pub sscratch: u64,
    pub sepc: u64,
    pub scause: u64,
    pub stval: u64,
    pub satp: u64,
    pub fcsr: u64,
    /// Configuration bytes of protection entries 0 to 7.
    pub pmpcfg0: u64,
    /// Configuration bytes of protection entries 8 to 15.
    pub pmpcfg2: u64,
    /// Protection addresses, each a byte address shifted right by two.
    pub pmpaddr: [u64; 16],
    /// Raw contents of f0 to f31.
    pub fp_registers: [u64; 32],
    /// A full flush of the address-translation caches is owed.
    pub tlb_flush_pending: bool,
    /// An instruction-stream fence is owed.
    pub instruction_fence_pending: bool,
    /// A read/write I/O fence is owed.
    pub io_fence_pending: bool,
}

impl Hart {
    /// The value that `csr` holds.
    pub open spec fn value(&self, csr: Csr) -> u64 {
        match csr {
            Csr::Misa => self.misa,
            Csr::Mvendorid => self.mvendorid,
            Csr::Marchid => self.marchid,
            Csr::Mimpid => self.mimpid,
            Csr::Mstatus => self.mstatus,
            Csr::Mepc => self.mepc,
            Csr::Mcause => self.mcause,
            Csr::Mip => self.mip,
            Csr::Mie => self.mie,
            Csr::Sstatus => self.sstatus,
            Csr::Sedeleg => self.sedeleg,
            Csr::Sideleg => self.sideleg,
            Csr::Stvec => self.stvec,
            Csr::Sip => self.sip,
            Csr::Sie => self.sie,
            Csr::Scounteren => self.scounteren,
            Csr::Sscratch => self.sscratch,
            Csr::Sepc => self.sepc,
            Csr::Scause => self.scause,
            Csr::Stval => self.stval,
            Csr::Satp => self.satp,
            Csr::Fcsr => self.fcsr,
        }
    }

    /// This state with `csr` holding `value` and nothing else changed.
    pub open spec fn with(&self, csr: Csr, value: u64) -> Hart {
        match csr {
            Csr::Misa => Hart { misa: value, ..*self },
            Csr::Mvendorid => Hart { mvendorid: value, ..*self },
            Csr::Marchid => Hart { marchid: value, ..*self },
            Csr::Mimpid => Hart { mimpid: value, ..*self },
            Csr::Mstatus => Hart { mstatus: value, ..*self },
            Csr::Mepc => Hart { mepc: value, ..*self },
            Csr::Mcause => Hart { mcause: value, ..*self },
            Csr::Mip => Hart { mip: value, ..*self },
            Csr::Mie => Hart { mie: value, ..*self },
            Csr::Sstatus => Hart { sstatus: value, ..*self },
            Csr::Sedeleg => Hart { sedeleg: value, ..*self },
            Csr::Sideleg => Hart { sideleg: value, ..*self },
            Csr::Stvec => Hart { stvec: value, ..*self },
            Csr::Sip => Hart { sip: value, ..*self },
            Csr::Sie => Hart { sie: value, ..*self },
            Csr::Scounteren => Hart { scounteren: value, ..*self },
            Csr::Sscratch => Hart { sscratch: value, ..*self },
            Csr::Sepc => Hart { sepc: value, ..*self },
            Csr::Scause => Hart { scause: value, ..*self },
            Csr::Stval => Hart { stval: value, ..*self },
            Csr::Satp => Hart { satp: value, ..*self },
            Csr::Fcsr => Hart { fcsr: value, ..*self },
        }
    }

    /// The state after reset: every register zero, no barrier owed.
    pub open spec fn is_reset(&self) -> bool {
        &&& forall|csr: Csr| self.value(csr) == 0
        &&& self.pmpcfg0 == 0
        &&& self.pmpcfg2 == 0
        &&& forall|i: int| 0 <= i < 16 ==> self.pmpaddr[i] == 0
        &&& forall|i: int| 0 <= i < 32 ==> self.fp_registers[i] == 0
        &&& !self.tlb_flush_pending
        &&& !self.instruction_fence_pending
        &&& !self.io_fence_pending
    }

    /// A hart in its reset state.
    pub fn new() -> (hart: Hart)
        ensures
            hart.is_reset(),
    {
        let hart = Hart {
            misa: 0,
            mvendorid: 0,
            marchid: 0,
            mimpid: 0,
            mstatus: 0,
            mepc: 0,
            mcause: 0,
            mip: 0,
            mie: 0,
            sstatus: 0,
            sedeleg: 0,
            sideleg: 0,
            stvec: 0,
            sip: 0,
            sie: 0,
            scounteren: 0,
            sscratch: 0,
            sepc: 0,
            scause: 0,
            stval: 0,
            satp: 0,
            fcsr: 0,
            pmpcfg0: 0,
            pmpcfg2: 0,
            pmpaddr: [0u64; 16],
            fp_registers: [0u64; 32],
            tlb_flush_pending: false,
            instruction_fence_pending: false,
            io_fence_pending: false,
        };
        assert forall|csr: Csr| hart.value(csr) == 0 by {}
        hart
    }

    /// Reads a register.
    pub fn read_csr(&self, csr: Csr) -> (value: u64)
        ensures
            value == self.value(csr),
    {
        match csr {
            Csr::Misa => self.misa,
            Csr::Mvendorid => self.mvendorid,
            Csr::Marchid => self.marchid,
            Csr::Mimpid => self.mimpid,
            Csr::Mstatus => self.mstatus,
            Csr::Mepc => self.mepc,
            Csr::Mcause => self.mcause,
            Csr::Mip => self.mip,
            Csr::Mie => self.mie,
            Csr::Sstatus => self.sstatus,
            Csr::Sedeleg => self.sedeleg,
            Csr::Sideleg => self.sideleg,
            Csr::Stvec => self.stvec,
            Csr::Sip => self.sip,
            Csr::Sie => self.sie,
            Csr::Scounteren => self.scounteren,
            Csr::Sscratch => self.sscratch,
            Csr::Sepc => self.sepc,
            Csr::Scause => self.scause,
            Csr::Stval => self.stval,
            Csr::Satp => self.satp,
            Csr::Fcsr => self.fcsr,
        }
    }

    /// Writes a register; every other register keeps its value.
    pub fn write_csr(&mut self, csr: Csr, value: u64)
        ensures
            *final(self) == old(self).with(csr, value),
    {
        match csr {
            Csr::Misa => self.misa = value,
            Csr::Mvendorid => self.mvendorid = value,
            Csr::Marchid => self.marchid = value,
            Csr::Mimpid => self.mimpid = value,
            Csr::Mstatus => self.mstatus = value,
            Csr::Mepc => self.mepc = value,
            Csr::Mcause => self.mcause = value,
            Csr::Mip => self.mip = value,
            Csr::Mie => self.mie = value,
            Csr::Sstatus => self.sstatus = value,
            Csr::Sedeleg => self.sedeleg = value,
            Csr::Sideleg => self.sideleg = value,
            Csr::Stvec => self.stvec = value,
            Csr::Sip => self.sip = value,
            Csr::Sie => self.sie = value,
            Csr::Scounteren => self.scounteren = value,
            Csr::Sscratch => self.sscratch = value,
            Csr::Sepc => self.sepc = value,
            Csr::Scause => self.scause = value,
            Csr::Stval => self.stval = value,
            Csr::Satp => self.satp = value,
            Csr::Fcsr => self.fcsr = value,
        }
    }

    /// Clears in a register the bits that are set in `mask`.
    pub fn clear_csr(&mut self, csr: Csr, mask: u64)
        ensures
            *final(self) == old(self).with(csr, old(self).value(csr) & !mask),
    {
        let value = self.read_csr(csr);
        self.write_csr(csr, value & !mask);
    }

    /// Sets in a register the bits that are set in `mask`.
    pub fn set_csr(&mut self, csr: Csr, mask: u64)
        ensures
            *final(self) == old(self).with(csr, old(self).value(csr) | mask),
    {
        let value = self.read_csr(csr);
        self.write_csr(csr, value | mask);
    }
}

/// Writing a register and reading it back gives what was written, and no
/// other register sees the write.
pub proof fn lemma_write_then_read(hart: Hart, csr: Csr, value: u64, other: Csr)
    ensures
        hart.with(csr, value).value(csr) == value,
        other != csr ==> hart.with(csr, value).value(other) == hart.value(other),
{
}

} // verus!
