//! Physical memory: the RAM that can be handed out, and the protection
//! regions that fence a guest in.
//!
//! A protection region is a pair of adjacent entries of the hart's physical
//! memory protection unit, used in top-of-range mode: the first entry holds
//! the base address and no flags, the second the end address and the access
//! flags. Region `r` uses entries `2r` and `2r + 1`. Addresses are stored
//! shifted right by two.

use vstd::prelude::*;
use crate::csr::Csr;
use crate::csr::Hart;
use crate::csr::PMP_ADDR_REGISTERS;

verus! {

/// A physical address.
pub type PhysMemBase = u64;

/// The physical address just past a region.
pub type PhysMemEnd = u64;

/// A number of bytes of physical memory.
pub type PhysMemSize = u64;

/// Highest protection entry.
pub const PHYS_PMP_MAX_ENTRY: usize = 15;

/// Number of protection regions.
pub const PHYS_PMP_MAX_REGIONS: usize = 8;

pub const PHYS_PMP_READ: u64 = 0x1;
pub const PHYS_PMP_WRITE: u64 = 0x2;
pub const PHYS_PMP_EXEC: u64 = 0x4;
pub const PHYS_PMP_TOR: u64 = 0x8;

/// Mask of the address-matching mode in an entry's configuration.
pub const PHYS_PMP_MODE_MASK: u64 = 0x18;

/// Memory that each physical core keeps for itself from boot on.
pub const PHYS_MEM_PER_CPU: u64 = 0x10_0000;

/// Size of a page of memory.
pub const PAGE_SIZE: u64 = 4096;

/// Asks for a barrier that orders all earlier memory and device accesses
/// before all later ones.
pub fn barrier(hart: &mut Hart)
    ensures
        *final(hart) == (Hart { io_fence_pending: true, ..*old(hart) }),
{
    hart.io_fence_pending = true;
}

/// Asks for a full flush of the address-translation caches, as is needed
/// after the protection or translation registers change.
pub fn tlb_flush(hart: &mut Hart)
    ensures
        *final(hart) == (Hart { tlb_flush_pending: true, ..*old(hart) }),
{
    hart.tlb_flush_pending = true;
}

/// What a guest may do with a region of physical memory.
#[derive(Clone, Copy, Debug, PartialEq, Eq, Structural)]
pub enum AccessPermissions {
    Read,
    ReadWrite,
    ReadExecute,
    ReadWriteExecute,
    NoAccess,
}

impl AccessPermissions {
    /// The access flags of a protection entry that grant this much.
    pub open spec fn flags(self) -> u64 {
        match self {
            AccessPermissions::Read => 0x1,
            AccessPermissions::ReadWrite => 0x3,
            AccessPermissions::ReadExecute => 0x5,
            AccessPermissions::ReadWriteExecute => 0x7,
            AccessPermissions::NoAccess => 0x0,
        }
    }
}

/// A snapshot of the registers that govern a guest's view of memory.
#[derive(Clone, Copy, Debug, PartialEq, Eq, Structural)]
pub struct PhysRAMState {
    pub pmpcfg0: u64,
    pub pmpcfg1: u64,
    pub pmpcfg2: u64,
    pub pmpcfg3: u64,
    pub pmpaddr0: u64,
    pub pmpaddr1: u64,
    pub pmpaddr2: u64,
    pub pmpaddr3: u64,
    pub satp: u64,
    pub sstatus: u64,
    pub stvec: u64,
}

impl PhysRAMState {
    /// Takes the snapshot. The odd configuration registers do not exist on a
    /// 64-bit hart and read as zero.
    pub fn new(hart: &Hart) -> (state: PhysRAMState)
        ensures
            state == (PhysRAMState {
                pmpcfg0: hart.pmpcfg0,
                pmpcfg1: 0,
                pmpcfg2: hart.pmpcfg2,
                pmpcfg3: 0,
                pmpaddr0: hart.pmpaddr[0],
                pmpaddr1: hart.pmpaddr[1],
                pmpaddr2: hart.pmpaddr[2],
                pmpaddr3: hart.pmpaddr[3],
                satp: hart.satp,
                sstatus: hart.sstatus,
                stvec: hart.stvec,
            }),
    {
        PhysRAMState {
            pmpcfg0: read_pmpcfg(hart, 0),
            pmpcfg1: read_pmpcfg(hart, 1),
            pmpcfg2: read_pmpcfg(hart, 2),
            pmpcfg3: read_pmpcfg(hart, 3),
            pmpaddr0: hart.pmpaddr[0],
            pmpaddr1: hart.pmpaddr[1],
            pmpaddr2: hart.pmpaddr[2],
            pmpaddr3: hart.pmpaddr[3],
            satp: hart.read_csr(Csr::Satp),
            sstatus: hart.read_csr(Csr::Sstatus),
            stvec: hart.read_csr(Csr::Stvec),
        }
    }
}

/// A contiguous area of physical RAM.
#[derive(Clone, Copy, Debug, PartialEq, Eq, Structural)]
pub struct RAMArea {
    pub base: PhysMemBase,
    pub size: PhysMemSize,
}

impl RAMArea {
    /// The address just past the area.
    pub open spec fn end(self) -> int {
        self.base + self.size
    }

    /// The area does not run past the end of the address space.
    pub open spec fn fits(self) -> bool {
        self.end() <= u64::MAX
    }

    /// `addr` lies in the area.
    pub open spec fn contains(self, addr: int) -> bool {
        self.base <= addr < self.end()
    }
}

/// Walks over a block of physical RAM and hands out the parts of it that
/// the monitor does not occupy itself.
#[derive(Clone, Copy, Debug)]
pub struct RAMAreaIter {
    total_area: RAMArea,
    hypervisor_area: RAMArea,
    pos: PhysMemBase,
}

/// The configuration byte of protection entry `entry`.
pub open spec fn pmp_entry_config(hart: Hart, entry: int) -> u64 {
    if 0 <= entry < 8 {
        (hart.pmpcfg0 >> (8 * entry) as u64) & 0xff
    } else if 8 <= entry < 16 {
        (hart.pmpcfg2 >> (8 * (entry - 8)) as u64) & 0xff
    } else {
        0
    }
}

/// Region `region` is in use and lets the guest at least read: its end
/// entry is in top-of-range mode and has the read flag.
pub open spec fn region_active(hart: Hart, region: int) -> bool {
    let config = pmp_entry_config(hart, 2 * region + 1);
    config & 0x18 == 0x08 && config & 0x1 == 0x1
}

/// First byte address of region `region`.
pub open spec fn region_base(hart: Hart, region: int) -> int {
    4 * hart.pmpaddr[2 * region]
}

/// Byte address just past region `region`.
pub open spec fn region_end(hart: Hart, region: int) -> int {
    4 * hart.pmpaddr[2 * region + 1]
}

/// `addr` lies in region `region`, and the region is active.
pub open spec fn region_holds(hart: Hart, region: int, addr: int) -> bool {
    &&& 0 <= region < 8
    &&& region_active(hart, region)
    &&& region_base(hart, region) <= addr < region_end(hart, region)
}

/// `addr` lies in one of the hart's active regions.
pub open spec fn phys_addr_valid(hart: Hart, addr: int) -> bool {
    exists|region: int| region_holds(hart, region, addr)
}

/// The bytes from `addr` up to and including `last` are bytes of the
/// 64-bit address space and lie in one active region.
pub open spec fn phys_range_valid(hart: Hart, addr: int, last: int) -> bool {
    exists|region: int|
        #![trigger region_holds(hart, region, addr)]
        addr <= last <= u64::MAX && region_holds(hart, region, addr) && region_holds(
            hart,
            region,
            last,
        )
}

/// The base and end of a region are in order wherever a region is active.
pub open spec fn regions_ordered(hart: Hart) -> bool {
    forall|region: int|
        0 <= region < 8 && #[trigger] region_active(hart, region) ==> region_base(hart, region)
            <= region_end(hart, region)
}

/// Reads a protection configuration register. Registers that a 64-bit hart
/// does not have read as zero.
pub fn read_pmpcfg(hart: &Hart, register: usize) -> (value: u64)
    ensures
        value == if register == 0 {
            hart.pmpcfg0
        } else if register == 2 {
            hart.pmpcfg2
        } else {
            0
        },
{
    match register {
        0 => hart.pmpcfg0,
        2 => hart.pmpcfg2,
        _ => 0,
    }
}

/// Writes a protection configuration register. A write to a register that a
/// 64-bit hart does not have is dropped.
pub fn write_pmpcfg(hart: &mut Hart, register: usize, value: u64)
    ensures
        *final(hart) == if register == 0 {
            Hart { pmpcfg0: value, ..*old(hart) }
        } else if register == 2 {
            Hart { pmpcfg2: value, ..*old(hart) }
        } else {
            *old(hart)
        },
{
    match register {
        0 => hart.pmpcfg0 = value,
        2 => hart.pmpcfg2 = value,
        _ => (),
    }
}

/// Writes a protection address register. A write to a register beyond the
/// sixteenth is dropped.
pub fn write_pmp_addr(hart: &mut Hart, register: usize, value: u64)
    ensures
        register < 16 ==> final(hart).pmpaddr@ == old(hart).pmpaddr@.update(
            register as int,
            value,
        ),
        register >= 16 ==> final(hart).pmpaddr == old(hart).pmpaddr,
        *final(hart) == (Hart { pmpaddr: final(hart).pmpaddr, ..*old(hart) }),
{
    if register < PMP_ADDR_REGISTERS {
        hart.pmpaddr[register] = value;
    }
}

/// A configuration register with the byte at position `offset` replaced.
proof fn lemma_config_byte(before: u64, value: u64, offset: u64, other: u64)
    requires
        offset < 8,
        other < 8,
    ensures
        ({
            let after = (before & !(0xffu64 << (offset << 3))) | ((value & 0xff) << (offset << 3));
            (after >> (other << 3)) & 0xff == if other == offset {
                value & 0xff
            } else {
                (before >> (other << 3)) & 0xff
            }
        }),
{
    assert({
        let after = (before & !(0xffu64 << (offset << 3))) | ((value & 0xff) << (offset << 3));
        (after >> (other << 3)) & 0xff == if other == offset {
            value & 0xff
        } else {
            (before >> (other << 3)) & 0xff
        }
    }) by (bit_vector)
        requires
            offset < 8,
            other < 8,
    ;
}

/// Sets the configuration byte of one protection entry and leaves every
/// other entry as it is. An entry beyond the sixteenth is not written.
pub fn write_pmp_entry(hart: &mut Hart, entry_id: usize, value: u64)
    ensures
        forall|entry: int|
            0 <= entry < 16 ==> #[trigger] pmp_entry_config(*final(hart), entry) == if entry
                == entry_id {
                value & 0xff
            } else {
                pmp_entry_config(*old(hart), entry)
            },
        *final(hart) == (Hart {
            pmpcfg0: final(hart).pmpcfg0,
            pmpcfg2: final(hart).pmpcfg2,
            ..*old(hart)
        }),
        entry_id >= 16 ==> *final(hart) == *old(hart),
{
    if entry_id > PHYS_PMP_MAX_ENTRY {
        return ;
    }
    // eight entries to a configuration register; the registers a 64-bit
    // hart has are the even ones
    let pmp_cfg_id: usize = (entry_id >> 3) << 1;
    let offset: usize = entry_id & 0x7;
    assert(pmp_cfg_id == 2 * (entry_id / 8) && offset == entry_id % 8) by (bit_vector)
        requires
            entry_id <= 15,
            pmp_cfg_id == (entry_id >> 3) << 1,
            offset == entry_id & 0x7,
    ;
    let shift: u64 = (offset as u64) << 3;
    assert(shift < 64) by (bit_vector)
        requires
            shift == (offset as u64) << 3,
            offset < 8,
    ;
    let mask: u64 = 0xff << shift;
    let before = read_pmpcfg(hart, pmp_cfg_id);
    let after = (before & !mask) | ((value & 0xff) << shift);
    write_pmpcfg(hart, pmp_cfg_id, after);
    proof {
        assert forall|entry: int| 0 <= entry < 16 implies #[trigger] pmp_entry_config(*hart, entry)
            == if entry == entry_id {
            value & 0xff
        } else {
            pmp_entry_config(*old(hart), entry)
        } by {
            let other = (entry % 8) as u64;
            assert(other << 3 == 8 * other) by (bit_vector)
                requires
                    other < 8,
            ;
            if entry / 8 == entry_id / 8 {
                lemma_config_byte(before, value, offset as u64, other);
            }
        }
    }
}

/// The hart after region `region` was set to the bytes from `base` up to
/// `end` with the access `access`: the region's two entries are programmed,
/// every other entry is as before, and a flush of the translation caches is
/// owed.
pub open spec fn protected(
    before: Hart,
    after: Hart,
    region: int,
    base: u64,
    end: u64,
    access: AccessPermissions,
) -> bool {
    &&& forall|entry: int|
        0 <= entry < 16 ==> #[trigger] pmp_entry_config(after, entry) == if entry == 2 * region {
            0
        } else if entry == 2 * region + 1 {
            access.flags() | 0x8
        } else {
            pmp_entry_config(before, entry)
        }
    &&& after.pmpaddr@ =~= before.pmpaddr@.update(2 * region, base >> 2).update(
        2 * region + 1,
        end >> 2,
    )
    &&& after.tlb_flush_pending
    &&& after == (Hart {
        pmpcfg0: after.pmpcfg0,
        pmpcfg2: after.pmpcfg2,
        pmpaddr: after.pmpaddr,
        tlb_flush_pending: true,
        ..before
    })
}

/// Lets the running guest use the bytes from `base` up to `end` as `access`
/// says, through protection region `region_id`. Returns `false`, and leaves
/// the hart alone, if there is no such region or if `end` lies below
/// `base`.
pub fn protect(
    hart: &mut Hart,
    region_id: usize,
    base: PhysMemBase,
    end: PhysMemEnd,
    access: AccessPermissions,
) -> (done: bool)
    ensures
        done == (region_id < 8 && base <= end),
        done ==> protected(*old(hart), *final(hart), region_id as int, base, end, access),
        !done ==> *final(hart) == *old(hart),
{
    pmp_protect(hart, region_id, base, end, access)
}

/// Programs the pair of protection entries of one region. If the region
/// exists already, it is overwritten.
pub fn pmp_protect(
    hart: &mut Hart,
    region_id: usize,
    base: PhysMemBase,
    end: PhysMemEnd,
    access: AccessPermissions,
) -> (done: bool)
    ensures
        done == (region_id < 8 && base <= end),
        done ==> protected(*old(hart), *final(hart), region_id as int, base, end, access),
        !done ==> *final(hart) == *old(hart),
{
    if region_id >= PHYS_PMP_MAX_REGIONS || base > end {
        return false;
    }
    let pmp_entry_base_id = region_id * 2;
    let pmp_entry_end_id = pmp_entry_base_id + 1;

    let accessbits = match access {
        AccessPermissions::Read => PHYS_PMP_READ,
        AccessPermissions::ReadWrite => PHYS_PMP_READ | PHYS_PMP_WRITE,
        AccessPermissions::ReadExecute => PHYS_PMP_READ | PHYS_PMP_EXEC,
        AccessPermissions::ReadWriteExecute => PHYS_PMP_READ | PHYS_PMP_WRITE | PHYS_PMP_EXEC,
        AccessPermissions::NoAccess => 0,
    };
    assert(accessbits == access.flags()) by {
        assert(0x1u64 | 0x2 == 0x3 && 0x1u64 | 0x4 == 0x5 && 0x1u64 | 0x2 | 0x4 == 0x7)
            by (bit_vector);
    }
    assert((accessbits | 0x8) & 0xff == accessbits | 0x8) by (bit_vector)
        requires
            accessbits <= 7,
    ;
    assert(0u64 & 0xff == 0) by (bit_vector);

    // only the end entry carries flags
    write_pmp_entry(hart, pmp_entry_base_id, 0);
    let ghost cleared = *hart;
    write_pmp_entry(hart, pmp_entry_end_id, accessbits | PHYS_PMP_TOR);
    let ghost configured = *hart;

    write_pmp_addr(hart, pmp_entry_base_id, base >> 2);
    write_pmp_addr(hart, pmp_entry_end_id, end >> 2);

    tlb_flush(hart);
    proof {
        assert forall|entry: int| 0 <= entry < 16 implies #[trigger] pmp_entry_config(*hart, entry)
            == if entry == 2 * region_id {
            0
        } else if entry == 2 * region_id + 1 {
            access.flags() | 0x8
        } else {
            pmp_entry_config(*old(hart), entry)
        } by {
            assert(pmp_entry_config(*hart, entry) == pmp_entry_config(configured, entry));
            assert(pmp_entry_config(cleared, entry) == if entry == 2 * region_id {
                0
            } else {
                pmp_entry_config(*old(hart), entry)
            });
        }
    }
    true
}

/// Whether region `region` is active and holds `addr`.
fn region_holds_addr(hart: &Hart, region: usize, addr: u64) -> (holds: bool)
    requires
        region < 8,
    ensures
        holds == region_holds(*hart, region as int, addr as int),
{
    let end_entry = region * 2 + 1;
    let register = if end_entry < 8 {
        hart.pmpcfg0
    } else {
        hart.pmpcfg2
    };
    let offset: u64 = (end_entry % 8) as u64;
    let config = (register >> (offset * 8)) & 0xff;
    let word = addr >> 2;
    assert(word == addr / 4) by (bit_vector)
        requires
            word == addr >> 2,
    ;
    config & PHYS_PMP_MODE_MASK == PHYS_PMP_TOR && config & PHYS_PMP_READ == PHYS_PMP_READ
        && hart.pmpaddr[region * 2] <= word && word < hart.pmpaddr[end_entry]
}

/// Returns `addr` if it lies in one of the regions that the running guest
/// may read, and `None` if it lies in none. Every address that comes from a
/// guest passes through here before the monitor follows it.
pub fn validate_phys_addr(hart: &Hart, addr: PhysMemBase) -> (valid: Option<PhysMemBase>)
    ensures
        valid == if phys_addr_valid(*hart, addr as int) {
            Some(addr)
        } else {
            None
        },
{
    let mut region: usize = 0;
    while region < PHYS_PMP_MAX_REGIONS
        invariant
            region <= 8,
            forall|r: int| 0 <= r < region ==> !region_holds(*hart, r, addr as int),
        decreases 8 - region,
    {
        if region_holds_addr(hart, region, addr) {
            return Some(addr);
        }
        region = region + 1;
    }
    None
}

/// Whether the `size` bytes from `addr` on lie in one region that the
/// running guest may read.
pub fn validate_phys_range(hart: &Hart, addr: PhysMemBase, size: PhysMemSize) -> (valid: bool)
    ensures
        valid == (size > 0 && phys_range_valid(*hart, addr as int, addr + size - 1)),
{
    if size == 0 || addr > u64::MAX - (size - 1) {
        return false;
    }
    let last = addr + (size - 1);
    let mut region: usize = 0;
    while region < PHYS_PMP_MAX_REGIONS
        invariant
            region <= 8,
            size > 0,
            last == addr + size - 1,
            forall|r: int|
                0 <= r < region ==> !(region_holds(*hart, r, addr as int) && region_holds(
                    *hart,
                    r,
                    last as int,
                )),
        decreases 8 - region,
    {
        if region_holds_addr(hart, region, addr) && region_holds_addr(hart, region, last) {
            return true;
        }
        region = region + 1;
    }
    false
}

/// Every byte of a valid range is a valid address.
pub proof fn lemma_range_valid_bytes(hart: Hart, addr: int, last: int, byte: int)
    requires
        phys_range_valid(hart, addr, last),
        addr <= byte <= last,
    ensures
        phys_addr_valid(hart, byte),
{
    let region = choose|region: int|
        #![trigger region_holds(hart, region, addr)]
        addr <= last <= u64::MAX && region_holds(hart, region, addr) && region_holds(
            hart,
            region,
            last,
        );
    assert(region_holds(hart, region, byte));
}

/// After a region was protected with some access, every address from its
/// base up to the last whole word below its end validates; an address in no
/// active region does not; and what the other regions hold is unchanged.
pub proof fn lemma_protect_then_validate(
    before: Hart,
    after: Hart,
    region: int,
    base: u64,
    end: u64,
    access: AccessPermissions,
    x: u64,
)
    requires
        0 <= region < 8,
        base <= end,
        protected(before, after, region, base, end, access),
    ensures
        access != AccessPermissions::NoAccess && base <= x && x / 4 < end / 4 ==> phys_addr_valid(
            after,
            x as int,
        ),
        access != AccessPermissions::NoAccess && end % 4 == 0 && base <= x < end
            ==> phys_addr_valid(after, x as int),
        access == AccessPermissions::NoAccess ==> !region_holds(after, region, x as int),
        !(4 * (base / 4) <= x && x / 4 < end / 4) ==> !region_holds(after, region, x as int),
        forall|other: int|
            0 <= other < 8 && other != region ==> #[trigger] region_holds(after, other, x as int)
                == region_holds(before, other, x as int),
{
    let flags = access.flags();
    let config = pmp_entry_config(after, 2 * region + 1);
    assert(config == flags | 0x8);
    assert(flags != 0 ==> (flags | 0x8) & 0x18 == 0x08 && (flags | 0x8) & 0x1 == 0x1)
        by (bit_vector)
        requires
            flags == 0 || flags == 1 || flags == 3 || flags == 5 || flags == 7,
    ;
    assert((0u64 | 0x8) & 0x1 == 0) by (bit_vector);
    assert(base >> 2 == base / 4) by (bit_vector);
    assert(end >> 2 == end / 4) by (bit_vector);
    assert(after.pmpaddr[2 * region] == base >> 2);
    assert(after.pmpaddr[2 * region + 1] == end >> 2);
    if access != AccessPermissions::NoAccess && base <= x && x / 4 < end / 4 {
        assert(region_holds(after, region, x as int));
    }
    assert forall|other: int| 0 <= other < 8 && other != region implies #[trigger] region_holds(
        after,
        other,
        x as int,
    ) == region_holds(before, other, x as int) by {
        assert(pmp_entry_config(after, 2 * other + 1) == pmp_entry_config(before, 2 * other + 1));
        assert(after.pmpaddr[2 * other] == before.pmpaddr[2 * other]);
        assert(after.pmpaddr[2 * other + 1] == before.pmpaddr[2 * other + 1]);
    }
}

/// Protecting a region keeps the base and end of every active region in
/// order.
pub proof fn lemma_protect_keeps_order(
    before: Hart,
    after: Hart,
    region: int,
    base: u64,
    end: u64,
    access: AccessPermissions,
)
    requires
        0 <= region < 8,
        base <= end,
        regions_ordered(before),
        protected(before, after, region, base, end, access),
    ensures
        regions_ordered(after),
{
    assert(base >> 2 <= end >> 2) by (bit_vector)
        requires
            base <= end,
    ;
    assert forall|other: int| 0 <= other < 8 && #[trigger] region_active(after, other) implies region_base(
        after,
        other,
    ) <= region_end(after, other) by {
        if other != region {
            assert(pmp_entry_config(after, 2 * other + 1) == pmp_entry_config(
                before,
                2 * other + 1,
            ));
            assert(after.pmpaddr[2 * other] == before.pmpaddr[2 * other]);
            assert(after.pmpaddr[2 * other + 1] == before.pmpaddr[2 * other + 1]);
            assert(region_active(before, other));
        } else {
            assert(after.pmpaddr[2 * region] == base >> 2);
            assert(after.pmpaddr[2 * region + 1] == end >> 2);
        }
    }
}

/// The monitor's own footprint: its image from `image_start` up to
/// `image_end`, followed by the memory that each of `cpu_count` cores keeps
/// for itself.
pub open spec fn spec_hypervisor_footprint(
    cpu_count: usize,
    image_start: PhysMemBase,
    image_end: PhysMemEnd,
) -> (int, int) {
    (image_start as int, image_end + cpu_count * 0x10_0000)
}

/// The start and end address of all that the monitor occupies in physical
/// memory, the per-core areas included.
pub fn hypervisor_footprint(
    cpu_count: usize,
    image_start: PhysMemBase,
    image_end: PhysMemEnd,
) -> (footprint: (PhysMemBase, PhysMemEnd))
    requires
        image_end + cpu_count * 0x10_0000 <= u64::MAX,
    ensures
        (footprint.0 as int, footprint.1 as int) == spec_hypervisor_footprint(
            cpu_count,
            image_start,
            image_end,
        ),
{
    assert(cpu_count * 0x10_0000 <= u64::MAX) by (nonlinear_arith)
        requires
            image_end + cpu_count * 0x10_0000 <= u64::MAX,
            image_end >= 0,
    ;
    let hypervisor_end: PhysMemEnd = image_end + (cpu_count as u64) * PHYS_MEM_PER_CPU;
    (image_start, hypervisor_end)
}

/// An iterator over the parts of `phys_ram_block` that can be handed out:
/// all of it but the monitor's footprint, which is taken to be one
/// contiguous block.
pub fn validate_ram(
    cpu_count: usize,
    phys_ram_block: RAMArea,
    image_start: PhysMemBase,
    image_end: PhysMemEnd,
) -> (areas: RAMAreaIter)
    requires
        phys_ram_block.fits(),
        image_start <= image_end,
        image_end + cpu_count * 0x10_0000 <= u64::MAX,
    ensures
        areas.wf(),
        areas.total() == phys_ram_block,
        areas.footprint().base == image_start,
        areas.footprint().end() == image_end + cpu_count * 0x10_0000,
        areas.position() == phys_ram_block.base,
{
    let (phys_hypervisor_start, phys_hypervisor_end) = hypervisor_footprint(
        cpu_count,
        image_start,
        image_end,
    );
    let phys_hypervisor_size = phys_hypervisor_end - phys_hypervisor_start;
    RAMAreaIter {
        pos: phys_ram_block.base,
        total_area: phys_ram_block,
        hypervisor_area: RAMArea { base: phys_hypervisor_start, size: phys_hypervisor_size },
    }
}

/// One step of the walk over a block of RAM.
pub struct AreaStep {
    /// The area handed out, if any is left.
    pub area: Option<RAMArea>,
    /// Where the walk stands afterwards.
    pub position: int,
}

impl RAMAreaIter {
    /// The whole block of RAM that is walked over.
    pub closed spec fn total(&self) -> RAMArea {
        self.total_area
    }

    /// The part that the monitor occupies.
    pub closed spec fn footprint(&self) -> RAMArea {
        self.hypervisor_area
    }

    /// How far the walk has come.
    pub closed spec fn position(&self) -> PhysMemBase {
        self.pos
    }

    /// Neither the block nor the footprint runs past the end of the address
    /// space.
    pub open spec fn wf(&self) -> bool {
        self.total().fits() && self.footprint().fits()
    }

    /// The next area and position of a walk over `total` that skips
    /// `footprint` and stands at `position`. A position below the block
    /// counts as its base, and a position inside the footprint as the
    /// footprint's end. From there the area runs to the next boundary: the
    /// footprint's base if that lies ahead and inside the block, else the
    /// end of the block.
    pub open spec fn step(total: RAMArea, footprint: RAMArea, position: int) -> AreaStep {
        let start = if position < total.base {
            total.base as int
        } else {
            position
        };
        let from = if footprint.contains(start) {
            footprint.end()
        } else {
            start
        };
        if from >= total.end() {
            AreaStep { area: None, position: from }
        } else if from < footprint.base && footprint.base < total.end() {
            AreaStep {
                area: Some(
                    RAMArea { base: from as u64, size: (footprint.base - from) as u64 },
                ),
                position: footprint.end(),
            }
        } else {
            AreaStep {
                area: Some(RAMArea { base: from as u64, size: (total.end() - from) as u64 }),
                position: total.end(),
            }
        }
    }

    /// Hands out the next area of usable RAM, or `None` when the block is
    /// used up.
    pub fn next(&mut self) -> (area: Option<RAMArea>)
        requires
            old(self).wf(),
        ensures
            final(self).wf(),
            final(self).total() == old(self).total(),
            final(self).footprint() == old(self).footprint(),
            area == Self::step(old(self).total(), old(self).footprint(), old(self).position() as int).area,
            final(self).position() == Self::step(
                old(self).total(),
                old(self).footprint(),
                old(self).position() as int,
            ).position,
    {
        let total_end = self.total_area.base + self.total_area.size;
        let hypervisor_end = self.hypervisor_area.base + self.hypervisor_area.size;

        if self.pos < self.total_area.base {
            self.pos = self.total_area.base;
        }
        if self.pos >= self.hypervisor_area.base && self.pos < hypervisor_end {
            self.pos = hypervisor_end;
        }
        if self.pos >= total_end {
            return None;
        }
        if self.pos < self.hypervisor_area.base && self.hypervisor_area.base < total_end {
            let area = RAMArea { base: self.pos, size: self.hypervisor_area.base - self.pos };
            self.pos = hypervisor_end;
            return Some(area);
        }
        let area = RAMArea { base: self.pos, size: total_end - self.pos };
        self.pos = total_end;
        Some(area)
    }
}

/// Every area that the walk hands out is not empty, lies inside the block
/// of RAM, shares no byte with the monitor's footprint and starts no lower
/// than the walk stood; the walk ends up past the area; and between where
/// the walk stood and where it ends up, no byte of the block is left out
/// but those of the footprint. When the walk hands out nothing, nothing is
/// left from where it stood but the footprint.
pub proof fn lemma_areas_avoid_footprint(total: RAMArea, footprint: RAMArea, position: int, addr: int)
    requires
        total.fits(),
        footprint.fits(),
        0 <= position,
    ensures
        ({
            let step = RAMAreaIter::step(total, footprint, position);
            match step.area {
                Some(area) => {
                    &&& area.size > 0
                    &&& total.base <= area.base
                    &&& area.end() <= total.end()
                    &&& position <= area.base
                    &&& area.end() <= step.position
                    &&& area.contains(addr) ==> total.contains(addr) && !footprint.contains(addr)
                    &&& position <= addr < step.position && total.contains(addr)
                        && !footprint.contains(addr) ==> area.contains(addr)
                },
                None => position <= addr && total.contains(addr) ==> footprint.contains(addr),
            }
        }),
{
}

} // verus!
