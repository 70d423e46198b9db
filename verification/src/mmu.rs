//! Translation of a guest's virtual addresses, by walking the guest's own
//! page tables.
//!
//! The tables belong to the guest, so nothing in them is trusted: a table is
//! read only once the whole page that holds it has been found inside one of
//! the guest's protection regions. The walk resolves an address and nothing
//! more; access, dirty, user and global bits play no part, and permissions
//! are not enforced here.
//!
//! Memory is reached through a reader that the caller supplies: a function
//! from the physical address of a table entry to the eight bytes stored
//! there.

use vstd::prelude::*;
use crate::csr::Csr;
use crate::csr::Hart;
use crate::physmem::PAGE_SIZE;
use crate::physmem::phys_addr_valid;
use crate::physmem::phys_range_valid;
use crate::physmem::validate_phys_addr;
use crate::physmem::validate_phys_range;

verus! {

pub const RV64_SATP_PPN_MASK: u64 = 0xfff_ffff_ffff;
pub const RV64_SATP_MODE_BIT_SHIFT: u64 = 60;
pub const RV64_SATP_MODE_BIT_MASK: u64 = 0xf;
pub const RV64_SATP_MODE_BARE: u64 = 0;
pub const RV64_SATP_MODE_SV39: u64 = 8;
pub const RV64_SATP_MODE_SV48: u64 = 9;

pub const SV39_VADDR_MASK: u64 = 0x7f_ffff_ffff;
pub const SV39_VPN_BASE_SHIFT: u64 = 12;
pub const SV39_VPN_SHIFT: u64 = 9;
pub const SV39_VPN_COUNT: u64 = 3;
pub const SV39_VPN_MASK: u64 = 0x1ff;
pub const SV39_PTE_SIZE: u64 = 8;
pub const SV39_PTE_PPN_BASE_SHIFT: u64 = 10;
pub const SV39_PTE_PPN_FULL_MASK: u64 = 0xfff_ffff_ffff;
pub const SV39_PHYS_PPN_BASE_SHIFT: u64 = 12;

pub const PAGE_BITS_VALID: u64 = 0x1;
pub const PAGE_BITS_READ: u64 = 0x2;
pub const PAGE_BITS_WRITE: u64 = 0x4;
pub const PAGE_BITS_EXEC: u64 = 0x8;
pub const PAGE_RWX_MASK: u64 = 0xe;

/// The translation mode that a translation root register selects.
pub open spec fn satp_mode(satp: u64) -> u64 {
    (satp >> 60) & 0xf
}

/// The physical address of the root table that a translation root register
/// names.
pub open spec fn satp_root_table(satp: u64) -> u64 {
    ((satp & 0xfff_ffff_ffff) * 4096) as u64
}

/// The index into the table of level `level` that `vaddr` selects: nine
/// bits, from bit `12 + 9 * level` up.
pub open spec fn table_index(vaddr: u64, level: u64) -> u64 {
    ((vaddr & 0x7f_ffff_ffff) >> (12 + 9 * level) as u64) & 0x1ff
}

/// The physical address of the entry for `vaddr` in the table of level
/// `level` at `table_addr`.
pub open spec fn entry_address(table_addr: u64, vaddr: u64, level: u64) -> int {
    table_addr + 8 * table_index(vaddr, level)
}

/// The entry is marked valid.
pub open spec fn entry_valid(entry: u64) -> bool {
    entry & 0x1 == 0x1
}

/// The entry points to the table of the next level: none of its read, write
/// and execute bits is set.
pub open spec fn entry_is_pointer(entry: u64) -> bool {
    entry & 0xe == 0
}

/// The number of the physical page that the entry names.
pub open spec fn entry_page_number(entry: u64) -> u64 {
    (entry >> 10) & 0xfff_ffff_ffff
}

/// The physical address of the page that the entry names.
pub open spec fn entry_target(entry: u64) -> u64 {
    (entry_page_number(entry) * 4096) as u64
}

/// Mask of the bits of a virtual address that a leaf at level `level`
/// passes on unchanged: the offset within a page, and within a superpage
/// the lower page numbers as well.
pub open spec fn leaf_offset_mask(level: u64) -> u64 {
    ((1u64 << (12 + 9 * level) as u64) - 1) as u64
}

/// The physical address that a leaf entry found at level `level` gives to
/// `vaddr`. A leaf that is neither readable nor executable is reserved, and
/// a superpage must be aligned to its size; either failing, there is no
/// address.
pub open spec fn leaf_address(entry: u64, vaddr: u64, level: u64) -> Option<u64> {
    let page = entry_page_number(entry);
    if entry & 0x2 == 0 && entry & 0x8 == 0 {
        None
    } else if (page << 12) & leaf_offset_mask(level) != 0 {
        None
    } else {
        Some((page << 12) | ((vaddr & 0x7f_ffff_ffff) & leaf_offset_mask(level)))
    }
}

/// The outcome of the three-level walk for `vaddr` from the table of level
/// `level` at `table_addr`, over memory that holds `memory(a)` in the eight
/// bytes at `a`.
pub open spec fn sv39_walk(
    hart: Hart,
    memory: spec_fn(u64) -> u64,
    table_addr: u64,
    vaddr: u64,
    level: u64,
) -> Option<u64>
    decreases level,
{
    if level > 2 || !phys_range_valid(hart, table_addr as int, table_addr + 4095) {
        None
    } else {
        let entry = memory(entry_address(table_addr, vaddr, level) as u64);
        if !entry_valid(entry) {
            None
        } else if !entry_is_pointer(entry) {
            leaf_address(entry, vaddr, level)
        } else if level == 0 {
            None
        } else {
            sv39_walk(hart, memory, entry_target(entry), vaddr, (level - 1) as u64)
        }
    }
}

/// The physical address that the guest's supervisor address `saddr` stands
/// for. Without translation an address stands for itself if the guest may
/// touch it. Of the paged modes only the three-level one is walked.
pub open spec fn translation(hart: Hart, memory: spec_fn(u64) -> u64, saddr: u64) -> Option<u64> {
    let mode = satp_mode(hart.satp);
    if mode == 0 {
        if phys_addr_valid(hart, saddr as int) {
            Some(saddr)
        } else {
            None
        }
    } else if mode == 8 {
        sv39_walk(hart, memory, satp_root_table(hart.satp), saddr, 2)
    } else {
        None
    }
}

/// The reader hands out what `memory` holds.
pub open spec fn reads_from<F: Fn(u64) -> u64>(reader: F, memory: spec_fn(u64) -> u64) -> bool {
    forall|addr: u64, value: u64| #[trigger]
        call_ensures(reader, (addr,), value) ==> value == memory(addr)
}

/// The reader can be asked for any eight bytes that lie in one of the
/// guest's active regions. A walk that asks this much of its reader, and no
/// more, cannot read anywhere else.
pub open spec fn reads_guest_memory<F: Fn(u64) -> u64>(reader: F, hart: Hart) -> bool {
    forall|addr: u64|
        phys_range_valid(hart, addr as int, addr + 7) ==> #[trigger] call_requires(
            reader,
            (addr,),
        )
}

/// Translates the supervisor address `saddr` of the running guest to a
/// physical address, or to `None` if it has none that the guest may touch.
/// Without translation, in a mode that is not walked, and with a root table
/// outside the guest's memory, the answer does not depend on the reader.
pub fn supervisor_addr_to_phys<F: Fn(u64) -> u64>(hart: &Hart, saddr: u64, read_entry: F) -> (paddr:
    Option<u64>)
    requires
        reads_guest_memory(read_entry, *hart),
    ensures
        forall|memory: spec_fn(u64) -> u64| #[trigger]
            reads_from(read_entry, memory) ==> paddr == translation(*hart, memory, saddr),
        satp_mode(hart.satp) == 0 ==> paddr == if phys_addr_valid(*hart, saddr as int) {
            Some(saddr)
        } else {
            None
        },
        satp_mode(hart.satp) != 0 && satp_mode(hart.satp) != 8 ==> paddr is None,
        satp_mode(hart.satp) == 8 && !phys_range_valid(
            *hart,
            satp_root_table(hart.satp) as int,
            satp_root_table(hart.satp) + 4095,
        ) ==> paddr is None,
{
    let satp = hart.read_csr(Csr::Satp);
    let mode = (satp >> RV64_SATP_MODE_BIT_SHIFT) & RV64_SATP_MODE_BIT_MASK;
    if mode == RV64_SATP_MODE_BARE {
        return validate_phys_addr(hart, saddr);
    }
    let page_number = satp & RV64_SATP_PPN_MASK;
    assert(page_number * 4096 <= u64::MAX) by (bit_vector)
        requires
            page_number == satp & 0xfff_ffff_ffff,
    ;
    let root_table = page_number * PAGE_SIZE;
    if mode == RV64_SATP_MODE_SV39 {
        sv39_to_phys(hart, root_table, saddr, read_entry)
    } else if mode == RV64_SATP_MODE_SV48 {
        sv48_to_phys(root_table, saddr)
    } else {
        None
    }
}

/// The two-level walk of 32-bit guests is not implemented: no address
/// resolves.
pub fn sv32_to_phys(_root_table_addr: u64, _vaddr: u64) -> (paddr: Option<u64>)
    ensures
        paddr is None,
{
    None
}

/// The four-level walk is not implemented: no address resolves.
pub fn sv48_to_phys(_root_table_addr: u64, _vaddr: u64) -> (paddr: Option<u64>)
    ensures
        paddr is None,
{
    None
}

/// Walks the three-level page tables from the root table at `table_addr`
/// and returns the physical address that `vaddr` resolves to, or `None` if
/// a table lies outside the guest's memory, an entry is invalid or
/// reserved, a superpage is misaligned, or the last level points further
/// down. A root table outside the guest's memory gives `None` whatever the
/// reader would hand out.
pub fn sv39_to_phys<F: Fn(u64) -> u64>(hart: &Hart, table_addr: u64, vaddr: u64, read_entry: F) -> (paddr:
    Option<u64>)
    requires
        reads_guest_memory(read_entry, *hart),
    ensures
        forall|memory: spec_fn(u64) -> u64| #[trigger]
            reads_from(read_entry, memory) ==> paddr == sv39_walk(
                *hart,
                memory,
                table_addr,
                vaddr,
                2,
            ),
        !phys_range_valid(*hart, table_addr as int, table_addr + 4095) ==> paddr is None,
{
    let masked = vaddr & SV39_VADDR_MASK;
    let mut table: u64 = table_addr;
    let mut level: u64 = SV39_VPN_COUNT;
    while level > 0
        invariant
            level <= 3,
            masked == vaddr & 0x7f_ffff_ffff,
            reads_guest_memory(read_entry, *hart),
            level == 3 ==> table == table_addr,
            level < 3 ==> phys_range_valid(*hart, table_addr as int, table_addr + 4095),
            forall|memory: spec_fn(u64) -> u64| #[trigger]
                reads_from(read_entry, memory) ==> sv39_walk(*hart, memory, table_addr, vaddr, 2)
                    == if level == 0 {
                    None
                } else {
                    sv39_walk(*hart, memory, table, vaddr, (level - 1) as u64)
                },
        decreases level,
    {
        level = level - 1;
        if !validate_phys_range(hart, table, PAGE_SIZE) {
            return None;
        }
        let shift: u64 = SV39_VPN_BASE_SHIFT + SV39_VPN_SHIFT * level;
        let index = (masked >> shift) & SV39_VPN_MASK;
        assert(index <= 511) by (bit_vector)
            requires
                index == (masked >> shift) & 0x1ff,
        ;
        let entry_addr = table + index * SV39_PTE_SIZE;
        proof {
            let region = choose|region: int|
                #![trigger crate::physmem::region_holds(*hart, region, table as int)]
                table <= table + 4095 <= u64::MAX && crate::physmem::region_holds(
                    *hart,
                    region,
                    table as int,
                ) && crate::physmem::region_holds(*hart, region, table + 4095);
            assert(crate::physmem::region_holds(*hart, region, entry_addr as int));
            assert(crate::physmem::region_holds(*hart, region, entry_addr + 7));
        }
        let entry = read_entry(entry_addr);
        if entry & PAGE_BITS_VALID != PAGE_BITS_VALID {
            return None;
        }
        let page = (entry >> SV39_PTE_PPN_BASE_SHIFT) & SV39_PTE_PPN_FULL_MASK;
        assert(page * 4096 <= u64::MAX && page << 12 == page * 4096) by (bit_vector)
            requires
                page == (entry >> 10) & 0xfff_ffff_ffff,
        ;
        if entry & PAGE_RWX_MASK == 0 {
            table = page * PAGE_SIZE;
        } else {
            if entry & PAGE_BITS_READ == 0 && entry & PAGE_BITS_EXEC == 0 {
                return None;
            }
            assert(shift < 64 && (1u64 << shift) >= 1) by (bit_vector)
                requires
                    shift == 12 || shift == 21 || shift == 30,
            ;
            let offset_mask: u64 = (1u64 << shift) - 1;
            let base = page << SV39_PHYS_PPN_BASE_SHIFT;
            if base & offset_mask != 0 {
                return None;
            }
            return Some(base | (masked & offset_mask));
        }
    }
    None
}

/// Without translation, every address that the guest may touch resolves to
/// itself.
pub proof fn lemma_bare_is_identity(hart: Hart, memory: spec_fn(u64) -> u64, x: u64)
    requires
        satp_mode(hart.satp) == 0,
        phys_addr_valid(hart, x as int),
    ensures
        translation(hart, memory, x) == Some(x),
{
}

/// A walk reads nothing but the guest's memory. It runs with a reader that
/// accepts an address only if the eight bytes there lie in one active
/// region, so every byte that it reads is one that validates.
pub proof fn lemma_reads_stay_in_guest_memory<F: Fn(u64) -> u64>(reader: F, hart: Hart)
    requires
        forall|addr: u64| #[trigger]
            call_requires(reader, (addr,)) <==> phys_range_valid(hart, addr as int, addr + 7),
    ensures
        reads_guest_memory(reader, hart),
        forall|addr: u64, byte: int|
            #![trigger call_requires(reader, (addr,)), phys_addr_valid(hart, byte)]
            call_requires(reader, (addr,)) && addr <= byte <= addr + 7 ==> phys_addr_valid(
                hart,
                byte,
            ),
{
    assert forall|addr: u64, byte: int|
        #![trigger call_requires(reader, (addr,)), phys_addr_valid(hart, byte)]
        call_requires(reader, (addr,)) && addr <= byte <= addr + 7 implies phys_addr_valid(
        hart,
        byte,
    ) by {
        crate::physmem::lemma_range_valid_bytes(hart, addr as int, addr + 7, byte);
    }
}

/// Whatever the tables hold, an address resolves only if the root table
/// lies in one of the guest's active regions.
pub proof fn lemma_walk_needs_valid_root(
    hart: Hart,
    memory: spec_fn(u64) -> u64,
    table_addr: u64,
    vaddr: u64,
)
    requires
        sv39_walk(hart, memory, table_addr, vaddr, 2) is Some,
    ensures
        phys_range_valid(hart, table_addr as int, table_addr + 4095),
{
}

/// A readable, aligned leaf in the root table maps the gigabyte that it
/// covers onto the page that it names: the physical address is the page's
/// address with the low thirty bits of the virtual address.
pub proof fn lemma_root_leaf(
    hart: Hart,
    memory: spec_fn(u64) -> u64,
    table_addr: u64,
    vaddr: u64,
    entry: u64,
)
    requires
        phys_range_valid(hart, table_addr as int, table_addr + 4095),
        entry == memory(entry_address(table_addr, vaddr, 2) as u64),
        entry_valid(entry),
        !entry_is_pointer(entry),
    ensures
        sv39_walk(hart, memory, table_addr, vaddr, 2) == leaf_address(entry, vaddr, 2),
        entry & 0xa == 0 ==> sv39_walk(hart, memory, table_addr, vaddr, 2) is None,
        entry & 0x2 == 0x2 && entry_page_number(entry) & 0x3_ffff == 0 && vaddr & 0x3fff_ffff
            == 0 && vaddr & 0x7f_ffff_ffff == vaddr ==> sv39_walk(
            hart,
            memory,
            table_addr,
            vaddr,
            2,
        ) == Some(entry_page_number(entry) << 12),
{
    let page = entry_page_number(entry);
    assert(12 + 9 * 2u64 == 30);
    assert(leaf_offset_mask(2) == 0x3fff_ffff) by {
        assert((1u64 << 30u64) == 0x4000_0000) by (bit_vector);
    }
    assert(entry & 0xa == 0 ==> entry & 0x2 == 0 && entry & 0x8 == 0) by (bit_vector);
    assert(entry & 0x2 == 0x2 ==> !(entry & 0x2 == 0)) by (bit_vector);
    assert(page & 0x3_ffff == 0 ==> (page << 12) & 0x3fff_ffff == 0) by (bit_vector);
    assert(vaddr & 0x3fff_ffff == 0 ==> (page << 12) | (vaddr & 0x3fff_ffff) == page << 12)
        by (bit_vector);
}

} // verus!
