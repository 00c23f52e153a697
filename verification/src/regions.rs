//! The RPU memory map: which bus window serves each RPU address.
use vstd::prelude::*;

verus! {

/// The two cores of the RPU.
#[derive(Clone, Copy, Debug, PartialEq, Eq, Structural)]
pub enum Processor {
    LMAC,
    UMAC,
}

/// A window of the bus that maps a range of RPU addresses.
#[derive(Clone, Copy, Debug)]
pub struct MemoryRegion {
    /// First bus address of the window.
    pub start: u32,
    /// Last bus address of the window; an access must end at or before it.
    pub end: u32,
    /// Number of dummy 32bit words
    pub latency: u32,
    /// First RPU address that the window maps.
    pub rpu_mem_start: u32,
    /// Last RPU address that the window maps.
    pub rpu_mem_end: u32,
    /// The core whose view of memory the window is, if it belongs to one.
    pub processor_restriction: Option<Processor>,
}

pub const SYSBUS: usize = 0;

pub const EXT_SYS_BUS: usize = 1;

pub const PBUS: usize = 2;

pub const PKTRAM: usize = 3;

pub const GRAM: usize = 4;

pub const LMAC_ROM: usize = 5;

pub const LMAC_RET_RAM: usize = 6;

pub const LMAC_SRC_RAM: usize = 7;

pub const UMAC_ROM: usize = 8;

pub const UMAC_RET_RAM: usize = 9;

pub const UMAC_SRC_RAM: usize = 10;

/// Number of windows in the memory map.
pub const NUM_REGIONS: usize = 11;

pub open spec fn mk_region(
    start: u32,
    end: u32,
    latency: u32,
    rpu_mem_start: u32,
    rpu_mem_end: u32,
    processor_restriction: Option<Processor>,
) -> MemoryRegion {
    MemoryRegion { start, end, latency, rpu_mem_start, rpu_mem_end, processor_restriction }
}

/// The memory map, in the order in which windows are searched.
pub open spec fn spec_region(i: int) -> MemoryRegion {
    if i == 0 {
        mk_region(0x000000, 0x008FFF, 1, 0xA4000000, 0xA4FFFFFF, None)
    } else if i == 1 {
        mk_region(0x009000, 0x03FFFF, 2, 0, 0, None)
    } else if i == 2 {
        mk_region(0x040000, 0x07FFFF, 1, 0xA5000000, 0xA5FFFFFF, None)
    } else if i == 3 {
        mk_region(0x0C0000, 0x0F0FFF, 0, 0xB0000000, 0xB0FFFFFF, None)
    } else if i == 4 {
        mk_region(0x080000, 0x092000, 1, 0xB7000000, 0xB7FFFFFF, None)
    } else if i == 5 {
        mk_region(0x100000, 0x134000, 1, 0x80000000, 0x80033FFF, Some(Processor::LMAC))
    } else if i == 6 {
        mk_region(0x140000, 0x14C000, 1, 0x80040000, 0x8004BFFF, Some(Processor::LMAC))
    } else if i == 7 {
        mk_region(0x180000, 0x190000, 1, 0x80080000, 0x8008FFFF, Some(Processor::LMAC))
    } else if i == 8 {
        mk_region(0x200000, 0x261800, 1, 0x80000000, 0x800617FF, Some(Processor::UMAC))
    } else if i == 9 {
        mk_region(0x280000, 0x2A4000, 1, 0x80080000, 0x800A3FFF, Some(Processor::UMAC))
    } else {
        mk_region(0x300000, 0x338000, 1, 0x80100000, 0x80137FFF, Some(Processor::UMAC))
    }
}

/// The memory map by value: the index of each named window, and each
/// window's bus range, latency, RPU range and core.
pub proof fn lemma_region_table_by_value()
    ensures
        SYSBUS == 0,
        EXT_SYS_BUS == 1,
        PBUS == 2,
        PKTRAM == 3,
        GRAM == 4,
        LMAC_ROM == 5,
        LMAC_RET_RAM == 6,
        LMAC_SRC_RAM == 7,
        UMAC_ROM == 8,
        UMAC_RET_RAM == 9,
        UMAC_SRC_RAM == 10,
        spec_region(0) == (MemoryRegion { start: 0x0u32, end: 0x8FFFu32, latency: 1u32, rpu_mem_start: 0xA4000000u32, rpu_mem_end: 0xA4FFFFFFu32, processor_restriction: None }),
        spec_region(1) == (MemoryRegion { start: 0x9000u32, end: 0x3FFFFu32, latency: 2u32, rpu_mem_start: 0x0u32, rpu_mem_end: 0x0u32, processor_restriction: None }),
        spec_region(2) == (MemoryRegion { start: 0x40000u32, end: 0x7FFFFu32, latency: 1u32, rpu_mem_start: 0xA5000000u32, rpu_mem_end: 0xA5FFFFFFu32, processor_restriction: None }),
        spec_region(3) == (MemoryRegion { start: 0xC0000u32, end: 0xF0FFFu32, latency: 0u32, rpu_mem_start: 0xB0000000u32, rpu_mem_end: 0xB0FFFFFFu32, processor_restriction: None }),
        spec_region(4) == (MemoryRegion { start: 0x80000u32, end: 0x92000u32, latency: 1u32, rpu_mem_start: 0xB7000000u32, rpu_mem_end: 0xB7FFFFFFu32, processor_restriction: None }),
        spec_region(5) == (MemoryRegion { start: 0x100000u32, end: 0x134000u32, latency: 1u32, rpu_mem_start: 0x80000000u32, rpu_mem_end: 0x80033FFFu32, processor_restriction: Some(Processor::LMAC) }),
        spec_region(6) == (MemoryRegion { start: 0x140000u32, end: 0x14C000u32, latency: 1u32, rpu_mem_start: 0x80040000u32, rpu_mem_end: 0x8004BFFFu32, processor_restriction: Some(Processor::LMAC) }),
        spec_region(7) == (MemoryRegion { start: 0x180000u32, end: 0x190000u32, latency: 1u32, rpu_mem_start: 0x80080000u32, rpu_mem_end: 0x8008FFFFu32, processor_restriction: Some(Processor::LMAC) }),
        spec_region(8) == (MemoryRegion { start: 0x200000u32, end: 0x261800u32, latency: 1u32, rpu_mem_start: 0x80000000u32, rpu_mem_end: 0x800617FFu32, processor_restriction: Some(Processor::UMAC) }),
        spec_region(9) == (MemoryRegion { start: 0x280000u32, end: 0x2A4000u32, latency: 1u32, rpu_mem_start: 0x80080000u32, rpu_mem_end: 0x800A3FFFu32, processor_restriction: Some(Processor::UMAC) }),
        spec_region(10) == (MemoryRegion { start: 0x300000u32, end: 0x338000u32, latency: 1u32, rpu_mem_start: 0x80100000u32, rpu_mem_end: 0x80137FFFu32, processor_restriction: Some(Processor::UMAC) }),
{
}

/// The bus ranges of distinct windows do not overlap, and each window's
/// bus and RPU ranges are non-empty: no two windows put different RPU
/// memory on the same bus address.
pub proof fn lemma_region_bus_ranges_disjoint(i: int, j: int)
    requires
        0 <= i < NUM_REGIONS,
        0 <= j < NUM_REGIONS,
        i != j,
    ensures
        spec_region(i).end < spec_region(j).start || spec_region(j).end < spec_region(i).start,
        spec_region(i).start < spec_region(i).end,
        spec_region(i).rpu_mem_start <= spec_region(i).rpu_mem_end,
{
    lemma_region_table_by_value();
}

/// Window `index` of the memory map.
pub fn region(index: usize) -> (r: MemoryRegion)
    requires
        index < NUM_REGIONS,
    ensures
        r == spec_region(index as int),
{
    if index == SYSBUS {
        MemoryRegion { start: 0x000000, end: 0x008FFF, latency: 1, rpu_mem_start: 0xA4000000, rpu_mem_end: 0xA4FFFFFF, processor_restriction: None }
    } else if index == EXT_SYS_BUS {
        MemoryRegion { start: 0x009000, end: 0x03FFFF, latency: 2, rpu_mem_start: 0, rpu_mem_end: 0, processor_restriction: None }
    } else if index == PBUS {
        MemoryRegion { start: 0x040000, end: 0x07FFFF, latency: 1, rpu_mem_start: 0xA5000000, rpu_mem_end: 0xA5FFFFFF, processor_restriction: None }
    } else if index == PKTRAM {
        MemoryRegion { start: 0x0C0000, end: 0x0F0FFF, latency: 0, rpu_mem_start: 0xB0000000, rpu_mem_end: 0xB0FFFFFF, processor_restriction: None }
    } else if index == GRAM {
        MemoryRegion { start: 0x080000, end: 0x092000, latency: 1, rpu_mem_start: 0xB7000000, rpu_mem_end: 0xB7FFFFFF, processor_restriction: None }
    } else if index == LMAC_ROM {
        MemoryRegion { start: 0x100000, end: 0x134000, latency: 1, rpu_mem_start: 0x80000000, rpu_mem_end: 0x80033FFF, processor_restriction: Some(Processor::LMAC) }
    } else if index == LMAC_RET_RAM {
        MemoryRegion { start: 0x140000, end: 0x14C000, latency: 1, rpu_mem_start: 0x80040000, rpu_mem_end: 0x8004BFFF, processor_restriction: Some(Processor::LMAC) }
    } else if index == LMAC_SRC_RAM {
        MemoryRegion { start: 0x180000, end: 0x190000, latency: 1, rpu_mem_start: 0x80080000, rpu_mem_end: 0x8008FFFF, processor_restriction: Some(Processor::LMAC) }
    } else if index == UMAC_ROM {
        MemoryRegion { start: 0x200000, end: 0x261800, latency: 1, rpu_mem_start: 0x80000000, rpu_mem_end: 0x800617FF, processor_restriction: Some(Processor::UMAC) }
    } else if index == UMAC_RET_RAM {
        MemoryRegion { start: 0x280000, end: 0x2A4000, latency: 1, rpu_mem_start: 0x80080000, rpu_mem_end: 0x800A3FFF, processor_restriction: Some(Processor::UMAC) }
    } else {
        MemoryRegion { start: 0x300000, end: 0x338000, latency: 1, rpu_mem_start: 0x80100000, rpu_mem_end: 0x80137FFF, processor_restriction: Some(Processor::UMAC) }
    }
}

/// Window `r` can serve an access to `rpu_addr` made for `processor`: it
/// belongs to no core or to that core, and it maps the address.
pub open spec fn region_serves(r: MemoryRegion, rpu_addr: u32, processor: Option<Processor>) -> bool {
    &&& (r.processor_restriction is None || r.processor_restriction == processor)
    &&& r.rpu_mem_start <= rpu_addr <= r.rpu_mem_end
}

/// The first window, from index `from` on, that serves the access.
pub open spec fn first_serving(rpu_addr: u32, processor: Option<Processor>, from: int) -> Option<int>
    decreases NUM_REGIONS - from,
{
    if from < 0 || from >= NUM_REGIONS {
        None
    } else if region_serves(spec_region(from), rpu_addr, processor) {
        Some(from)
    } else {
        first_serving(rpu_addr, processor, from + 1)
    }
}

proof fn lemma_first_serving_from(rpu_addr: u32, processor: Option<Processor>, from: int)
    requires
        0 <= from,
    ensures
        match first_serving(rpu_addr, processor, from) {
            Some(i) => from <= i < NUM_REGIONS && region_serves(
                spec_region(i),
                rpu_addr,
                processor,
            ),
            None => forall|j: int|
                from <= j < NUM_REGIONS ==> !region_serves(
                    #[trigger] spec_region(j),
                    rpu_addr,
                    processor,
                ),
        },
    decreases NUM_REGIONS - from,
{
    if from < NUM_REGIONS {
        lemma_first_serving_from(rpu_addr, processor, from + 1);
    }
}

/// Windows that one core can use never map the same RPU address twice: an
/// address that is served at all is served by exactly one window, so the
/// order in which the map is searched does not matter.
pub proof fn lemma_serving_region_unique(
    rpu_addr: u32,
    processor: Option<Processor>,
    i: int,
    j: int,
)
    requires
        0 <= i < NUM_REGIONS,
        0 <= j < NUM_REGIONS,
        region_serves(spec_region(i), rpu_addr, processor),
        region_serves(spec_region(j), rpu_addr, processor),
    ensures
        i == j,
{
}

/// The window that the translation picks serves the address, is the only
/// one that does, and belongs to no core or to the core that asked; the
/// offset added to its first RPU address gives the address back.
pub proof fn lemma_translation_sound(rpu_addr: u32, processor: Option<Processor>)
    requires
        is_mapped(rpu_addr, processor),
    ensures
        ({
            let i = first_serving(rpu_addr, processor, 0).unwrap();
            let r = spec_region(i);
            &&& 0 <= i < NUM_REGIONS
            &&& r.processor_restriction is None || r.processor_restriction == processor
            &&& r.rpu_mem_start + (rpu_addr - r.rpu_mem_start) as u32 == rpu_addr
            &&& forall|j: int|
                0 <= j < NUM_REGIONS && region_serves(#[trigger] spec_region(j), rpu_addr, processor)
                    ==> j == i
        }),
{
    lemma_first_serving_from(rpu_addr, processor, 0);
    let i = first_serving(rpu_addr, processor, 0).unwrap();
    assert forall|j: int|
        0 <= j < NUM_REGIONS && region_serves(#[trigger] spec_region(j), rpu_addr, processor)
        implies j == i by {
        lemma_serving_region_unique(rpu_addr, processor, i, j);
    }
}

/// Some window serves the access.
pub open spec fn is_mapped(rpu_addr: u32, processor: Option<Processor>) -> bool {
    first_serving(rpu_addr, processor, 0) is Some
}

fn serves(r: &MemoryRegion, rpu_addr: u32, processor: Option<Processor>) -> (b: bool)
    ensures
        b == region_serves(*r, rpu_addr, processor),
{
    let restriction_ok = match r.processor_restriction {
        None => true,
        Some(p) => match processor {
            Some(q) => p == q,
            None => false,
        },
    };
    restriction_ok && r.rpu_mem_start <= rpu_addr && rpu_addr <= r.rpu_mem_end
}

/// The first window that serves the access, and the address's offset in it.
pub fn find_region(rpu_addr: u32, processor: Option<Processor>) -> (r: Option<(MemoryRegion, u32)>)
    ensures
        match first_serving(rpu_addr, processor, 0) {
            None => r is None,
            Some(i) => r == Some(
                (spec_region(i), (rpu_addr - spec_region(i).rpu_mem_start) as u32),
            ),
        },
{
    let mut i: usize = 0;
    while i < NUM_REGIONS
        invariant
            0 <= i <= NUM_REGIONS,
            first_serving(rpu_addr, processor, 0) == first_serving(rpu_addr, processor, i as int),
        decreases NUM_REGIONS - i,
    {
        let r = region(i);
        if serves(&r, rpu_addr, processor) {
            return Some((r, rpu_addr - r.rpu_mem_start));
        }
        i += 1;
    }
    None
}

/// Translates an RPU address to the window that serves it and the offset
/// of the address in that window.
pub fn remap_global_addr_to_region_and_offset(rpu_addr: u32, processor: Option<Processor>) -> (r: (
    MemoryRegion,
    u32,
))
    requires
        is_mapped(rpu_addr, processor),
    ensures
        ({
            let i = first_serving(rpu_addr, processor, 0).unwrap();
            r == (spec_region(i), (rpu_addr - spec_region(i).rpu_mem_start) as u32)
        }),
{
    match find_region(rpu_addr, processor) {
        Some(found) => found,
        None => {
            proof {
                assert(false);
            }
            vstd::pervasive::unreached()
        },
    }
}

} // verus!
