use nrf70::regions::{
    find_region, region, remap_global_addr_to_region_and_offset, Processor, EXT_SYS_BUS, GRAM,
    LMAC_RET_RAM, LMAC_ROM, NUM_REGIONS, PBUS, PKTRAM, SYSBUS, UMAC_RET_RAM, UMAC_ROM,
    UMAC_SRC_RAM,
};

#[test]
fn sysbus_register() {
    let (r, offs) = remap_global_addr_to_region_and_offset(0xA400_0400, None);
    assert_eq!(r.start, region(SYSBUS).start);
    assert_eq!(r.rpu_mem_start, 0xA400_0000);
    assert_eq!(offs, 0x400);
}

#[test]
fn packet_ram_and_gram() {
    let (r, offs) = remap_global_addr_to_region_and_offset(0xB000_5000, None);
    assert_eq!(r.start, region(PKTRAM).start);
    assert_eq!(r.latency, 0);
    assert_eq!(offs, 0x5000);
    let (r, offs) = remap_global_addr_to_region_and_offset(0xB700_0D50, Some(Processor::UMAC));
    assert_eq!(r.start, region(GRAM).start);
    assert_eq!(offs, 0xD50);
}

#[test]
fn address_zero_is_the_extended_system_bus() {
    let (r, offs) = remap_global_addr_to_region_and_offset(0, None);
    assert_eq!(r.start, region(EXT_SYS_BUS).start);
    assert_eq!(r.latency, 2);
    assert_eq!(offs, 0);
}

#[test]
fn core_memory_depends_on_the_core() {
    let (r, offs) = remap_global_addr_to_region_and_offset(0x8000_1000, Some(Processor::LMAC));
    assert_eq!(r.start, region(LMAC_ROM).start);
    assert_eq!(offs, 0x1000);
    let (r, offs) = remap_global_addr_to_region_and_offset(0x8000_1000, Some(Processor::UMAC));
    assert_eq!(r.start, region(UMAC_ROM).start);
    assert_eq!(offs, 0x1000);
    let (r, offs) = remap_global_addr_to_region_and_offset(0x8008_C000, Some(Processor::UMAC));
    assert_eq!(r.start, region(UMAC_RET_RAM).start);
    assert_eq!(offs, 0xC000);
    let (r, offs) = remap_global_addr_to_region_and_offset(0x8004_4000, Some(Processor::LMAC));
    assert_eq!(r.start, region(LMAC_RET_RAM).start);
    assert_eq!(offs, 0x4000);
}

#[test]
fn core_memory_needs_a_core() {
    assert!(find_region(0x8000_1000, None).is_none());
    // UMAC scratch RAM is not visible to the LMAC.
    assert!(find_region(0x8010_0000, Some(Processor::LMAC)).is_none());
    assert!(find_region(0x8010_0000, Some(Processor::UMAC)).is_some());
    assert_eq!(find_region(0x8010_0000, Some(Processor::UMAC)).unwrap().0.start, region(UMAC_SRC_RAM).start);
}

#[test]
fn unmapped_addresses() {
    assert!(find_region(1, None).is_none());
    assert!(find_region(0xC000_0000, Some(Processor::LMAC)).is_none());
    assert!(find_region(0xA600_0000, None).is_none());
}

#[test]
fn range_ends_are_inclusive() {
    assert_eq!(find_region(0xA5FF_FFFF, None).unwrap().0.start, region(PBUS).start);
    assert_eq!(find_region(0xA5FF_FFFF, None).unwrap().1, 0x00FF_FFFF);
    assert_eq!(find_region(0x8003_3FFF, Some(Processor::LMAC)).unwrap().0.start, region(LMAC_ROM).start);
    assert!(find_region(0x8003_4000, Some(Processor::LMAC)).is_none());
}

#[test]
fn at_most_one_window_serves_an_address() {
    let addrs = [0u32, 0xA400_0000, 0xA4FF_FFFF, 0xA500_0000, 0xB000_0000, 0xB700_0000, 0x8000_0000, 0x8004_0000, 0x8008_0000, 0x8010_0000, 0x800A_3FFF];
    for &a in &addrs {
        for p in [None, Some(Processor::LMAC), Some(Processor::UMAC)] {
            let mut n = 0;
            for i in 0..NUM_REGIONS {
                let r = region(i);
                let ok = match r.processor_restriction {
                    None => true,
                    Some(q) => p == Some(q),
                };
                if ok && r.rpu_mem_start <= a && a <= r.rpu_mem_end {
                    n += 1;
                }
            }
            assert!(n <= 1);
            assert_eq!(n == 1, find_region(a, p).is_some());
        }
    }
}
