use nrf70::access::{raw_access_address, raw_read32_request, raw_read32_value, raw_read_requests};
use nrf70::regions::{region, EXT_SYS_BUS, GRAM, PKTRAM, SYSBUS};

#[test]
fn access_inside_window() {
    let r = region(SYSBUS);
    assert_eq!(raw_access_address(&r, 0x400, 1), Some(0x400));
    assert_eq!(raw_access_address(&r, 0x8FFB, 1), Some(0x8FFB));
    assert_eq!(raw_access_address(&r, 0x8FFC, 1), None);
    let g = region(GRAM);
    assert_eq!(raw_access_address(&g, 0x10, 4), Some(0x80010));
}

#[test]
fn access_overflow_is_refused() {
    let r = region(PKTRAM);
    assert_eq!(raw_access_address(&r, u32::MAX, 1), None);
    assert_eq!(raw_access_address(&r, 0, 0x4000_0000), None);
}

#[test]
fn read32_reads_latency_plus_one() {
    let r = region(SYSBUS);
    assert_eq!(raw_read32_request(&r, 0x494), Some((0x494, 2)));
    let e = region(EXT_SYS_BUS);
    assert_eq!(raw_read32_request(&e, 0), Some((0x9000, 3)));
    let p = region(PKTRAM);
    assert_eq!(raw_read32_request(&p, 0x24), Some((0xC0024, 1)));
    assert_eq!(raw_read32_value(&e, &[0, 0, 42]), 42);
    assert_eq!(raw_read32_value(&p, &[7]), 7);
}

#[test]
fn read32_outside_window() {
    let r = region(SYSBUS);
    assert_eq!(raw_read32_request(&r, 0x9000), None);
}

#[test]
fn read_word_by_word() {
    let r = region(SYSBUS);
    let reqs = raw_read_requests(&r, 0x100, 3).unwrap();
    assert_eq!(reqs, vec![(0x100, 2), (0x104, 2), (0x108, 2)]);
    assert_eq!(raw_read_requests(&r, 0x100, 0), Some(vec![]));
    assert_eq!(raw_read_requests(&r, 0x8FF8, 2), None);
}
