use nrf70::config::{
    init_rx_plan, rpu_rx_cmd_addrs, RPU_PKTRAM_SIZE, RX_BUFS, RX_BUF_SIZE, RX_TOTAL_SIZE,
    TX_TOTAL_SIZE,
};
use nrf70::regions::{find_region, region, PKTRAM};
use nrf70::rpu::RPU_MEM_PKT_BASE;

#[test]
fn packet_ram_layout() {
    assert_eq!(TX_TOTAL_SIZE, 99120);
    assert_eq!(RX_TOTAL_SIZE, 76992);
    assert!(TX_TOTAL_SIZE + RX_TOTAL_SIZE <= RPU_PKTRAM_SIZE as usize);
}

#[test]
fn rx_buffers() {
    let plan = init_rx_plan();
    assert_eq!(plan.len(), RX_BUFS);
    assert_eq!(plan[0].queue_id, 0);
    assert_eq!(plan[0].desc_id, 0);
    assert_eq!(plan[0].rpu_addr, RPU_MEM_PKT_BASE + 99120);
    assert_eq!(plan[0].buf_info, RPU_MEM_PKT_BASE + 99124);
    assert_eq!(plan[17].queue_id, 1);
    assert_eq!(plan[17].desc_id, 17);
    assert_eq!(plan[47].queue_id, 2);
    assert_eq!(plan[47].rpu_addr, RPU_MEM_PKT_BASE + 99120 + 47 * 1604);
    for w in plan.windows(2) {
        assert_eq!(w[1].rpu_addr - w[0].rpu_addr, RX_BUF_SIZE as u32);
    }
    for s in &plan {
        let (r, _) = find_region(s.rpu_addr, None).unwrap();
        assert_eq!(r.start, region(PKTRAM).start);
        assert!(s.rpu_addr + RX_BUF_SIZE as u32 <= RPU_MEM_PKT_BASE + RPU_PKTRAM_SIZE);
    }
}

#[test]
fn rx_command_slots() {
    assert_eq!(rpu_rx_cmd_addrs(0xB700_0D58, 0), Some((0xB700_0D58, 0xC000_0D58)));
    assert_eq!(rpu_rx_cmd_addrs(0xB700_0D58, 3), Some((0xB700_0D70, 0xC000_0D70)));
    assert_eq!(rpu_rx_cmd_addrs(0xFFFF_FFF8, 1), None);
    assert_eq!(rpu_rx_cmd_addrs(0xFFFF_FFF0, 1), Some((0xFFFF_FFF8, 0xC0FF_FFF8)));
}
