use nrf70::access::{raw_access_address, raw_read_requests};
use nrf70::regions::find_region;
use nrf70::rpu::{
    HPQM_INFO_WORDS, RPU_MEM_HPQ_INFO, RPU_MEM_LMAC_VER, RPU_MEM_RX_CMD_BASE, RPU_MEM_UMAC_VER,
    RPU_REG_INT_FROM_MCU_ACK, RPU_REG_INT_FROM_MCU_CTRL, RPU_REG_INT_FROM_RPU_CTRL,
    RPU_REG_INT_TO_MCU_CTRL, RPU_REG_MIPS_MCU_UCCP_INT_CLEAR, RPU_REG_MIPS_MCU_UCCP_INT_STATUS,
};
use nrf70::regions::Processor;
use nrf70::rpu::{
    classify_event, command_fits, rpu_event_read_plan, rpu_hpq_dequeue_result,
    rpu_irq_disable_value, rpu_irq_enable_value, rpu_irq_watchdog_check, rpu_msg_trigger,
    rpu_write_core_plan, should_check_watchdog, unpack_version, usable_event_address, EventRest, HostRpuHPQ,
    HostRpuHPQMInfo, RpuEvent, RpuInfo, RPU_CMD_START_MAGIC, RPU_MEM_TX_CMD_BASE,
    RPU_REG_MIPS_MCU2_SYS_CORE_MEM_CTRL, RPU_REG_MIPS_MCU2_SYS_CORE_MEM_WDATA,
    RPU_REG_MIPS_MCU_SYS_CORE_MEM_CTRL, RPU_REG_MIPS_MCU_SYS_CORE_MEM_WDATA, MCU_IRQ_ACK,
    MCU_IRQ_DISABLE, MCU_IRQ_ENABLE, WATCHDOG_IRQ_ACK,
};

#[test]
fn interrupt_words() {
    assert_eq!(MCU_IRQ_ENABLE, 0x8000_0000);
    assert_eq!(MCU_IRQ_DISABLE, 0x7FFF_FFFF);
    assert_eq!(MCU_IRQ_ACK, 0x8000_0000);
    assert_eq!(WATCHDOG_IRQ_ACK, 0x2);
}

#[test]
fn unpack_version_fields() {
    assert_eq!(unpack_version(0x0102_0801), (1, 2, 0, 1));
    assert_eq!(unpack_version(0xFFEE_DDCC), (0xFF, 0xEE, 0, 0xCC));
    assert_eq!(unpack_version(0), (0, 0, 0, 0));
}

#[test]
fn irq_words() {
    assert_eq!(rpu_irq_enable_value(0), 1 << 17);
    assert_eq!(rpu_irq_enable_value(0x5), 0x5 | (1 << 17));
    assert_eq!(rpu_irq_disable_value(0xFFFF_FFFF), 0xFFFF_FFFF & !(1 << 17));
    assert_eq!(rpu_irq_disable_value(rpu_irq_enable_value(0x1234)), 0x1234);
    assert!(rpu_irq_watchdog_check(0x2));
    assert!(rpu_irq_watchdog_check(0xFF));
    assert!(!rpu_irq_watchdog_check(0xFD));
}

#[test]
fn hpq_dequeue() {
    assert_eq!(rpu_hpq_dequeue_result(0), None);
    assert_eq!(rpu_hpq_dequeue_result(0xB000_1000), Some(0xB000_1000));
}

#[test]
fn event_addresses() {
    assert_eq!(usable_event_address(None), None);
    assert_eq!(usable_event_address(Some(0xAAAA_AAAA)), None);
    assert_eq!(usable_event_address(Some(0xB000_2000)), Some(0xB000_2000));
}

#[test]
fn event_read_plans() {
    let p = rpu_event_read_plan(&[64, 0]);
    assert!(!p.free);
    assert_eq!(p.rest, EventRest::Complete);
    let p = rpu_event_read_plan(&[128, 1]);
    assert!(p.free);
    assert_eq!(p.rest, EventRest::Complete);
    let p = rpu_event_read_plan(&[129, 0]);
    assert_eq!(p.rest, EventRest::ReadWords(33));
    let p = rpu_event_read_plan(&[1000, 0]);
    assert_eq!(p.rest, EventRest::ReadWords(250));
    let p = rpu_event_read_plan(&[1001, 3]);
    assert!(p.free);
    assert_eq!(p.rest, EventRest::Fragmented);
}

#[test]
fn classify_events() {
    assert_eq!(classify_event(&[20, 0, 0, 1, 8, 0]), RpuEvent::InitDone);
    assert_eq!(classify_event(&[20, 0, 0, 2, 8, 0]), RpuEvent::UnknownSysEvent(2));
    assert_eq!(classify_event(&[20, 0, 3, 1, 8, 0]), RpuEvent::UnknownType(3));
    assert_eq!(classify_event(&[20, 0, 9, 1, 8, 0, 0]), RpuEvent::UnknownType(9));
}

#[test]
fn command_trigger_counter() {
    assert_eq!(rpu_msg_trigger(RPU_CMD_START_MAGIC), (0x7FFF_DEAD, 0xDEAE));
    assert_eq!(rpu_msg_trigger(0xFFFF_FFFF), (0xFFFF_FFFF, 0));
    assert_eq!(rpu_msg_trigger(0x0001_0002), (0x7FFF_0002, 0x0001_0003));
}

#[test]
fn command_size_limit() {
    assert!(command_fits(0));
    assert!(command_fits(400));
    assert!(!command_fits(401));
}

#[test]
fn queue_information_layout() {
    let words: Vec<u32> = (1..=14).collect();
    let info = HostRpuHPQMInfo::from_words(&words);
    assert_eq!(info.event_busy_queue, HostRpuHPQ { enqueue_addr: 1, dequeue_addr: 2 });
    assert_eq!(info.event_avl_queue, HostRpuHPQ { enqueue_addr: 3, dequeue_addr: 4 });
    assert_eq!(info.cmd_busy_queue, HostRpuHPQ { enqueue_addr: 5, dequeue_addr: 6 });
    assert_eq!(info.cmd_avl_queue, HostRpuHPQ { enqueue_addr: 7, dequeue_addr: 8 });
    assert_eq!(info.rx_buf_busy_queue[2], HostRpuHPQ { enqueue_addr: 13, dequeue_addr: 14 });
    let rpu = RpuInfo::new(&words, 0xB700_0D58);
    assert_eq!(rpu.rx_cmd_base, 0xB700_0D58);
    assert_eq!(rpu.tx_cmd_base, RPU_MEM_TX_CMD_BASE);
    assert_eq!(rpu.hpqm_info.rx_buf_busy_queue[0].enqueue_addr, 9);
}

#[test]
fn core_memory_writes() {
    assert_eq!(
        rpu_write_core_plan(0xC000_0104, Processor::LMAC),
        (RPU_REG_MIPS_MCU_SYS_CORE_MEM_CTRL, RPU_REG_MIPS_MCU_SYS_CORE_MEM_WDATA, 0x41)
    );
    assert_eq!(
        rpu_write_core_plan(0xB7FF_FFFF, Processor::UMAC),
        (RPU_REG_MIPS_MCU2_SYS_CORE_MEM_CTRL, RPU_REG_MIPS_MCU2_SYS_CORE_MEM_WDATA, 0x3F_FFFF)
    );
}

#[test]
fn driver_registers_stay_in_their_windows() {
    let reads = [
        (RPU_MEM_LMAC_VER, Some(Processor::LMAC), 1),
        (RPU_MEM_UMAC_VER, Some(Processor::UMAC), 1),
        (RPU_MEM_HPQ_INFO, None, HPQM_INFO_WORDS),
        (RPU_MEM_RX_CMD_BASE, None, 1),
        (RPU_REG_INT_FROM_RPU_CTRL, None, 1),
        (RPU_REG_MIPS_MCU_UCCP_INT_STATUS, None, 1),
    ];
    for (a, p, n) in reads {
        let (mem, offs) = find_region(a, p).expect("mapped");
        assert_eq!(raw_read_requests(&mem, offs, n).map(|r| r.len()), Some(n));
    }
    let writes = [
        (RPU_REG_INT_FROM_MCU_CTRL, None),
        (RPU_REG_INT_FROM_MCU_ACK, None),
        (RPU_REG_MIPS_MCU_UCCP_INT_CLEAR, None),
        (RPU_REG_INT_TO_MCU_CTRL, Some(Processor::UMAC)),
        (RPU_REG_MIPS_MCU_SYS_CORE_MEM_CTRL, Some(Processor::LMAC)),
        (RPU_REG_MIPS_MCU2_SYS_CORE_MEM_WDATA, Some(Processor::UMAC)),
    ];
    for (a, p) in writes {
        let (mem, offs) = find_region(a, p).expect("mapped");
        assert!(raw_access_address(&mem, offs, 1).is_some());
    }
}

#[test]
fn watchdog_checked_only_without_events() {
    assert!(should_check_watchdog(0));
    assert!(!should_check_watchdog(1));
}

#[test]
fn command_counter_over_many_commands() {
    let start = 0xFFFF_FFFDu32;
    let mut n = start;
    for j in 0..6u32 {
        let (word, next) = rpu_msg_trigger(n);
        assert_eq!(word, start.wrapping_add(j) | 0x7fff_0000);
        n = next;
    }
    assert_eq!(n, start.wrapping_add(6));
}
