//! Buffer configuration of the driver and the layout of the packet RAM.
//!
//! The packet RAM usable for host-RPU communication starts at
//! `RPU_MEM_PKT_BASE`. First come the TX buffers, each a header followed
//! by data; then the RX buffers of every RX queue, each a header followed
//! by data. Each RX buffer has a descriptor id, assigned across all queues
//! starting from 0: queue `q` holds descriptors `q * RX_BUFS_PER_QUEUE`
//! to `(q + 1) * RX_BUFS_PER_QUEUE - 1`.
use vstd::prelude::*;
use crate::access::rpu_access_ok;
use crate::regions::first_serving;
use crate::fw::FeatureFlags;
use crate::messages::commands::sys::{
    CmdSysInit, DataConfigParams, DataRetrieveMechanism, Init, RxBufPoolParams, SysCommand,
    SysCommandVariant, SysParams, TempVbatConfig,
};
use crate::rpu::{
    RPU_ADDR_MASK_OFFSET, RPU_DATA_CMD_SIZE_MAX_RX, RPU_MCU_CORE_INDIRECT_BASE, RPU_MEM_PKT_BASE,
    MAX_NUM_OF_RX_QUEUES,
};

verus! {

// configurable by user
pub const MAX_TX_TOKENS: usize = 10;

pub const MAX_TX_AGGREGATION: usize = 6;

pub const TX_MAX_DATA_SIZE: usize = 1600;

pub const RX_MAX_DATA_SIZE: usize = 1600;

pub const RX_BUFS_PER_QUEUE: usize = 16;

// fixed
pub const TX_BUF_HEADROOM: usize = 52;

pub const RX_BUF_HEADROOM: usize = 4;

pub const TX_BUFS: usize = MAX_TX_TOKENS * MAX_TX_AGGREGATION;

pub const TX_BUF_SIZE: usize = TX_BUF_HEADROOM + TX_MAX_DATA_SIZE;

#[verifier::nonlinear]
pub const TX_TOTAL_SIZE: usize = TX_BUFS * TX_BUF_SIZE;

pub const RX_BUFS: usize = RX_BUFS_PER_QUEUE * 3;

pub const RX_BUF_SIZE: usize = RX_BUF_HEADROOM + RX_MAX_DATA_SIZE;

#[verifier::nonlinear]
pub const RX_TOTAL_SIZE: usize = RX_BUFS * RX_BUF_SIZE;

/// Size of the packet RAM usable for host-RPU communication
/// (`RPU_MEM_PKT_BASE` to 0xB0030FFF).
pub const RPU_PKTRAM_SIZE: u32 = 0x2C000;

/// The configuration is usable: at least one TX token, at most 16 frames
/// aggregated, at least one RX buffer per queue, and all buffers fit in
/// the packet RAM.
pub proof fn lemma_config_valid()
    ensures
        MAX_TX_TOKENS >= 1,
        MAX_TX_AGGREGATION <= 16,
        RX_BUFS_PER_QUEUE >= 1,
        RX_BUFS == RX_BUFS_PER_QUEUE * MAX_NUM_OF_RX_QUEUES,
        TX_TOTAL_SIZE + RX_TOTAL_SIZE <= RPU_PKTRAM_SIZE,
{
}

/// RPU address of the RX buffer with descriptor `desc_id`.
pub open spec fn spec_rx_buf_addr(desc_id: int) -> int {
    RPU_MEM_PKT_BASE + TX_TOTAL_SIZE + RX_BUF_SIZE * desc_id
}

/// Descriptor id of buffer `buf_id` of RX queue `queue_id`.
pub open spec fn spec_desc_id(queue_id: int, buf_id: int) -> int {
    queue_id * RX_BUFS_PER_QUEUE + buf_id
}

/// How one RX buffer is handed to the RPU.
#[derive(Clone, Copy, Debug)]
pub struct RxBufSetup {
    /// The RX queue (pool) of the buffer.
    pub queue_id: usize,
    /// The descriptor id of the buffer, written to its header.
    pub desc_id: u32,
    /// RPU address of the buffer.
    pub rpu_addr: u32,
    /// The RX buffer info posted to the RPU: the address of the buffer's
    /// data, after its header.
    pub buf_info: u32,
}

pub open spec fn spec_rx_buf_setup(queue_id: int, buf_id: int) -> RxBufSetup {
    let desc_id = spec_desc_id(queue_id, buf_id);
    RxBufSetup {
        queue_id: queue_id as usize,
        desc_id: desc_id as u32,
        rpu_addr: spec_rx_buf_addr(desc_id) as u32,
        buf_info: (spec_rx_buf_addr(desc_id) + RX_BUF_HEADROOM) as u32,
    }
}

/// Buffer `b` of RX queue `q` has descriptor `16 q + b`, lies at
/// `0xB001D330 + 1604 (16 q + b)` (the packet RAM base 0xB0005000, past the
/// 99120 bytes of TX buffers, in steps of 1604-byte RX buffers), and is
/// posted with the address of its own data, 4 bytes past its header.
pub proof fn lemma_rx_setup_addresses(q: int, b: int)
    requires
        0 <= q < 3,
        0 <= b < 16,
    ensures
        spec_rx_buf_setup(q, b).queue_id == q,
        spec_rx_buf_setup(q, b).desc_id == 16 * q + b,
        spec_rx_buf_setup(q, b).rpu_addr == 0xB001D330 + 1604 * (16 * q + b),
        spec_rx_buf_setup(q, b).buf_info == spec_rx_buf_setup(q, b).rpu_addr + 4,
{
    assert(0 <= 1604 * (16 * q + b) <= 1604 * 47) by (nonlinear_arith)
        requires
            0 <= q < 3,
            0 <= b < 16,
    ;
}

/// Distinct RX buffers get distinct descriptors, addresses and posted data
/// addresses, and their buffers do not overlap.
pub proof fn lemma_rx_setups_distinct(q1: int, b1: int, q2: int, b2: int)
    requires
        0 <= q1 < 3,
        0 <= b1 < 16,
        0 <= q2 < 3,
        0 <= b2 < 16,
        q1 != q2 || b1 != b2,
    ensures
        spec_rx_buf_setup(q1, b1).desc_id != spec_rx_buf_setup(q2, b2).desc_id,
        spec_rx_buf_setup(q1, b1).buf_info != spec_rx_buf_setup(q2, b2).buf_info,
        spec_rx_buf_setup(q1, b1).rpu_addr + 1604 <= spec_rx_buf_setup(q2, b2).rpu_addr
            || spec_rx_buf_setup(q2, b2).rpu_addr + 1604 <= spec_rx_buf_setup(q1, b1).rpu_addr,
{
    lemma_rx_setup_addresses(q1, b1);
    lemma_rx_setup_addresses(q2, b2);
    let d1 = 16 * q1 + b1;
    let d2 = 16 * q2 + b2;
    assert(d1 != d2);
    if d1 < d2 {
        assert(1604 * d1 + 1604 <= 1604 * d2) by (nonlinear_arith)
            requires
                d1 < d2,
        ;
    } else {
        assert(1604 * d2 + 1604 <= 1604 * d1) by (nonlinear_arith)
            requires
                d2 < d1,
        ;
    }
}

/// The RX buffers to hand to the RPU, queue by queue and in each queue in
/// order of buffers.
pub fn init_rx_plan() -> (plan: Vec<RxBufSetup>)
    ensures
        plan@.len() == RX_BUFS,
        forall|q: int, b: int|
            0 <= q < 3 && 0 <= b < RX_BUFS_PER_QUEUE ==> #[trigger] plan@[spec_desc_id(q, b)]
                == spec_rx_buf_setup(q, b),
        forall|d: int|
            0 <= d < RX_BUFS ==> #[trigger] plan@[d].desc_id == d && plan@[d].buf_info
                == plan@[d].rpu_addr + RX_BUF_HEADROOM && plan@[d].rpu_addr == 0xB001D330 + 1604
                * d && plan@[d].queue_id == d / 16,
{
    let mut plan: Vec<RxBufSetup> = Vec::new();
    let mut queue_id: usize = 0;
    while queue_id < 3
        invariant
            0 <= queue_id <= 3,
            plan@.len() == queue_id * RX_BUFS_PER_QUEUE,
            forall|q: int, b: int|
                0 <= q < queue_id && 0 <= b < RX_BUFS_PER_QUEUE ==> #[trigger] plan@[spec_desc_id(
                    q,
                    b,
                )] == spec_rx_buf_setup(q, b),
        decreases 3 - queue_id,
    {
        let mut buf_id: usize = 0;
        while buf_id < RX_BUFS_PER_QUEUE
            invariant
                0 <= queue_id < 3,
                0 <= buf_id <= RX_BUFS_PER_QUEUE,
                plan@.len() == queue_id * RX_BUFS_PER_QUEUE + buf_id,
                forall|q: int, b: int|
                    0 <= q < queue_id && 0 <= b < RX_BUFS_PER_QUEUE ==> #[trigger] plan@[spec_desc_id(
                        q,
                        b,
                    )] == spec_rx_buf_setup(q, b),
                forall|b: int|
                    0 <= b < buf_id ==> #[trigger] plan@[spec_desc_id(queue_id as int, b)]
                        == spec_rx_buf_setup(queue_id as int, b),
            decreases RX_BUFS_PER_QUEUE - buf_id,
        {
            let desc_id = queue_id * RX_BUFS_PER_QUEUE + buf_id;
            let rpu_addr = RPU_MEM_PKT_BASE + (TX_TOTAL_SIZE + RX_BUF_SIZE * desc_id) as u32;
            plan.push(
                RxBufSetup {
                    queue_id,
                    desc_id: desc_id as u32,
                    rpu_addr,
                    buf_info: rpu_addr + RX_BUF_HEADROOM as u32,
                },
            );
            buf_id += 1;
        }
        queue_id += 1;
    }
    assert forall|d: int| 0 <= d < RX_BUFS implies #[trigger] plan@[d].desc_id == d
        && plan@[d].buf_info == plan@[d].rpu_addr + RX_BUF_HEADROOM && plan@[d].rpu_addr
        == 0xB001D330 + 1604 * d && plan@[d].queue_id == d / 16 by {
        let q = d / 16;
        let b = d % 16;
        assert(d == spec_desc_id(q, b));
        lemma_rx_setup_addresses(q, b);
    }
    plan
}

/// RX buffers of distinct descriptors do not overlap, and every RX buffer
/// lies in the packet RAM after the TX buffers.
pub proof fn lemma_rx_buffers_disjoint(d1: int, d2: int)
    requires
        0 <= d1 < RX_BUFS,
        0 <= d2 < RX_BUFS,
        d1 != d2,
    ensures
        spec_rx_buf_addr(d1) + RX_BUF_SIZE <= spec_rx_buf_addr(d2) || spec_rx_buf_addr(d2)
            + RX_BUF_SIZE <= spec_rx_buf_addr(d1),
        RPU_MEM_PKT_BASE + TX_TOTAL_SIZE <= spec_rx_buf_addr(d1),
        spec_rx_buf_addr(d1) + RX_BUF_SIZE <= RPU_MEM_PKT_BASE + RPU_PKTRAM_SIZE,
{
    if d1 < d2 {
        assert(RX_BUF_SIZE * d1 + RX_BUF_SIZE <= RX_BUF_SIZE * d2) by (nonlinear_arith)
            requires
                d1 < d2,
        ;
    } else {
        assert(RX_BUF_SIZE * d2 + RX_BUF_SIZE <= RX_BUF_SIZE * d1) by (nonlinear_arith)
            requires
                d2 < d1,
        ;
    }
    assert(RX_BUF_SIZE * d1 + RX_BUF_SIZE <= RX_BUF_SIZE * RX_BUFS) by (nonlinear_arith)
        requires
            0 <= d1 < RX_BUFS,
    ;
}

/// The header of every RX buffer can be written: the memory map serves its
/// address, inside the packet RAM window.
pub proof fn lemma_rx_buffers_accessible(d: int)
    requires
        0 <= d < RX_BUFS,
    ensures
        rpu_access_ok(spec_rx_buf_addr(d) as u32, None, 1, false),
{
    reveal_with_fuel(first_serving, 12);
    assert(RX_BUF_SIZE * d <= RX_BUF_SIZE * 47) by (nonlinear_arith)
        requires
            0 <= d < RX_BUFS,
    ;
}

/// Where the RX command for descriptor `desc_id` goes: its slot in the RX
/// command area, and the indirect address of that slot in the LMAC's
/// memory.
pub open spec fn spec_rx_cmd_addrs(rx_cmd_base: u32, desc_id: u32) -> (u32, u32) {
    let addr = (rx_cmd_base + RPU_DATA_CMD_SIZE_MAX_RX * desc_id) as u32;
    (addr, (addr & RPU_ADDR_MASK_OFFSET) | RPU_MCU_CORE_INDIRECT_BASE)
}

/// RX command slots are 8 bytes apart from the RX command base, one per
/// descriptor, and each is reached through the indirect window at
/// 0xC0000000 by the low 24 bits of its address: distinct descriptors get
/// distinct slots.
pub proof fn lemma_rx_cmd_addrs(rx_cmd_base: u32, d1: u32, d2: u32)
    requires
        rx_cmd_base + 8 * d1 <= u32::MAX,
        rx_cmd_base + 8 * d2 <= u32::MAX,
    ensures
        spec_rx_cmd_addrs(rx_cmd_base, d1).0 == rx_cmd_base + 8 * d1,
        spec_rx_cmd_addrs(rx_cmd_base, d1).1 == (spec_rx_cmd_addrs(rx_cmd_base, d1).0 & 0x00FF_FFFF)
            | 0xC000_0000,
        d1 != d2 ==> spec_rx_cmd_addrs(rx_cmd_base, d1).0 != spec_rx_cmd_addrs(rx_cmd_base, d2).0,
{
}

/// The slot of the RX command for descriptor `desc_id` and its indirect
/// address, or `None` when the slot's address does not fit in 32 bits.
pub fn rpu_rx_cmd_addrs(rx_cmd_base: u32, desc_id: u32) -> (r: Option<(u32, u32)>)
    ensures
        r == if rx_cmd_base + RPU_DATA_CMD_SIZE_MAX_RX * desc_id <= u32::MAX {
            Some(spec_rx_cmd_addrs(rx_cmd_base, desc_id))
        } else {
            None::<(u32, u32)>
        },
{
    if desc_id > (u32::MAX - rx_cmd_base) / RPU_DATA_CMD_SIZE_MAX_RX {
        return None;
    }
    let addr = rx_cmd_base + RPU_DATA_CMD_SIZE_MAX_RX * desc_id;
    Some((addr, addr & RPU_ADDR_MASK_OFFSET | RPU_MCU_CORE_INDIRECT_BASE))
}

// ---------------------------------------------------------------------
// The init command.
pub const HW_DELAY: u32 = 7500;

pub const SW_DELAY: u32 = 5000;

pub const BCN_TIMEOUT: u32 = 40000;

pub const CALIB_SLEEP_CLOCK_ENABLE: u32 = 1;

/// PHY calibrations: RX DC, TX DC, TX IQ, RX IQ, DPD.
pub const DEF_PHY_CALIB: u32 = 0x3B;

pub const TEMP_CALIB_ENABLE: u32 = 1;

pub const DEF_PHY_TEMP_CALIB: u32 = 0x3B;

pub const DEF_PHY_VBAT_CALIB: u32 = 0x20;

pub const TEMP_CALIB_PERIOD: u32 = 1048576;

pub const VBAT_VERYLOW: i32 = 8;

pub const VBAT_LOW: i32 = 12;

pub const VBAT_HIGH: i32 = 14;

pub const TEMP_CALIB_THRESHOLD: i32 = 40;

/// The parameters of the init command that the driver sends: no sleep,
/// default bring-up times, beacon timeout and calibrations, no MAC
/// address or RF parameters, one pool of `RX_BUFS_PER_QUEUE` buffers of
/// `RX_MAX_DATA_SIZE` bytes per RX queue, aggregation and WMM on, and
/// temperature- and battery-based calibration with the default thresholds.
pub open spec fn is_driver_init(init: Init) -> bool {
    let p = init.sys_params;
    let d = init.data_config_params;
    let t = init.temp_vbat_config_params;
    &&& init.wdev_id == 0
    &&& p.sleep_enable == 0
    &&& p.hw_bringup_time == HW_DELAY
    &&& p.sw_bringup_time == SW_DELAY
    &&& p.bcn_time_out == BCN_TIMEOUT
    &&& p.calib_sleep_clk == CALIB_SLEEP_CLOCK_ENABLE
    &&& p.phy_calib == DEF_PHY_CALIB
    &&& p.mac_addr@ == Seq::new(6, |i: int| 0u8)
    &&& p.rf_params@ == Seq::new(200, |i: int| 0u8)
    &&& p.rf_params_valid == 0
    &&& forall|q: int|
        0 <= q < 3 ==> #[trigger] init.rx_buf_pools@[q] == RxBufPoolParams {
            buf_sz: RX_MAX_DATA_SIZE as u16,
            num_bufs: RX_BUFS_PER_QUEUE as u16,
        }
    &&& d == DataConfigParams {
        rate_protection_type: 0,
        aggregation: 1,
        wmm: 1,
        max_num_tx_agg_sessions: 4,
        max_num_rx_agg_sessions: 8,
        max_tx_aggregation: MAX_TX_AGGREGATION as u8,
        reorder_buf_size: 64,
        max_rxampdu_size: 3,
    }
    &&& t == TempVbatConfig {
        temp_based_calib_en: TEMP_CALIB_ENABLE,
        temp_calib_bitmap: DEF_PHY_TEMP_CALIB,
        vbat_calibp_bitmap: DEF_PHY_VBAT_CALIB,
        temp_vbat_mon_period: TEMP_CALIB_PERIOD,
        vth_very_low: VBAT_VERYLOW,
        vth_low: VBAT_LOW,
        vth_hi: VBAT_HIGH,
        temp_threshold: TEMP_CALIB_THRESHOLD,
        vbat_threshold: 0,
    }
}

/// The whole data of the init command that the driver sends: the
/// parameters of `is_driver_init`, no country code, no management buffer
/// or TCP/IP checksum offload, operating band 0, the system-mode
/// firmware feature, beamforming disabled, no disconnect timeout, and
/// PS-poll frames to retrieve buffered data in power save.
pub open spec fn is_driver_init_command(c: CmdSysInit) -> bool {
    &&& is_driver_init(c.init)
    &&& c.country_code@ == seq![0u8, 0u8]
    &&& c.mgmt_buff_offload == 0
    &&& c.op_band == 0
    &&& c.tcp_ip_checksum_offload == 0
    &&& c.feature_flags == FeatureFlags::SystemMode.spec_value()
    &&& c.disable_beamforming == 1
    &&& c.discon_timeout == 0
    &&& c.ps_data_retrieval_mech == DataRetrieveMechanism::PsPollFrame.spec_value()
}

/// The init command that brings up the UMAC: the init command number, the
/// length of the whole command (323 bytes) and the driver's parameters.
pub fn init_umac_command() -> (cmd: SysCommand<CmdSysInit>)
    ensures
        is_driver_init_command(cmd.payload()),
        cmd.head().cmd_event == 0,
        cmd.head().len == 323,
        cmd.spec_bytes().len() == 323,
{
    let pool = RxBufPoolParams { buf_sz: RX_MAX_DATA_SIZE as u16, num_bufs: RX_BUFS_PER_QUEUE as u16 };
    let init = Init {
        wdev_id: 0,
        sys_params: SysParams {
            sleep_enable: 0,
            hw_bringup_time: HW_DELAY,
            sw_bringup_time: SW_DELAY,
            bcn_time_out: BCN_TIMEOUT,
            calib_sleep_clk: CALIB_SLEEP_CLOCK_ENABLE,
            phy_calib: DEF_PHY_CALIB,
            mac_addr: [0u8; 6],
            rf_params: [0u8; 200],
            rf_params_valid: 0,
        },
        rx_buf_pools: [pool, pool, pool],
        data_config_params: DataConfigParams {
            rate_protection_type: 0,
            aggregation: 1,
            wmm: 1,
            max_num_tx_agg_sessions: 4,
            max_num_rx_agg_sessions: 8,
            max_tx_aggregation: MAX_TX_AGGREGATION as u8,
            reorder_buf_size: 64,
            max_rxampdu_size: 3,
        },
        temp_vbat_config_params: TempVbatConfig {
            temp_based_calib_en: TEMP_CALIB_ENABLE,
            temp_calib_bitmap: DEF_PHY_TEMP_CALIB,
            vbat_calibp_bitmap: DEF_PHY_VBAT_CALIB,
            temp_vbat_mon_period: TEMP_CALIB_PERIOD,
            vth_very_low: VBAT_VERYLOW,
            vth_low: VBAT_LOW,
            vth_hi: VBAT_HIGH,
            temp_threshold: TEMP_CALIB_THRESHOLD,
            vbat_threshold: 0,
        },
    };
    assert(init.sys_params.mac_addr@ =~= Seq::new(6, |i: int| 0u8));
    assert(init.sys_params.rf_params@ =~= Seq::new(200, |i: int| 0u8));
    let data = CmdSysInit {
        init,
        country_code: [0u8, 0u8],
        mgmt_buff_offload: 0,
        op_band: 0,
        tcp_ip_checksum_offload: 0,
        feature_flags: FeatureFlags::SystemMode.value(),
        disable_beamforming: 1,
        discon_timeout: 0,
        ps_data_retrieval_mech: DataRetrieveMechanism::PsPollFrame.value(),
    };
    assert(data.country_code@ =~= seq![0u8, 0u8]);
    let cmd = SysCommand::new(data);
    proof {
        cmd.payload().lemma_size();
    }
    cmd
}

} // verus!
