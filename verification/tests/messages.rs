use nrf70::config::{init_umac_command, MAX_TX_AGGREGATION, RX_BUFS_PER_QUEUE, RX_MAX_DATA_SIZE};
use nrf70::messages::commands::sys::{
    DataConfigParams, Init, RxBufPoolParams, SysCommand, SysCommandType, SysParams,
    TempVbatConfig,
};
use nrf70::messages::{frame_command, RpuMessageType};
use nrf70::Message;

fn sample_init() -> Init {
    Init {
        wdev_id: 0x0102_0304,
        sys_params: SysParams {
            sleep_enable: 1,
            hw_bringup_time: 2,
            sw_bringup_time: 3,
            bcn_time_out: 4,
            calib_sleep_clk: 5,
            phy_calib: 6,
            mac_addr: [0xA, 0xB, 0xC, 0xD, 0xE, 0xF],
            rf_params: [0x55; 200],
            rf_params_valid: 1,
        },
        rx_buf_pools: [RxBufPoolParams { buf_sz: 0x0640, num_bufs: 16 }; 3],
        data_config_params: DataConfigParams {
            rate_protection_type: 0,
            aggregation: 1,
            wmm: 1,
            max_num_tx_agg_sessions: 4,
            max_num_rx_agg_sessions: 8,
            max_tx_aggregation: 6,
            reorder_buf_size: 64,
            max_rxampdu_size: -2,
        },
        temp_vbat_config_params: TempVbatConfig {
            temp_based_calib_en: 1,
            temp_calib_bitmap: 2,
            vbat_calibp_bitmap: 3,
            temp_vbat_mon_period: 4,
            vth_very_low: -1,
            vth_low: 5,
            vth_hi: 6,
            temp_threshold: 7,
            vbat_threshold: 8,
        },
    }
}

#[test]
fn sys_command_header() {
    let cmd = SysCommand::new(sample_init());
    let bytes = cmd.to_bytes();
    assert_eq!(bytes.len(), 302);
    // cmd_event: init is command 0; len: whole command.
    assert_eq!(&bytes[0..8], &[0, 0, 0, 0, 46, 1, 0, 0]);
}

#[test]
fn sys_command_body_layout() {
    let bytes = SysCommand::new(sample_init()).to_bytes();
    assert_eq!(&bytes[8..12], &[4, 3, 2, 1]);
    assert_eq!(&bytes[12..16], &[1, 0, 0, 0]);
    assert_eq!(&bytes[32..36], &[6, 0, 0, 0]);
    assert_eq!(&bytes[36..42], &[0xA, 0xB, 0xC, 0xD, 0xE, 0xF]);
    assert!(bytes[42..242].iter().all(|&b| b == 0x55));
    assert_eq!(bytes[242], 1);
    assert_eq!(&bytes[243..247], &[0x40, 0x06, 16, 0]);
    assert_eq!(&bytes[255..262], &[0, 1, 1, 4, 8, 6, 64]);
    assert_eq!(&bytes[262..266], &[0xFE, 0xFF, 0xFF, 0xFF]);
    assert_eq!(&bytes[266..270], &[1, 0, 0, 0]);
    assert_eq!(&bytes[282..286], &[0xFF, 0xFF, 0xFF, 0xFF]);
    assert_eq!(&bytes[298..302], &[8, 0, 0, 0]);
}

#[test]
fn sys_command_numbers() {
    assert_eq!(SysCommandType::Init.value(), 0);
    assert_eq!(SysCommandType::Rx.value(), 6);
    assert_eq!(SysCommandType::RadioTestInit.value(), 13);
}

#[test]
fn driver_init_command() {
    let bytes = init_umac_command().to_bytes();
    assert_eq!(bytes.len(), 323);
    assert_eq!(&bytes[0..8], &[0, 0, 0, 0, 0x43, 1, 0, 0]);
    // country code, management buffer offload, operating band, TCP/IP
    // checksum offload
    assert_eq!(&bytes[302..313], &[0; 11]);
    // system-mode feature flag, beamforming disabled
    assert_eq!(&bytes[313..318], &[1, 0, 0, 0, 1]);
    // no disconnect timeout, PS-poll frames
    assert_eq!(&bytes[318..323], &[0; 5]);
    assert_eq!(&bytes[8..12], &[0, 0, 0, 0]);
    let pool = [(RX_MAX_DATA_SIZE & 0xff) as u8, (RX_MAX_DATA_SIZE >> 8) as u8, RX_BUFS_PER_QUEUE as u8, 0];
    assert_eq!(&bytes[243..247], &pool);
    assert_eq!(&bytes[251..255], &pool);
    assert_eq!(bytes[260], MAX_TX_AGGREGATION as u8);
}

#[test]
fn message_types() {
    assert_eq!(RpuMessageType::System.value(), 0);
    assert_eq!(RpuMessageType::Umac.value(), 3);
    assert_eq!(RpuMessageType::from_value(2), Some(RpuMessageType::Data));
    assert_eq!(RpuMessageType::from_value(4), None);
}

#[test]
fn framed_command_posts_command_sized_prefix() {
    let cmd = [1u8, 2, 3, 4, 5];
    let words = frame_command(RpuMessageType::System, &cmd);
    // (5 + 3) / 4 = 2 words: the message length (17) and the resubmit flag.
    assert_eq!(words, vec![17, 0]);
    let cmd: Vec<u8> = (0..20u8).collect();
    let words = frame_command(RpuMessageType::Umac, &cmd);
    assert_eq!(words.len(), 5);
    assert_eq!(words[0], 32);
    assert_eq!(words[1], 0);
    assert_eq!(words[2], 3);
    assert_eq!(words[3], 0x0302_0100);
    assert_eq!(words[4], 0x0706_0504);
}

#[test]
fn framed_empty_command() {
    assert_eq!(frame_command(RpuMessageType::System, &[]), Vec::<u32>::new());
}

#[test]
fn message_buffers() {
    let m = Message::new(RpuMessageType::Umac, &[0xAA, 0xBB], 6);
    assert_eq!(m.buffer_len(), 18);
    let big = Message::new(RpuMessageType::System, &[1; 30], 4);
    assert_eq!(big.buffer_len(), 42);
    assert_eq!(big.as_reply_slice().len(), 16);
    assert_eq!(m.ty(), Some(RpuMessageType::Umac));
    assert_eq!(m.as_cmd_slice(), &[14, 0, 0, 0, 0, 0, 0, 0, 3, 0, 0, 0, 0xAA, 0xBB][..]);
    assert_eq!(m.as_reply_slice().len(), 18);
    assert!(m.as_reply_slice()[14..].iter().all(|&b| b == 0));
}

#[test]
fn message_reply_replaces_command() {
    let mut m = Message::new(RpuMessageType::System, &[1, 2, 3, 4, 5, 6, 7, 8], 0);
    assert_eq!(m.as_reply_slice().len(), 12);
    m.write_reply(&[9, 0, 0, 0, 0, 0, 0, 0, 2, 0, 0, 0]);
    assert_eq!(m.ty(), Some(RpuMessageType::Data));
    assert_eq!(m.as_cmd_slice().len(), 20);
    assert_eq!(&m.as_cmd_slice()[12..], &[1, 2, 3, 4, 5, 6, 7, 8]);
}
