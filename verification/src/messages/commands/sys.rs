//! System commands.
use vstd::prelude::*;
use crate::bytes::{
    lemma_byte_in_piece, lemma_nested_piece, lemma_u16_field, lemma_u16_in_piece, lemma_u32_field,
    lemma_u32_in_piece, u16_at, u16_le_bytes, u32_at, u32_le_bytes, push_u16_le,
    push_u32_le, push_bytes,
};
use crate::messages::{Message, RpuMessageType};

verus! {

/// A system command: its header followed by the command's data.
pub struct SysCommand<V: SysCommandVariant> {
    sys_head: SysHead,
    data: V,
}

impl<V: SysCommandVariant> SysCommand<V> {
    /// The command's header.
    pub closed spec fn head(&self) -> SysHead {
        self.sys_head
    }

    /// The command's data.
    pub closed spec fn payload(&self) -> V {
        self.data
    }

    /// The command with the given data; its header names the command and
    /// gives the size of the whole command as sent.
    pub fn new(data: V) -> (cmd: Self)
        requires
            SYS_HEAD_SIZE + V::spec_size() <= usize::MAX,
        ensures
            cmd.head().cmd_event == V::spec_command_type().spec_value(),
            cmd.head().len == (SYS_HEAD_SIZE + V::spec_size()) as u32,
            cmd.payload() == data,
    {
        let len = SYS_HEAD_SIZE + V::size();
        SysCommand {
            sys_head: SysHead { cmd_event: V::command_type().value(), len: len as u32 },
            data,
        }
    }

    /// The command as sent puts the header's command number at byte 0 and
    /// its length at byte 4, little-endian, and the data right after the
    /// 8-byte header.
    pub proof fn lemma_layout(&self)
        ensures
            self.spec_bytes().len() == SYS_HEAD_SIZE + V::spec_size(),
            u32_at(self.spec_bytes(), 0) == self.head().cmd_event,
            u32_at(self.spec_bytes(), 4) == self.head().len,
            self.spec_bytes().subrange(
                SYS_HEAD_SIZE as int,
                SYS_HEAD_SIZE + V::spec_size(),
            ) == self.payload().spec_bytes(),
    {
        let b = self.spec_bytes();
        let h = self.head().spec_bytes();
        self.head().lemma_layout();
        self.payload().lemma_size();
        assert(b.subrange(0, 8) =~= h);
        lemma_u32_in_piece(b, 0, h, 0);
        lemma_u32_in_piece(b, 0, h, 4);
        assert(b.subrange(SYS_HEAD_SIZE as int, SYS_HEAD_SIZE + V::spec_size())
            =~= self.payload().spec_bytes());
    }

    /// The command as sent: its header, then its data.
    pub open spec fn spec_bytes(&self) -> Seq<u8> {
        self.head().spec_bytes() + self.payload().spec_bytes()
    }

    pub fn to_bytes(&self) -> (bytes: Vec<u8>)
        ensures
            bytes@ == self.spec_bytes(),
    {
        let mut out: Vec<u8> = Vec::new();
        self.sys_head.encode(&mut out);
        self.data.encode(&mut out);
        assert(out@ =~= self.spec_bytes());
        out
    }
}

/// The init command as sent, field by field at its offset: the header's
/// command number at 0 and length at 4, then the init parameters from
/// byte 8 in the packed layout (the bring-up times at 16 and 20, the MAC
/// address at 36, the RX pools at 243, the data configuration at 255, the
/// calibration thresholds at 266), then the country code at 302 and the
/// remaining fields up to the power-save retrieval mechanism at 322; 323
/// bytes in all.
pub proof fn lemma_init_command_layout(cmd: SysCommand<CmdSysInit>)
    ensures
        cmd.spec_bytes().len() == 323,
        u32_at(cmd.spec_bytes(), 0) == cmd.head().cmd_event,
        u32_at(cmd.spec_bytes(), 4) == cmd.head().len,
        u32_at(cmd.spec_bytes(), 8) == cmd.payload().init.wdev_id,
        u32_at(cmd.spec_bytes(), 12) == cmd.payload().init.sys_params.sleep_enable,
        u32_at(cmd.spec_bytes(), 16) == cmd.payload().init.sys_params.hw_bringup_time,
        u32_at(cmd.spec_bytes(), 20) == cmd.payload().init.sys_params.sw_bringup_time,
        u32_at(cmd.spec_bytes(), 24) == cmd.payload().init.sys_params.bcn_time_out,
        u32_at(cmd.spec_bytes(), 28) == cmd.payload().init.sys_params.calib_sleep_clk,
        u32_at(cmd.spec_bytes(), 32) == cmd.payload().init.sys_params.phy_calib,
        cmd.spec_bytes().subrange(36, 42) == cmd.payload().init.sys_params.mac_addr@,
        cmd.spec_bytes().subrange(42, 242) == cmd.payload().init.sys_params.rf_params@,
        cmd.spec_bytes()[242] == cmd.payload().init.sys_params.rf_params_valid,
        u16_at(cmd.spec_bytes(), 243) == cmd.payload().init.rx_buf_pools[0].buf_sz,
        u16_at(cmd.spec_bytes(), 245) == cmd.payload().init.rx_buf_pools[0].num_bufs,
        u16_at(cmd.spec_bytes(), 247) == cmd.payload().init.rx_buf_pools[1].buf_sz,
        u16_at(cmd.spec_bytes(), 249) == cmd.payload().init.rx_buf_pools[1].num_bufs,
        u16_at(cmd.spec_bytes(), 251) == cmd.payload().init.rx_buf_pools[2].buf_sz,
        u16_at(cmd.spec_bytes(), 253) == cmd.payload().init.rx_buf_pools[2].num_bufs,
        cmd.spec_bytes()[255] == cmd.payload().init.data_config_params.rate_protection_type,
        cmd.spec_bytes()[256] == cmd.payload().init.data_config_params.aggregation,
        cmd.spec_bytes()[257] == cmd.payload().init.data_config_params.wmm,
        cmd.spec_bytes()[258] == cmd.payload().init.data_config_params.max_num_tx_agg_sessions,
        cmd.spec_bytes()[259] == cmd.payload().init.data_config_params.max_num_rx_agg_sessions,
        cmd.spec_bytes()[260] == cmd.payload().init.data_config_params.max_tx_aggregation,
        cmd.spec_bytes()[261] == cmd.payload().init.data_config_params.reorder_buf_size,
        u32_at(cmd.spec_bytes(), 262) == cmd.payload().init.data_config_params.max_rxampdu_size as u32,
        u32_at(cmd.spec_bytes(), 266) == cmd.payload().init.temp_vbat_config_params.temp_based_calib_en,
        u32_at(cmd.spec_bytes(), 270) == cmd.payload().init.temp_vbat_config_params.temp_calib_bitmap,
        u32_at(cmd.spec_bytes(), 274) == cmd.payload().init.temp_vbat_config_params.vbat_calibp_bitmap,
        u32_at(cmd.spec_bytes(), 278) == cmd.payload().init.temp_vbat_config_params.temp_vbat_mon_period,
        u32_at(cmd.spec_bytes(), 282) == cmd.payload().init.temp_vbat_config_params.vth_very_low as u32,
        u32_at(cmd.spec_bytes(), 286) == cmd.payload().init.temp_vbat_config_params.vth_low as u32,
        u32_at(cmd.spec_bytes(), 290) == cmd.payload().init.temp_vbat_config_params.vth_hi as u32,
        u32_at(cmd.spec_bytes(), 294) == cmd.payload().init.temp_vbat_config_params.temp_threshold as u32,
        u32_at(cmd.spec_bytes(), 298) == cmd.payload().init.temp_vbat_config_params.vbat_threshold as u32,
        cmd.spec_bytes().subrange(302, 304) == cmd.payload().country_code@,
        u32_at(cmd.spec_bytes(), 304) == cmd.payload().mgmt_buff_offload,
        u32_at(cmd.spec_bytes(), 308) == cmd.payload().op_band,
        cmd.spec_bytes()[312] == cmd.payload().tcp_ip_checksum_offload,
        u32_at(cmd.spec_bytes(), 313) == cmd.payload().feature_flags,
        cmd.spec_bytes()[317] == cmd.payload().disable_beamforming,
        u32_at(cmd.spec_bytes(), 318) == cmd.payload().discon_timeout,
        cmd.spec_bytes()[322] == cmd.payload().ps_data_retrieval_mech,
{
    let b = cmd.spec_bytes();
    cmd.lemma_layout();
    let m0 = cmd.payload().spec_bytes();
    cmd.payload().lemma_layout();
    let m1 = cmd.payload().init.spec_bytes();
    lemma_nested_piece(b, 8, m0, 0, m1);
    cmd.payload().init.lemma_layout();
    lemma_u32_in_piece(b, 8, m1, 0);
    let m2 = cmd.payload().init.sys_params.spec_bytes();
    lemma_nested_piece(b, 8, m1, 4, m2);
    cmd.payload().init.sys_params.lemma_layout();
    lemma_u32_in_piece(b, 12, m2, 0);
    lemma_u32_in_piece(b, 12, m2, 4);
    lemma_u32_in_piece(b, 12, m2, 8);
    lemma_u32_in_piece(b, 12, m2, 12);
    lemma_u32_in_piece(b, 12, m2, 16);
    lemma_u32_in_piece(b, 12, m2, 20);
    lemma_nested_piece(b, 12, m2, 24, cmd.payload().init.sys_params.mac_addr@);
    lemma_nested_piece(b, 12, m2, 30, cmd.payload().init.sys_params.rf_params@);
    lemma_byte_in_piece(b, 12, m2, 230);
    let m3 = cmd.payload().init.rx_buf_pools[0].spec_bytes();
    lemma_nested_piece(b, 8, m1, 235, m3);
    cmd.payload().init.rx_buf_pools[0].lemma_layout();
    lemma_u16_in_piece(b, 243, m3, 0);
    lemma_u16_in_piece(b, 243, m3, 2);
    let m4 = cmd.payload().init.rx_buf_pools[1].spec_bytes();
    lemma_nested_piece(b, 8, m1, 239, m4);
    cmd.payload().init.rx_buf_pools[1].lemma_layout();
    lemma_u16_in_piece(b, 247, m4, 0);
    lemma_u16_in_piece(b, 247, m4, 2);
    let m5 = cmd.payload().init.rx_buf_pools[2].spec_bytes();
    lemma_nested_piece(b, 8, m1, 243, m5);
    cmd.payload().init.rx_buf_pools[2].lemma_layout();
    lemma_u16_in_piece(b, 251, m5, 0);
    lemma_u16_in_piece(b, 251, m5, 2);
    let m6 = cmd.payload().init.data_config_params.spec_bytes();
    lemma_nested_piece(b, 8, m1, 247, m6);
    cmd.payload().init.data_config_params.lemma_layout();
    lemma_byte_in_piece(b, 255, m6, 0);
    lemma_byte_in_piece(b, 255, m6, 1);
    lemma_byte_in_piece(b, 255, m6, 2);
    lemma_byte_in_piece(b, 255, m6, 3);
    lemma_byte_in_piece(b, 255, m6, 4);
    lemma_byte_in_piece(b, 255, m6, 5);
    lemma_byte_in_piece(b, 255, m6, 6);
    lemma_u32_in_piece(b, 255, m6, 7);
    let m7 = cmd.payload().init.temp_vbat_config_params.spec_bytes();
    lemma_nested_piece(b, 8, m1, 258, m7);
    cmd.payload().init.temp_vbat_config_params.lemma_layout();
    lemma_u32_in_piece(b, 266, m7, 0);
    lemma_u32_in_piece(b, 266, m7, 4);
    lemma_u32_in_piece(b, 266, m7, 8);
    lemma_u32_in_piece(b, 266, m7, 12);
    lemma_u32_in_piece(b, 266, m7, 16);
    lemma_u32_in_piece(b, 266, m7, 20);
    lemma_u32_in_piece(b, 266, m7, 24);
    lemma_u32_in_piece(b, 266, m7, 28);
    lemma_u32_in_piece(b, 266, m7, 32);
    lemma_nested_piece(b, 8, m0, 294, cmd.payload().country_code@);
    lemma_u32_in_piece(b, 8, m0, 296);
    lemma_u32_in_piece(b, 8, m0, 300);
    lemma_byte_in_piece(b, 8, m0, 304);
    lemma_u32_in_piece(b, 8, m0, 305);
    lemma_byte_in_piece(b, 8, m0, 309);
    lemma_u32_in_piece(b, 8, m0, 310);
    lemma_byte_in_piece(b, 8, m0, 314);
}

/// The data of a system command.
pub trait SysCommandVariant: Sized {
    /// The command that carries this data.
    spec fn spec_command_type() -> SysCommandType;

    fn command_type() -> (t: SysCommandType)
        ensures
            t == Self::spec_command_type(),
    ;

    /// Number of bytes of the data as sent.
    spec fn spec_size() -> nat;

    fn size() -> (n: usize)
        ensures
            n == Self::spec_size(),
    ;

    /// The data as sent: its fields in order, little-endian, without
    /// padding.
    spec fn spec_bytes(&self) -> Seq<u8>;

    fn encode(&self, out: &mut Vec<u8>)
        ensures
            final(out)@ == old(out)@ + self.spec_bytes(),
    ;

    proof fn lemma_size(&self)
        ensures
            self.spec_bytes().len() == Self::spec_size(),
    ;
}

/// Size in bytes of a system command header.
pub const SYS_HEAD_SIZE: usize = 8;

/// The length in the header of a command is the number of bytes sent.
pub proof fn lemma_sys_command_len<V: SysCommandVariant>(cmd: SysCommand<V>)
    requires
        SYS_HEAD_SIZE + V::spec_size() <= u32::MAX,
        cmd.head().len == (SYS_HEAD_SIZE + V::spec_size()) as u32,
    ensures
        cmd.spec_bytes().len() == cmd.head().len,
{
    cmd.payload().lemma_size();
}

impl<V: SysCommandVariant> Message for SysCommand<V> {
    const MESSAGE_TYPE: RpuMessageType = RpuMessageType::System;
}

/// The system commands (`sys_commands`).
#[derive(Clone, Copy, Debug, PartialEq, Eq, Structural)]
pub enum SysCommandType {
    Init,
    Tx,
    IfType,
    Mode,
    GetStats,
    ClearStats,
    Rx,
    Power,
    DeInit,
    BTCoex,
    RfTest,
    HeGiLtfConfig,
    UmacIntStats,
    RadioTestInit,
}

impl SysCommandType {
    /// The number that stands for this command on the wire.
    pub open spec fn spec_value(self) -> u32 {
        match self {
            SysCommandType::Init => 0,
            SysCommandType::Tx => 1,
            SysCommandType::IfType => 2,
            SysCommandType::Mode => 3,
            SysCommandType::GetStats => 4,
            SysCommandType::ClearStats => 5,
            SysCommandType::Rx => 6,
            SysCommandType::Power => 7,
            SysCommandType::DeInit => 8,
            SysCommandType::BTCoex => 9,
            SysCommandType::RfTest => 10,
            SysCommandType::HeGiLtfConfig => 11,
            SysCommandType::UmacIntStats => 12,
            SysCommandType::RadioTestInit => 13,
        }
    }

    pub fn value(self) -> (v: u32)
        ensures
            v == self.spec_value(),
    {
        match self {
            SysCommandType::Init => 0,
            SysCommandType::Tx => 1,
            SysCommandType::IfType => 2,
            SysCommandType::Mode => 3,
            SysCommandType::GetStats => 4,
            SysCommandType::ClearStats => 5,
            SysCommandType::Rx => 6,
            SysCommandType::Power => 7,
            SysCommandType::DeInit => 8,
            SysCommandType::BTCoex => 9,
            SysCommandType::RfTest => 10,
            SysCommandType::HeGiLtfConfig => 11,
            SysCommandType::UmacIntStats => 12,
            SysCommandType::RadioTestInit => 13,
        }
    }
}

/// Initialize UMAC.
///
/// After host driver bringup host sends the init command to the RPU, then
/// the RPU initializes and responds with the buffer-configuration event.
#[derive(Debug, Copy, Clone)]
pub struct Init {
    pub wdev_id: u32,
    pub sys_params: SysParams,
    pub rx_buf_pools: [RxBufPoolParams; 3],
    pub data_config_params: DataConfigParams,
    pub temp_vbat_config_params: TempVbatConfig,
}

impl Init {
    /// The bytes sent put each field at its offset of the packed layout,
    /// little-endian: `wdev_id` at 0, `sys_params` at 4, `rx_buf_pools[0]` at 235, `rx_buf_pools[1]` at 239, `rx_buf_pools[2]` at 243, `data_config_params` at 247, `temp_vbat_config_params` at 258; 294 bytes in all.
    pub proof fn lemma_layout(&self)
        ensures
            self.spec_bytes().len() == 294,
            u32_at(self.spec_bytes(), 0) == self.wdev_id,
            self.spec_bytes().subrange(4, 235) == self.sys_params.spec_bytes(),
            self.spec_bytes().subrange(235, 239) == self.rx_buf_pools[0].spec_bytes(),
            self.spec_bytes().subrange(239, 243) == self.rx_buf_pools[1].spec_bytes(),
            self.spec_bytes().subrange(243, 247) == self.rx_buf_pools[2].spec_bytes(),
            self.spec_bytes().subrange(247, 258) == self.data_config_params.spec_bytes(),
            self.spec_bytes().subrange(258, 294) == self.temp_vbat_config_params.spec_bytes(),
    {
        let b = self.spec_bytes();
        self.lemma_size();
        assert(b.subrange(0, 4) =~= u32_le_bytes(self.wdev_id));
        lemma_u32_field(b, 0, self.wdev_id);
        assert(b.subrange(4, 235) =~= self.sys_params.spec_bytes());
        assert(b.subrange(235, 239) =~= self.rx_buf_pools[0].spec_bytes());
        assert(b.subrange(239, 243) =~= self.rx_buf_pools[1].spec_bytes());
        assert(b.subrange(243, 247) =~= self.rx_buf_pools[2].spec_bytes());
        assert(b.subrange(247, 258) =~= self.data_config_params.spec_bytes());
        assert(b.subrange(258, 294) =~= self.temp_vbat_config_params.spec_bytes());
    }
}

impl SysCommandVariant for Init {
    open spec fn spec_command_type() -> SysCommandType {
        SysCommandType::Init
    }

    fn command_type() -> (t: SysCommandType) {
        SysCommandType::Init
    }

    open spec fn spec_size() -> nat {
        294
    }

    fn size() -> (n: usize) {
        294
    }

    open spec fn spec_bytes(&self) -> Seq<u8> {
        u32_le_bytes(self.wdev_id) + self.sys_params.spec_bytes()
            + self.rx_buf_pools[0].spec_bytes() + self.rx_buf_pools[1].spec_bytes()
            + self.rx_buf_pools[2].spec_bytes() + self.data_config_params.spec_bytes()
            + self.temp_vbat_config_params.spec_bytes()
    }

    fn encode(&self, out: &mut Vec<u8>) {
        push_u32_le(out, self.wdev_id);
        self.sys_params.encode(out);
        self.rx_buf_pools[0].encode(out);
        self.rx_buf_pools[1].encode(out);
        self.rx_buf_pools[2].encode(out);
        self.data_config_params.encode(out);
        self.temp_vbat_config_params.encode(out);
        assert(out@ =~= old(out)@ + self.spec_bytes());
    }

    proof fn lemma_size(&self) {
    }
}

/// How the RPU retrieves buffered data in power-save mode.
#[derive(Clone, Copy, Debug, PartialEq, Eq, Structural)]
pub enum DataRetrieveMechanism {
    PsPollFrame,
    QosNullFrame,
    Automatic,
}

impl DataRetrieveMechanism {
    /// The number that stands for the mechanism on the wire.
    pub open spec fn spec_value(self) -> u8 {
        match self {
            DataRetrieveMechanism::PsPollFrame => 0,
            DataRetrieveMechanism::QosNullFrame => 1,
            DataRetrieveMechanism::Automatic => 2,
        }
    }

    pub fn value(self) -> (v: u8)
        ensures
            v == self.spec_value(),
    {
        match self {
            DataRetrieveMechanism::PsPollFrame => 0,
            DataRetrieveMechanism::QosNullFrame => 1,
            DataRetrieveMechanism::Automatic => 2,
        }
    }
}

/// The data of the init command as the RPU firmware takes it: the UMAC
/// initialization parameters, then the country code, management buffer
/// offload, operating band, TCP/IP checksum offload, feature flags,
/// beamforming switch, disconnect timeout and power-save data retrieval
/// mechanism.
#[derive(Debug, Copy, Clone)]
pub struct CmdSysInit {
    pub init: Init,
    pub country_code: [u8; 2],
    pub mgmt_buff_offload: u32,
    pub op_band: u32,
    pub tcp_ip_checksum_offload: u8,
    pub feature_flags: u32,
    pub disable_beamforming: u8,
    pub discon_timeout: u32,
    pub ps_data_retrieval_mech: u8,
}

impl CmdSysInit {
    /// The bytes sent put each field at its offset of the packed layout,
    /// little-endian: `init` at 0, `country_code` at 294, `mgmt_buff_offload` at 296, `op_band` at 300, `tcp_ip_checksum_offload` at 304, `feature_flags` at 305, `disable_beamforming` at 309, `discon_timeout` at 310, `ps_data_retrieval_mech` at 314; 315 bytes in all.
    pub proof fn lemma_layout(&self)
        ensures
            self.spec_bytes().len() == 315,
            self.spec_bytes().subrange(0, 294) == self.init.spec_bytes(),
            self.spec_bytes().subrange(294, 296) == self.country_code@,
            u32_at(self.spec_bytes(), 296) == self.mgmt_buff_offload,
            u32_at(self.spec_bytes(), 300) == self.op_band,
            self.spec_bytes()[304] == self.tcp_ip_checksum_offload,
            u32_at(self.spec_bytes(), 305) == self.feature_flags,
            self.spec_bytes()[309] == self.disable_beamforming,
            u32_at(self.spec_bytes(), 310) == self.discon_timeout,
            self.spec_bytes()[314] == self.ps_data_retrieval_mech,
    {
        let b = self.spec_bytes();
        self.lemma_size();
        assert(b.subrange(0, 294) =~= self.init.spec_bytes());
        assert(b.subrange(294, 296) =~= self.country_code@);
        assert(b.subrange(296, 300) =~= u32_le_bytes(self.mgmt_buff_offload));
        lemma_u32_field(b, 296, self.mgmt_buff_offload);
        assert(b.subrange(300, 304) =~= u32_le_bytes(self.op_band));
        lemma_u32_field(b, 300, self.op_band);
        assert(b.subrange(305, 309) =~= u32_le_bytes(self.feature_flags));
        lemma_u32_field(b, 305, self.feature_flags);
        assert(b.subrange(310, 314) =~= u32_le_bytes(self.discon_timeout));
        lemma_u32_field(b, 310, self.discon_timeout);
    }
}

impl SysCommandVariant for CmdSysInit {
    open spec fn spec_command_type() -> SysCommandType {
        SysCommandType::Init
    }

    fn command_type() -> (t: SysCommandType) {
        SysCommandType::Init
    }

    open spec fn spec_size() -> nat {
        315
    }

    fn size() -> (n: usize) {
        315
    }

    open spec fn spec_bytes(&self) -> Seq<u8> {
        self.init.spec_bytes() + self.country_code@ + u32_le_bytes(self.mgmt_buff_offload)
            + u32_le_bytes(self.op_band) + seq![self.tcp_ip_checksum_offload] + u32_le_bytes(
            self.feature_flags,
        ) + seq![self.disable_beamforming] + u32_le_bytes(self.discon_timeout) + seq![
            self.ps_data_retrieval_mech,
        ]
    }

    fn encode(&self, out: &mut Vec<u8>) {
        self.init.encode(out);
        push_bytes(out, self.country_code.as_slice());
        push_u32_le(out, self.mgmt_buff_offload);
        push_u32_le(out, self.op_band);
        out.push(self.tcp_ip_checksum_offload);
        push_u32_le(out, self.feature_flags);
        out.push(self.disable_beamforming);
        push_u32_le(out, self.discon_timeout);
        out.push(self.ps_data_retrieval_mech);
        assert(out@ =~= old(out)@ + self.spec_bytes());
    }

    proof fn lemma_size(&self) {
        self.init.lemma_size();
    }
}

/// Command/Event header: the command or event id and the payload length.
#[derive(Debug, Copy, Clone)]
pub struct SysHead {
    pub cmd_event: u32,
    pub len: u32,
}

impl SysHead {
    /// The bytes sent put each field at its offset of the packed layout,
    /// little-endian: `cmd_event` at 0, `len` at 4; 8 bytes in all.
    pub proof fn lemma_layout(&self)
        ensures
            self.spec_bytes().len() == 8,
            u32_at(self.spec_bytes(), 0) == self.cmd_event,
            u32_at(self.spec_bytes(), 4) == self.len,
    {
        let b = self.spec_bytes();
        assert(b.subrange(0, 4) =~= u32_le_bytes(self.cmd_event));
        lemma_u32_field(b, 0, self.cmd_event);
        assert(b.subrange(4, 8) =~= u32_le_bytes(self.len));
        lemma_u32_field(b, 4, self.len);
    }

    pub open spec fn spec_bytes(&self) -> Seq<u8> {
        u32_le_bytes(self.cmd_event) + u32_le_bytes(self.len)
    }

    pub fn encode(&self, out: &mut Vec<u8>)
        ensures
            final(out)@ == old(out)@ + self.spec_bytes(),
    {
        push_u32_le(out, self.cmd_event);
        push_u32_le(out, self.len);
        assert(out@ =~= old(out)@ + self.spec_bytes());
    }
}

/// Init parameters of the init command.
#[derive(Debug, Copy, Clone)]
pub struct SysParams {
    pub sleep_enable: u32,
    pub hw_bringup_time: u32,
    pub sw_bringup_time: u32,
    pub bcn_time_out: u32,
    pub calib_sleep_clk: u32,
    pub phy_calib: u32,
    pub mac_addr: [u8; 6],
    pub rf_params: [u8; 200],
    pub rf_params_valid: u8,
}

impl SysParams {
    /// The bytes sent put each field at its offset of the packed layout,
    /// little-endian: `sleep_enable` at 0, `hw_bringup_time` at 4, `sw_bringup_time` at 8, `bcn_time_out` at 12, `calib_sleep_clk` at 16, `phy_calib` at 20, `mac_addr` at 24, `rf_params` at 30, `rf_params_valid` at 230; 231 bytes in all.
    pub proof fn lemma_layout(&self)
        ensures
            self.spec_bytes().len() == 231,
            u32_at(self.spec_bytes(), 0) == self.sleep_enable,
            u32_at(self.spec_bytes(), 4) == self.hw_bringup_time,
            u32_at(self.spec_bytes(), 8) == self.sw_bringup_time,
            u32_at(self.spec_bytes(), 12) == self.bcn_time_out,
            u32_at(self.spec_bytes(), 16) == self.calib_sleep_clk,
            u32_at(self.spec_bytes(), 20) == self.phy_calib,
            self.spec_bytes().subrange(24, 30) == self.mac_addr@,
            self.spec_bytes().subrange(30, 230) == self.rf_params@,
            self.spec_bytes()[230] == self.rf_params_valid,
    {
        let b = self.spec_bytes();
        assert(b.subrange(0, 4) =~= u32_le_bytes(self.sleep_enable));
        lemma_u32_field(b, 0, self.sleep_enable);
        assert(b.subrange(4, 8) =~= u32_le_bytes(self.hw_bringup_time));
        lemma_u32_field(b, 4, self.hw_bringup_time);
        assert(b.subrange(8, 12) =~= u32_le_bytes(self.sw_bringup_time));
        lemma_u32_field(b, 8, self.sw_bringup_time);
        assert(b.subrange(12, 16) =~= u32_le_bytes(self.bcn_time_out));
        lemma_u32_field(b, 12, self.bcn_time_out);
        assert(b.subrange(16, 20) =~= u32_le_bytes(self.calib_sleep_clk));
        lemma_u32_field(b, 16, self.calib_sleep_clk);
        assert(b.subrange(20, 24) =~= u32_le_bytes(self.phy_calib));
        lemma_u32_field(b, 20, self.phy_calib);
        assert(b.subrange(24, 30) =~= self.mac_addr@);
        assert(b.subrange(30, 230) =~= self.rf_params@);
    }

    pub open spec fn spec_bytes(&self) -> Seq<u8> {
        u32_le_bytes(self.sleep_enable) + u32_le_bytes(self.hw_bringup_time) + u32_le_bytes(
            self.sw_bringup_time,
        ) + u32_le_bytes(self.bcn_time_out) + u32_le_bytes(self.calib_sleep_clk) + u32_le_bytes(
            self.phy_calib,
        ) + self.mac_addr@ + self.rf_params@ + seq![self.rf_params_valid]
    }

    pub fn encode(&self, out: &mut Vec<u8>)
        ensures
            final(out)@ == old(out)@ + self.spec_bytes(),
    {
        push_u32_le(out, self.sleep_enable);
        push_u32_le(out, self.hw_bringup_time);
        push_u32_le(out, self.sw_bringup_time);
        push_u32_le(out, self.bcn_time_out);
        push_u32_le(out, self.calib_sleep_clk);
        push_u32_le(out, self.phy_calib);
        push_bytes(out, self.mac_addr.as_slice());
        push_bytes(out, self.rf_params.as_slice());
        out.push(self.rf_params_valid);
        assert(out@ =~= old(out)@ + self.spec_bytes());
    }
}

/// Temperature and battery-voltage calibration parameters.
#[derive(Debug, Copy, Clone)]
pub struct TempVbatConfig {
    pub temp_based_calib_en: u32,
    pub temp_calib_bitmap: u32,
    pub vbat_calibp_bitmap: u32,
    pub temp_vbat_mon_period: u32,
    pub vth_very_low: i32,
    pub vth_low: i32,
    pub vth_hi: i32,
    pub temp_threshold: i32,
    pub vbat_threshold: i32,
}

impl TempVbatConfig {
    /// The bytes sent put each field at its offset of the packed layout,
    /// little-endian: `temp_based_calib_en` at 0, `temp_calib_bitmap` at 4, `vbat_calibp_bitmap` at 8, `temp_vbat_mon_period` at 12, `vth_very_low` at 16, `vth_low` at 20, `vth_hi` at 24, `temp_threshold` at 28, `vbat_threshold` at 32; 36 bytes in all.
    pub proof fn lemma_layout(&self)
        ensures
            self.spec_bytes().len() == 36,
            u32_at(self.spec_bytes(), 0) == self.temp_based_calib_en,
            u32_at(self.spec_bytes(), 4) == self.temp_calib_bitmap,
            u32_at(self.spec_bytes(), 8) == self.vbat_calibp_bitmap,
            u32_at(self.spec_bytes(), 12) == self.temp_vbat_mon_period,
            u32_at(self.spec_bytes(), 16) == self.vth_very_low as u32,
            u32_at(self.spec_bytes(), 20) == self.vth_low as u32,
            u32_at(self.spec_bytes(), 24) == self.vth_hi as u32,
            u32_at(self.spec_bytes(), 28) == self.temp_threshold as u32,
            u32_at(self.spec_bytes(), 32) == self.vbat_threshold as u32,
    {
        let b = self.spec_bytes();
        assert(b.subrange(0, 4) =~= u32_le_bytes(self.temp_based_calib_en));
        lemma_u32_field(b, 0, self.temp_based_calib_en);
        assert(b.subrange(4, 8) =~= u32_le_bytes(self.temp_calib_bitmap));
        lemma_u32_field(b, 4, self.temp_calib_bitmap);
        assert(b.subrange(8, 12) =~= u32_le_bytes(self.vbat_calibp_bitmap));
        lemma_u32_field(b, 8, self.vbat_calibp_bitmap);
        assert(b.subrange(12, 16) =~= u32_le_bytes(self.temp_vbat_mon_period));
        lemma_u32_field(b, 12, self.temp_vbat_mon_period);
        assert(b.subrange(16, 20) =~= u32_le_bytes(self.vth_very_low as u32));
        lemma_u32_field(b, 16, self.vth_very_low as u32);
        assert(b.subrange(20, 24) =~= u32_le_bytes(self.vth_low as u32));
        lemma_u32_field(b, 20, self.vth_low as u32);
        assert(b.subrange(24, 28) =~= u32_le_bytes(self.vth_hi as u32));
        lemma_u32_field(b, 24, self.vth_hi as u32);
        assert(b.subrange(28, 32) =~= u32_le_bytes(self.temp_threshold as u32));
        lemma_u32_field(b, 28, self.temp_threshold as u32);
        assert(b.subrange(32, 36) =~= u32_le_bytes(self.vbat_threshold as u32));
        lemma_u32_field(b, 32, self.vbat_threshold as u32);
    }

    pub open spec fn spec_bytes(&self) -> Seq<u8> {
        u32_le_bytes(self.temp_based_calib_en) + u32_le_bytes(self.temp_calib_bitmap)
            + u32_le_bytes(self.vbat_calibp_bitmap) + u32_le_bytes(self.temp_vbat_mon_period)
            + u32_le_bytes(self.vth_very_low as u32) + u32_le_bytes(self.vth_low as u32)
            + u32_le_bytes(self.vth_hi as u32) + u32_le_bytes(self.temp_threshold as u32)
            + u32_le_bytes(self.vbat_threshold as u32)
    }

    pub fn encode(&self, out: &mut Vec<u8>)
        ensures
            final(out)@ == old(out)@ + self.spec_bytes(),
    {
        push_u32_le(out, self.temp_based_calib_en);
        push_u32_le(out, self.temp_calib_bitmap);
        push_u32_le(out, self.vbat_calibp_bitmap);
        push_u32_le(out, self.temp_vbat_mon_period);
        push_u32_le(out, self.vth_very_low as u32);
        push_u32_le(out, self.vth_low as u32);
        push_u32_le(out, self.vth_hi as u32);
        push_u32_le(out, self.temp_threshold as u32);
        push_u32_le(out, self.vbat_threshold as u32);
        assert(out@ =~= old(out)@ + self.spec_bytes());
    }
}

/// Size and number of the buffers of one RX pool.
#[derive(Debug, Copy, Clone)]
pub struct RxBufPoolParams {
    pub buf_sz: u16,
    pub num_bufs: u16,
}

impl RxBufPoolParams {
    /// The bytes sent put each field at its offset of the packed layout,
    /// little-endian: `buf_sz` at 0, `num_bufs` at 2; 4 bytes in all.
    pub proof fn lemma_layout(&self)
        ensures
            self.spec_bytes().len() == 4,
            u16_at(self.spec_bytes(), 0) == self.buf_sz,
            u16_at(self.spec_bytes(), 2) == self.num_bufs,
    {
        let b = self.spec_bytes();
        assert(b.subrange(0, 2) =~= u16_le_bytes(self.buf_sz));
        lemma_u16_field(b, 0, self.buf_sz);
        assert(b.subrange(2, 4) =~= u16_le_bytes(self.num_bufs));
        lemma_u16_field(b, 2, self.num_bufs);
    }

    pub open spec fn spec_bytes(&self) -> Seq<u8> {
        u16_le_bytes(self.buf_sz) + u16_le_bytes(self.num_bufs)
    }

    pub fn encode(&self, out: &mut Vec<u8>)
        ensures
            final(out)@ == old(out)@ + self.spec_bytes(),
    {
        push_u16_le(out, self.buf_sz);
        push_u16_le(out, self.num_bufs);
        assert(out@ =~= old(out)@ + self.spec_bytes());
    }
}

/// Data configuration parameters of the init command.
///
/// `rate_protection_type`: 0 is none, 1 is RTS/CTS, 2 is CTS2SELF;
/// `reorder_buf_size` ranges from 1 to 64.
#[derive(Debug, Copy, Clone, Default)]
pub struct DataConfigParams {
    pub rate_protection_type: u8,
    pub aggregation: u8,
    pub wmm: u8,
    pub max_num_tx_agg_sessions: u8,
    pub max_num_rx_agg_sessions: u8,
    pub max_tx_aggregation: u8,
    pub reorder_buf_size: u8,
    pub max_rxampdu_size: i32,
}

impl DataConfigParams {
    /// The bytes sent put each field at its offset of the packed layout,
    /// little-endian: `rate_protection_type` at 0, `aggregation` at 1, `wmm` at 2, `max_num_tx_agg_sessions` at 3, `max_num_rx_agg_sessions` at 4, `max_tx_aggregation` at 5, `reorder_buf_size` at 6, `max_rxampdu_size` at 7; 11 bytes in all.
    pub proof fn lemma_layout(&self)
        ensures
            self.spec_bytes().len() == 11,
            self.spec_bytes()[0] == self.rate_protection_type,
            self.spec_bytes()[1] == self.aggregation,
            self.spec_bytes()[2] == self.wmm,
            self.spec_bytes()[3] == self.max_num_tx_agg_sessions,
            self.spec_bytes()[4] == self.max_num_rx_agg_sessions,
            self.spec_bytes()[5] == self.max_tx_aggregation,
            self.spec_bytes()[6] == self.reorder_buf_size,
            u32_at(self.spec_bytes(), 7) == self.max_rxampdu_size as u32,
    {
        let b = self.spec_bytes();
        assert(b.subrange(7, 11) =~= u32_le_bytes(self.max_rxampdu_size as u32));
        lemma_u32_field(b, 7, self.max_rxampdu_size as u32);
    }

    pub open spec fn spec_bytes(&self) -> Seq<u8> {
        seq![
            self.rate_protection_type,
            self.aggregation,
            self.wmm,
            self.max_num_tx_agg_sessions,
            self.max_num_rx_agg_sessions,
            self.max_tx_aggregation,
            self.reorder_buf_size,
        ] + u32_le_bytes(self.max_rxampdu_size as u32)
    }

    pub fn encode(&self, out: &mut Vec<u8>)
        ensures
            final(out)@ == old(out)@ + self.spec_bytes(),
    {
        out.push(self.rate_protection_type);
        out.push(self.aggregation);
        out.push(self.wmm);
        out.push(self.max_num_tx_agg_sessions);
        out.push(self.max_num_rx_agg_sessions);
        out.push(self.max_tx_aggregation);
        out.push(self.reorder_buf_size);
        push_u32_le(out, self.max_rxampdu_size as u32);
        assert(out@ =~= old(out)@ + self.spec_bytes());
    }
}

} // verus!
