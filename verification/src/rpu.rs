//! The host side of the RPU interface: register and memory addresses,
//! host-port queues, events and commands, and the decisions that the
//! driver's runner takes between bus accesses.
use vstd::prelude::*;
use crate::access::{rpu_access_ok, words_fit};
use crate::regions::{first_serving, spec_region, Processor, PBUS, SYSBUS};

verus! {

// ---------------------------------------------------------------------
// Registers and memory of the RPU.
pub const RPU_REG_INT_FROM_RPU_CTRL: u32 = 0xA4000400;

pub const RPU_REG_BIT_INT_FROM_RPU_CTRL: u32 = 17;

pub const RPU_REG_INT_TO_MCU_CTRL: u32 = 0xA4000480;

pub const RPU_REG_INT_FROM_MCU_ACK: u32 = 0xA4000488;

pub const RPU_REG_BIT_INT_FROM_MCU_ACK: u32 = 31;

pub const RPU_REG_INT_FROM_MCU_CTRL: u32 = 0xA4000494;

pub const RPU_REG_BIT_INT_FROM_MCU_CTRL: u32 = 31;

pub const RPU_REG_UCC_SLEEP_CTRL_DATA_0: u32 = 0xA4002C2C;

pub const RPU_REG_UCC_SLEEP_CTRL_DATA_1: u32 = 0xA4002C30;

pub const RPU_REG_MIPS_MCU_CONTROL: u32 = 0xA4000000;

pub const RPU_REG_MIPS_MCU2_CONTROL: u32 = 0xA4000100;

pub const RPU_REG_MIPS_MCU_UCCP_INT_STATUS: u32 = 0xA4000004;

pub const RPU_REG_BIT_MIPS_WATCHDOG_INT_STATUS: u32 = 1;

pub const RPU_REG_MIPS_MCU_UCCP_INT_CLEAR: u32 = 0xA400000C;

pub const RPU_REG_BIT_MIPS_WATCHDOG_INT_CLEAR: u32 = 1;

pub const RPU_REG_MIPS_MCU_SYS_CORE_MEM_CTRL: u32 = 0xA4000030;

pub const RPU_REG_MIPS_MCU_SYS_CORE_MEM_WDATA: u32 = 0xA4000034;

pub const RPU_REG_MIPS_MCU2_SYS_CORE_MEM_CTRL: u32 = 0xA4000130;

pub const RPU_REG_MIPS_MCU2_SYS_CORE_MEM_WDATA: u32 = 0xA4000134;

pub const RPU_REG_MIPS_MCU_BOOT_EXCP_INSTR_0: u32 = 0xA4000050;

pub const RPU_REG_MIPS_MCU_BOOT_EXCP_INSTR_1: u32 = 0xA4000054;

pub const RPU_REG_MIPS_MCU_BOOT_EXCP_INSTR_2: u32 = 0xA4000058;

pub const RPU_REG_MIPS_MCU_BOOT_EXCP_INSTR_3: u32 = 0xA400005C;

pub const RPU_REG_MIPS_MCU2_BOOT_EXCP_INSTR_0: u32 = 0xA4000150;

pub const RPU_REG_MIPS_MCU2_BOOT_EXCP_INSTR_1: u32 = 0xA4000154;

pub const RPU_REG_MIPS_MCU2_BOOT_EXCP_INSTR_2: u32 = 0xA4000158;

pub const RPU_REG_MIPS_MCU2_BOOT_EXCP_INSTR_3: u32 = 0xA400015C;

pub const RPU_MEM_LMAC_BOOT_SIG: u32 = 0xB7000D50;

pub const RPU_MEM_LMAC_VER: u32 = 0xB7000D54;

pub const RPU_MEM_UMAC_BOOT_SIG: u32 = 0xB0000000;

pub const RPU_MEM_UMAC_VER: u32 = 0xB0000004;

pub const RPU_MEM_HPQ_INFO: u32 = 0xB0000024;

pub const RPU_MEM_TX_CMD_BASE: u32 = 0xB00000B8;

pub const RPU_MEM_RX_CMD_BASE: u32 = 0xB7000D58;

pub const RPU_MEM_PKT_BASE: u32 = 0xB0005000;

pub const RPU_MEM_UMAC_PATCH_BIN: u32 = 0x8008C000;

pub const RPU_MEM_LMAC_PATCH_BIN: u32 = 0x80044000;

/// Offset in LMAC retained RAM where the LMAC boot image is loaded.
pub const LMAC_ROM_PATCH_OFFSET: u32 = 0xB000;

/// Offset in UMAC retained RAM where the UMAC boot image is loaded.
pub const UMAC_ROM_PATCH_OFFSET: u32 = 0x14800;

pub const LMAC_BOOT_EXCP_VECT_0: u32 = 0x3c1a8000;

pub const LMAC_BOOT_EXCP_VECT_1: u32 = 0x275a0000;

pub const LMAC_BOOT_EXCP_VECT_2: u32 = 0x03400008;

pub const LMAC_BOOT_EXCP_VECT_3: u32 = 0x00000000;

pub const UMAC_BOOT_EXCP_VECT_0: u32 = 0x3c1a8000;

pub const UMAC_BOOT_EXCP_VECT_1: u32 = 0x275a0000;

pub const UMAC_BOOT_EXCP_VECT_2: u32 = 0x03400008;

pub const UMAC_BOOT_EXCP_VECT_3: u32 = 0x00000000;

/// Bits of an RPU address that give the offset inside its bus.
pub const RPU_ADDR_MASK_OFFSET: u32 = 0x00FFFFFF;

/// Base of the indirect window onto a core's memory.
pub const RPU_MCU_CORE_INDIRECT_BASE: u32 = 0xC0000000;

/// First value of the command counter.
pub const RPU_CMD_START_MAGIC: u32 = 0xDEAD;

/// Size of the slot of one RX command.
pub const RPU_DATA_CMD_SIZE_MAX_RX: u32 = 8;

/// Size of an event that is read in one go.
pub const RPU_EVENT_COMMON_SIZE_MAX: u32 = 128;

/// Largest event that can be read.
pub const MAX_EVENT_POOL_LEN: usize = 1000;

/// Largest command that is sent in one piece.
pub const MAX_UMAC_CMD_SIZE: u32 = 400;

pub const MAX_NUM_OF_RX_QUEUES: u32 = 3;

/// Value that the cores write to their boot signature once booted.
pub const BOOT_DONE_SIGNATURE: u32 = 0x5A5A5A5A;

/// Address that the event queue sometimes hands out in low power mode
/// and that holds no event.
pub const INVALID_EVENT_ADDRESS: u32 = 0xAAAAAAAA;

// ---------------------------------------------------------------------
// Host-port queues.

/// This structure encapsulates the information which represents a HPQ.
#[derive(Clone, Copy, Debug, PartialEq, Eq, Structural)]
pub struct HostRpuHPQ {
    /// HPQ address where the host can post the address of a
    /// message intended for the RPU.
    pub enqueue_addr: u32,
    /// HPQ address where the host can get the address of a
    /// message intended for the host.
    pub dequeue_addr: u32,
}

/// Hostport queue information passed by the RPU to the host, which the host can
/// use, to communicate with the RPU.
#[derive(Clone, Copy, Debug)]
pub struct HostRpuHPQMInfo {
    /// Queue which the RPU uses to inform the host about events.
    pub event_busy_queue: HostRpuHPQ,
    /// Queue on which the consumed events are pushed so that RPU can reuse them.
    pub event_avl_queue: HostRpuHPQ,
    /// Queue used by the host to push commands to the RPU.
    pub cmd_busy_queue: HostRpuHPQ,
    /// Queue which RPU uses to inform host about command buffers which can be used to push commands to the RPU.
    pub cmd_avl_queue: HostRpuHPQ,
    pub rx_buf_busy_queue: [HostRpuHPQ; 3],
}

/// Number of words of the queue information in RPU memory.
pub const HPQM_INFO_WORDS: usize = 14;

/// The queue whose two words start at word `i`.
pub open spec fn hpq_at(words: Seq<u32>, i: int) -> HostRpuHPQ {
    HostRpuHPQ { enqueue_addr: words[i], dequeue_addr: words[i + 1] }
}

impl HostRpuHPQMInfo {
    /// The queue information as laid out in RPU memory: the event busy,
    /// event available, command busy and command available queues, then
    /// the RX buffer busy queue of each RX pool, each queue its enqueue
    /// and its dequeue address.
    pub open spec fn spec_from_words(words: Seq<u32>) -> HostRpuHPQMInfo {
        HostRpuHPQMInfo {
            event_busy_queue: hpq_at(words, 0),
            event_avl_queue: hpq_at(words, 2),
            cmd_busy_queue: hpq_at(words, 4),
            cmd_avl_queue: hpq_at(words, 6),
            rx_buf_busy_queue: [hpq_at(words, 8), hpq_at(words, 10), hpq_at(words, 12)],
        }
    }

    pub fn from_words(words: &[u32]) -> (info: HostRpuHPQMInfo)
        requires
            words@.len() == HPQM_INFO_WORDS,
        ensures
            info == Self::spec_from_words(words@),
            info.event_busy_queue.enqueue_addr == words@[0],
            info.event_busy_queue.dequeue_addr == words@[1],
            info.event_avl_queue.enqueue_addr == words@[2],
            info.event_avl_queue.dequeue_addr == words@[3],
            info.cmd_busy_queue.enqueue_addr == words@[4],
            info.cmd_busy_queue.dequeue_addr == words@[5],
            info.cmd_avl_queue.enqueue_addr == words@[6],
            info.cmd_avl_queue.dequeue_addr == words@[7],
            forall|q: int|
                0 <= q < 3 ==> (#[trigger] info.rx_buf_busy_queue@[q]).enqueue_addr == words@[8 + 2
                    * q] && info.rx_buf_busy_queue@[q].dequeue_addr == words@[9 + 2 * q],
    {
        proof {
            lemma_hpqm_info_layout(words@);
        }
        HostRpuHPQMInfo {
            event_busy_queue: HostRpuHPQ { enqueue_addr: words[0], dequeue_addr: words[1] },
            event_avl_queue: HostRpuHPQ { enqueue_addr: words[2], dequeue_addr: words[3] },
            cmd_busy_queue: HostRpuHPQ { enqueue_addr: words[4], dequeue_addr: words[5] },
            cmd_avl_queue: HostRpuHPQ { enqueue_addr: words[6], dequeue_addr: words[7] },
            rx_buf_busy_queue: [
                HostRpuHPQ { enqueue_addr: words[8], dequeue_addr: words[9] },
                HostRpuHPQ { enqueue_addr: words[10], dequeue_addr: words[11] },
                HostRpuHPQ { enqueue_addr: words[12], dequeue_addr: words[13] },
            ],
        }
    }
}

/// The queue information is the RPU's words in layout order: queue `i`
/// (event busy, event available, command busy, command available, then
/// the RX buffer busy queue of pool 0, 1 and 2) is made of words `2 i`
/// (its enqueue address) and `2 i + 1` (its dequeue address); so each RX
/// pool has a queue of its own, distinct from the others whenever the words
/// are.
pub proof fn lemma_hpqm_info_layout(words: Seq<u32>)
    requires
        words.len() == HPQM_INFO_WORDS,
    ensures
        ({
            let info = HostRpuHPQMInfo::spec_from_words(words);
            &&& info.event_busy_queue.enqueue_addr == words[0]
            &&& info.event_busy_queue.dequeue_addr == words[1]
            &&& info.event_avl_queue.enqueue_addr == words[2]
            &&& info.event_avl_queue.dequeue_addr == words[3]
            &&& info.cmd_busy_queue.enqueue_addr == words[4]
            &&& info.cmd_busy_queue.dequeue_addr == words[5]
            &&& info.cmd_avl_queue.enqueue_addr == words[6]
            &&& info.cmd_avl_queue.dequeue_addr == words[7]
            &&& forall|q: int|
                0 <= q < 3 ==> (#[trigger] info.rx_buf_busy_queue@[q]).enqueue_addr == words[8 + 2
                    * q] && info.rx_buf_busy_queue@[q].dequeue_addr == words[9 + 2 * q]
            &&& forall|q1: int, q2: int|
                0 <= q1 < 3 && 0 <= q2 < 3 && q1 != q2 && words[8 + 2 * q1] != words[8 + 2 * q2]
                    ==> #[trigger] info.rx_buf_busy_queue@[q1] != #[trigger] info.rx_buf_busy_queue@[q2]
        }),
{
    let info = HostRpuHPQMInfo::spec_from_words(words);
    assert forall|q: int| 0 <= q < 3 implies (#[trigger] info.rx_buf_busy_queue@[q]).enqueue_addr
        == words[8 + 2 * q] && info.rx_buf_busy_queue@[q].dequeue_addr == words[9 + 2 * q] by {
        if q == 0 {
        } else if q == 1 {
        } else {
        }
    }
}

/// What the host learns from the RPU once both cores are up.
#[derive(Clone, Copy, Debug)]
pub struct RpuInfo {
    pub hpqm_info: HostRpuHPQMInfo,
    /// The base address for posting RX commands.
    pub rx_cmd_base: u32,
    /// The base address for posting TX commands.
    pub tx_cmd_base: u32,
}

impl RpuInfo {
    /// The RPU information made of the queue words read at
    /// `RPU_MEM_HPQ_INFO` and the RX command base read at
    /// `RPU_MEM_RX_CMD_BASE`.
    pub fn new(hpqm_words: &[u32], rx_cmd_base: u32) -> (info: RpuInfo)
        requires
            hpqm_words@.len() == HPQM_INFO_WORDS,
        ensures
            info.hpqm_info == HostRpuHPQMInfo::spec_from_words(hpqm_words@),
            info.rx_cmd_base == rx_cmd_base,
            info.tx_cmd_base == RPU_MEM_TX_CMD_BASE,
    {
        RpuInfo {
            hpqm_info: HostRpuHPQMInfo::from_words(hpqm_words),
            rx_cmd_base,
            tx_cmd_base: RPU_MEM_TX_CMD_BASE,
        }
    }
}

/// What a dequeue from a host-port queue gives, once the word at its
/// dequeue address is read: zero means the queue is empty; any other word
/// is the element, which the host pops by writing it back.
pub fn rpu_hpq_dequeue_result(value: u32) -> (r: Option<u32>)
    ensures
        r == if value != 0 {
            Some(value)
        } else {
            None::<u32>
        },
{
    if value != 0 {
        Some(value)
    } else {
        None
    }
}

// ---------------------------------------------------------------------
// Interrupts.

/// The control word with interrupts from the RPU enabled.
pub open spec fn irq_enabled_word(val: u32) -> u32 {
    val | (1u32 << RPU_REG_BIT_INT_FROM_RPU_CTRL)
}

/// The control word with interrupts from the RPU disabled.
pub open spec fn irq_disabled_word(val: u32) -> u32 {
    val & !(1u32 << RPU_REG_BIT_INT_FROM_RPU_CTRL)
}

/// The control word that enables interrupts from the RPU, given its
/// current value.
pub fn rpu_irq_enable_value(val: u32) -> (r: u32)
    ensures
        r == irq_enabled_word(val),
{
    val | (1u32 << RPU_REG_BIT_INT_FROM_RPU_CTRL)
}

/// The control word that disables interrupts from the RPU, given its
/// current value.
pub fn rpu_irq_disable_value(val: u32) -> (r: u32)
    ensures
        r == irq_disabled_word(val),
{
    val & !(1u32 << RPU_REG_BIT_INT_FROM_RPU_CTRL)
}

/// The word that enables the MCU interrupt line.
pub const MCU_IRQ_ENABLE: u32 = 1u32 << RPU_REG_BIT_INT_FROM_MCU_CTRL;

/// The word that disables the MCU interrupt line.
pub const MCU_IRQ_DISABLE: u32 = !(1u32 << RPU_REG_BIT_INT_FROM_MCU_CTRL);

/// The word that acknowledges an interrupt.
pub const MCU_IRQ_ACK: u32 = 1u32 << RPU_REG_BIT_INT_FROM_MCU_ACK;

/// The word that acknowledges a watchdog interrupt.
pub const WATCHDOG_IRQ_ACK: u32 = 1u32 << RPU_REG_BIT_MIPS_WATCHDOG_INT_CLEAR;

/// Checks if the watchdog was the source of the interrupt, given the
/// interrupt status word.
pub fn rpu_irq_watchdog_check(status: u32) -> (fired: bool)
    ensures
        fired == (status & (1u32 << RPU_REG_BIT_MIPS_WATCHDOG_INT_STATUS) > 0),
{
    (status & (1u32 << RPU_REG_BIT_MIPS_WATCHDOG_INT_STATUS)) > 0
}

/// Enabling the interrupt after disabling it, or the other way round,
/// is the same as doing only the last step, and either step changes no bit
/// but the interrupt bit.
/// After an interrupt, the watchdog is checked only when no event was
/// read: an interrupt that brought no event may come from the watchdog.
pub fn should_check_watchdog(event_count: usize) -> (b: bool)
    ensures
        b == (event_count == 0),
{
    event_count == 0
}

pub proof fn lemma_irq_enable_disable(val: u32)
    ensures
        irq_disabled_word(irq_enabled_word(val)) == irq_disabled_word(val),
        irq_enabled_word(irq_disabled_word(val)) == irq_enabled_word(val),
        irq_enabled_word(val) & !(1u32 << 17u32) == val & !(1u32 << 17u32),
        irq_disabled_word(val) | (1u32 << 17u32) == val | (1u32 << 17u32),
        irq_disabled_word(val) & (1u32 << 17u32) == 0,
        irq_enabled_word(val) & (1u32 << 17u32) != 0,
{
    assert((val | (1u32 << 17u32)) & !(1u32 << 17u32) == val & !(1u32 << 17u32)) by (bit_vector);
    assert((val & !(1u32 << 17u32)) | (1u32 << 17u32) == val | (1u32 << 17u32)) by (bit_vector);
    assert((val & !(1u32 << 17u32)) & (1u32 << 17u32) == 0) by (bit_vector);
    assert((val | (1u32 << 17u32)) & (1u32 << 17u32) != 0) by (bit_vector);
}

// ---------------------------------------------------------------------
// Versions.

/// Splits a version word into its version, major, minor and extra fields.
///
/// The minor field is taken from bits 8 to 15 but shifted right by 16, so
/// it is always zero.
pub fn unpack_version(version: u32) -> (r: (u32, u32, u32, u32))
    ensures
        r.0 == version >> 24u32,
        r.1 == (version >> 16u32) & 0xFF,
        r.2 == 0,
        r.3 == version & 0xFF,
{
    let v = (version & 0xFF00_0000) >> 24u32;
    let major = (version & 0x00FF_0000) >> 16u32;
    let minor = (version & 0x0000_FF00) >> 16u32;
    let extra = version & 0x0000_00FF;
    proof {
        assert((version & 0xFF00_0000) >> 24u32 == version >> 24u32) by (bit_vector);
        assert((version & 0x00FF_0000) >> 16u32 == (version >> 16u32) & 0xFF) by (bit_vector);
        assert((version & 0x0000_FF00) >> 16u32 == 0) by (bit_vector);
    }
    (v, major, minor, extra)
}

// ---------------------------------------------------------------------
// Writing to a core's memory.

/// The registers through which a core's memory is written: the address
/// register and the data register.
pub open spec fn spec_core_mem_regs(processor: Processor) -> (u32, u32) {
    match processor {
        Processor::LMAC => (RPU_REG_MIPS_MCU_SYS_CORE_MEM_CTRL, RPU_REG_MIPS_MCU_SYS_CORE_MEM_WDATA),
        Processor::UMAC => (
            RPU_REG_MIPS_MCU2_SYS_CORE_MEM_CTRL,
            RPU_REG_MIPS_MCU2_SYS_CORE_MEM_WDATA,
        ),
    }
}

/// Each core's memory is written through its own pair of registers: the
/// LMAC's address register is 0xA4000030 and the UMAC's 0xA4000130, the
/// data register of each core comes right after its address register, and
/// the word address is the byte offset divided by four.
pub proof fn lemma_core_mem_regs_by_value(core_address: u32)
    ensures
        spec_core_mem_regs(Processor::LMAC) == (0xA4000030u32, 0xA4000034u32),
        spec_core_mem_regs(Processor::UMAC) == (0xA4000130u32, 0xA4000134u32),
        forall|p: Processor|
            (#[trigger] spec_core_mem_regs(p)).1 == spec_core_mem_regs(p).0 + 4,
        spec_core_mem_regs(Processor::LMAC).0 != spec_core_mem_regs(Processor::UMAC).0,
        (core_address & RPU_ADDR_MASK_OFFSET) / 4 * 4 + core_address % 4 == core_address % 0x0100_0000,
{
    assert((core_address & 0x00FF_FFFFu32) / 4 * 4 + core_address % 4 == core_address % 0x0100_0000)
        by (bit_vector);
}

/// How to write words to a core's memory at a byte address: the address
/// register, the data register, and the word address to write to the
/// address register before the words go, one by one, to the data register.
pub fn rpu_write_core_plan(core_address: u32, processor: Processor) -> (r: (u32, u32, u32))
    ensures
        r == (
            spec_core_mem_regs(processor).0,
            spec_core_mem_regs(processor).1,
            (core_address & RPU_ADDR_MASK_OFFSET) / 4,
        ),
{
    // We receive the address as a byte address, while we need to write it as a word address
    let addr = (core_address & RPU_ADDR_MASK_OFFSET) / 4;
    match processor {
        Processor::LMAC => (RPU_REG_MIPS_MCU_SYS_CORE_MEM_CTRL, RPU_REG_MIPS_MCU_SYS_CORE_MEM_WDATA, addr),
        Processor::UMAC => (
            RPU_REG_MIPS_MCU2_SYS_CORE_MEM_CTRL,
            RPU_REG_MIPS_MCU2_SYS_CORE_MEM_WDATA,
            addr,
        ),
    }
}

// ---------------------------------------------------------------------
// Events.

/// Whether a word taken from the event queue is the address of an event:
/// an empty queue, and the bogus address that low power mode sometimes
/// produces, end the reading of events.
pub fn usable_event_address(dequeued: Option<u32>) -> (r: Option<u32>)
    ensures
        r == match dequeued {
            Some(a) => if a != INVALID_EVENT_ADDRESS {
                Some(a)
            } else {
                None::<u32>
            },
            None => None::<u32>,
        },
{
    match dequeued {
        None => None,
        Some(a) => if a == INVALID_EVENT_ADDRESS {
            None
        } else {
            Some(a)
        },
    }
}

/// What remains to do to read an event once its first
/// `RPU_EVENT_COMMON_SIZE_MAX` bytes are read.
#[derive(Clone, Copy, Debug, PartialEq, Eq, Structural)]
pub enum EventRest {
    /// The event was read whole.
    Complete,
    /// The event is longer: read it again, this many words.
    ReadWords(usize),
    /// The event is longer than the event buffer; reading it in fragments
    /// is not implemented.
    Fragmented,
}

/// How to finish reading an event.
#[derive(Clone, Copy, Debug)]
pub struct EventReadPlan {
    /// Hand the event back to the RPU for reuse (the header asks for it).
    pub free: bool,
    pub rest: EventRest,
}

/// The plan for an event whose header (length, resubmit flag) is `len`
/// and `resubmit`.
pub open spec fn spec_event_read_plan(len: u32, resubmit: u32) -> EventReadPlan {
    EventReadPlan {
        free: resubmit > 0,
        rest: if len > MAX_EVENT_POOL_LEN {
            EventRest::Fragmented
        } else if len > RPU_EVENT_COMMON_SIZE_MAX {
            EventRest::ReadWords(((len + 3) / 4) as usize)
        } else {
            EventRest::Complete
        },
    }
}

/// Decides, from the first words of an event (its header: length and
/// resubmit flag), whether to free it and how to finish reading it.
pub fn rpu_event_read_plan(first_words: &[u32]) -> (plan: EventReadPlan)
    requires
        first_words@.len() >= 2,
    ensures
        plan == spec_event_read_plan(first_words@[0], first_words@[1]),
{
    let len = first_words[0];
    let resubmit = first_words[1];
    let rest = if len as usize > MAX_EVENT_POOL_LEN {
        EventRest::Fragmented
    } else if len > RPU_EVENT_COMMON_SIZE_MAX {
        EventRest::ReadWords(((len + 3) / 4) as usize)
    } else {
        EventRest::Complete
    };
    EventReadPlan { free: resubmit > 0, rest }
}

/// How an event is finished, by its header: it is handed back for reuse
/// exactly when its resubmit flag is set; an event of at most 128 bytes is
/// complete after the first read; one of 129 to 1000 bytes is read again
/// whole, as the fewest words that hold it; a longer one would need
/// fragments.
pub proof fn lemma_event_read_plan_cases(len: u32, resubmit: u32)
    ensures
        spec_event_read_plan(len, resubmit).free <==> resubmit != 0,
        spec_event_read_plan(len, resubmit).rest == EventRest::Complete <==> len <= 128,
        spec_event_read_plan(len, resubmit).rest == EventRest::Fragmented <==> len > 1000,
        128 < len <= 1000 ==> (spec_event_read_plan(len, resubmit).rest matches EventRest::ReadWords(
            n,
        ) && 4 * n >= len && 4 * n < len + 4),
{
}

/// A second read never needs more words than the event buffer has.
pub proof fn lemma_event_reread_fits(len: u32, resubmit: u32)
    ensures
        spec_event_read_plan(len, resubmit).rest matches EventRest::ReadWords(n) ==> n <= MAX_EVENT_POOL_LEN / 4
            && n * 4 >= len,
{
}

/// Number of the event that reports that the RPU is initialized.
pub const EVENT_INIT_DONE: u32 = 1;

/// What an event is.
#[derive(Clone, Copy, Debug, PartialEq, Eq, Structural)]
pub enum RpuEvent {
    /// The RPU finished initializing.
    InitDone,
    /// A system event of another number.
    UnknownSysEvent(u32),
    /// An event of a type that is not handled; the raw type word.
    UnknownType(u32),
}

/// The event in a buffer: the message header (length, resubmit flag,
/// type), then for system events the system header (event number, length).
pub open spec fn spec_classify_event(words: Seq<u32>) -> RpuEvent {
    if crate::messages::RpuMessageType::spec_from_value(words[2]) == Some(
        crate::messages::RpuMessageType::System,
    ) {
        if words[3] == EVENT_INIT_DONE {
            RpuEvent::InitDone
        } else {
            RpuEvent::UnknownSysEvent(words[3])
        }
    } else {
        RpuEvent::UnknownType(words[2])
    }
}

/// How an event is recognized: a message whose type word (word 2) is 0,
/// a system message, with event number 1 in word 3 is the init-done event;
/// another system event is reported with its number; a message of any
/// other type is reported with its type word.
pub proof fn lemma_classify_event_cases(words: Seq<u32>)
    ensures
        words[2] == 0 && words[3] == 1 ==> spec_classify_event(words) == RpuEvent::InitDone,
        words[2] == 0 && words[3] != 1 ==> spec_classify_event(words) == RpuEvent::UnknownSysEvent(
            words[3],
        ),
        words[2] != 0 ==> spec_classify_event(words) == RpuEvent::UnknownType(words[2]),
{
}

/// Tells what the event in the buffer is.
pub fn classify_event(words: &[u32]) -> (e: RpuEvent)
    requires
        words@.len() >= 6,
    ensures
        e == spec_classify_event(words@),
{
    let ty = words[2];
    match crate::messages::RpuMessageType::from_value(ty) {
        Some(crate::messages::RpuMessageType::System) => {
            let ev = words[3];
            if ev == EVENT_INIT_DONE {
                RpuEvent::InitDone
            } else {
                RpuEvent::UnknownSysEvent(ev)
            }
        },
        _ => RpuEvent::UnknownType(ty),
    }
}

// ---------------------------------------------------------------------
// Commands.

/// The word that tells the RPU that command `num_commands` is posted.
pub open spec fn spec_trigger_word(num_commands: u32) -> u32 {
    num_commands | 0x7fff0000u32
}

/// The command counter after one command: it counts up and wraps around.
pub open spec fn spec_next_counter(num_commands: u32) -> u32 {
    if num_commands == u32::MAX {
        0
    } else {
        (num_commands + 1) as u32
    }
}

/// The command counter after `k` commands, starting at `start`.
pub open spec fn spec_counter_after(start: u32, k: nat) -> u32
    decreases k,
{
    if k == 0 {
        start
    } else {
        spec_next_counter(spec_counter_after(start, (k - 1) as nat))
    }
}

/// Over `k` commands from counter value `start`, command `j` is announced
/// with the word `(start + j) mod 2^32 | 0x7fff0000`, and the counter ends
/// at `(start + k) mod 2^32`.
pub proof fn lemma_trigger_sequence(start: u32, k: nat)
    ensures
        spec_counter_after(start, k) == ((start + k) % 0x1_0000_0000) as u32,
        forall|j: nat|
            j < k ==> spec_trigger_word(#[trigger] spec_counter_after(start, j)) == (((start + j)
                % 0x1_0000_0000) as u32 | 0x7fff0000u32),
    decreases k,
{
    if k > 0 {
        lemma_trigger_sequence(start, (k - 1) as nat);
        let prev = spec_counter_after(start, (k - 1) as nat);
        assert(prev == ((start + k - 1) % 0x1_0000_0000) as u32);
        if prev == u32::MAX {
            assert((start + k) % 0x1_0000_0000 == 0) by (nonlinear_arith)
                requires
                    (start + k - 1) % 0x1_0000_0000 == 0xFFFF_FFFF,
                    start + k >= 1,
            ;
        } else {
            assert((start + k) % 0x1_0000_0000 == (start + k - 1) % 0x1_0000_0000 + 1)
                by (nonlinear_arith)
                requires
                    (start + k - 1) % 0x1_0000_0000 < 0xFFFF_FFFF,
                    start + k >= 1,
            ;
        }
        assert forall|j: nat| j < k implies spec_trigger_word(#[trigger] spec_counter_after(
            start,
            j,
        )) == (((start + j) % 0x1_0000_0000) as u32 | 0x7fff0000u32) by {
            if j < k - 1 {
            } else {
                assert(j == k - 1);
            }
        }
    }
}

/// Indicates to the RPU that a command has been posted: the word to write
/// to `RPU_REG_INT_TO_MCU_CTRL` and the next value of the command counter,
/// which wraps around.
pub fn rpu_msg_trigger(num_commands: u32) -> (r: (u32, u32))
    ensures
        r.0 == spec_trigger_word(num_commands),
        r.1 == spec_next_counter(num_commands),
{
    let word = num_commands | 0x7fff0000u32;
    let next = if num_commands == u32::MAX {
        0
    } else {
        num_commands + 1
    };
    (word, next)
}

/// Whether a command of `len` bytes can be sent in one piece; longer
/// commands would have to be fragmented.
pub fn command_fits(len: usize) -> (ok: bool)
    ensures
        ok == (len <= MAX_UMAC_CMD_SIZE),
{
    len <= MAX_UMAC_CMD_SIZE as usize
}

/// The fixed registers and memory that the driver reads and writes are
/// all served by the memory map, inside their windows: the bounds checks
/// of these bus accesses never fail.
pub proof fn lemma_driver_accesses_ok()
    ensures
        rpu_access_ok(RPU_MEM_LMAC_VER, Some(Processor::LMAC), 1, true),
        rpu_access_ok(RPU_MEM_UMAC_VER, Some(Processor::UMAC), 1, true),
        rpu_access_ok(RPU_MEM_HPQ_INFO, None, HPQM_INFO_WORDS, true),
        rpu_access_ok(RPU_MEM_RX_CMD_BASE, None, 1, true),
        rpu_access_ok(RPU_REG_INT_FROM_RPU_CTRL, None, 1, true),
        rpu_access_ok(RPU_REG_INT_FROM_MCU_CTRL, None, 1, false),
        rpu_access_ok(RPU_REG_INT_FROM_MCU_ACK, None, 1, false),
        rpu_access_ok(RPU_REG_MIPS_MCU_UCCP_INT_STATUS, None, 1, true),
        rpu_access_ok(RPU_REG_MIPS_MCU_UCCP_INT_CLEAR, None, 1, false),
        rpu_access_ok(RPU_REG_INT_TO_MCU_CTRL, Some(Processor::UMAC), 1, false),
        forall|p: Processor|
            rpu_access_ok(#[trigger] spec_core_mem_regs(p).0, Some(p), 1, false)
                && rpu_access_ok(spec_core_mem_regs(p).1, Some(p), 1, false),
        words_fit(spec_region(PBUS as int), 0x8C20, 1),
        words_fit(spec_region(SYSBUS as int), 0x400, 1) && spec_region(SYSBUS as int).latency <= 2,
        words_fit(spec_region(SYSBUS as int), 0x494, 1),
{
    reveal_with_fuel(first_serving, 12);
    assert(rpu_access_ok(spec_core_mem_regs(Processor::LMAC).0, Some(Processor::LMAC), 1, false));
    assert(rpu_access_ok(spec_core_mem_regs(Processor::LMAC).1, Some(Processor::LMAC), 1, false));
    assert(rpu_access_ok(spec_core_mem_regs(Processor::UMAC).0, Some(Processor::UMAC), 1, false));
    assert(rpu_access_ok(spec_core_mem_regs(Processor::UMAC).1, Some(Processor::UMAC), 1, false));
}

} // verus!
