//! Bringing up the RPU: waking it, loading the firmware patches and booting
//! its two cores.
use vstd::prelude::*;
use crate::access::rpu_access_ok;
use crate::bytes::bytes_as_words;
use crate::regions::first_serving;
use crate::fw::ImageId;
use crate::regions::{Processor, LMAC_RET_RAM, UMAC_RET_RAM};
use crate::rpu::{
    BOOT_DONE_SIGNATURE, LMAC_BOOT_EXCP_VECT_0, LMAC_BOOT_EXCP_VECT_1, LMAC_BOOT_EXCP_VECT_2,
    LMAC_BOOT_EXCP_VECT_3, LMAC_ROM_PATCH_OFFSET, RPU_MEM_LMAC_BOOT_SIG, RPU_MEM_LMAC_PATCH_BIN,
    RPU_MEM_UMAC_BOOT_SIG, RPU_MEM_UMAC_PATCH_BIN, RPU_REG_MIPS_MCU2_BOOT_EXCP_INSTR_0,
    RPU_REG_MIPS_MCU2_BOOT_EXCP_INSTR_1, RPU_REG_MIPS_MCU2_BOOT_EXCP_INSTR_2,
    RPU_REG_MIPS_MCU2_BOOT_EXCP_INSTR_3, RPU_REG_MIPS_MCU2_CONTROL,
    RPU_REG_MIPS_MCU_BOOT_EXCP_INSTR_0, RPU_REG_MIPS_MCU_BOOT_EXCP_INSTR_1,
    RPU_REG_MIPS_MCU_BOOT_EXCP_INSTR_2, RPU_REG_MIPS_MCU_BOOT_EXCP_INSTR_3,
    RPU_REG_MIPS_MCU_CONTROL, RPU_REG_UCC_SLEEP_CTRL_DATA_0, RPU_REG_UCC_SLEEP_CTRL_DATA_1,
    UMAC_BOOT_EXCP_VECT_0, UMAC_BOOT_EXCP_VECT_1, UMAC_BOOT_EXCP_VECT_2, UMAC_BOOT_EXCP_VECT_3,
    UMAC_ROM_PATCH_OFFSET,
};

verus! {

broadcast use vstd::slice::group_slice_axioms;

// ---------------------------------------------------------------------
// Status registers of the bus interface.
pub const SR0_WRITE_IN_PROGRESS: u8 = 0x01;

pub const SR1_RPU_AWAKE: u8 = 0x02;

pub const SR1_RPU_READY: u8 = 0x04;

pub const SR2_RPU_WAKEUP_REQ: u8 = 0x01;

/// How many times a status register is polled before giving up.
pub const STATUS_POLL_TRIES: u32 = 10;

/// A write to the RPU is still in progress.
pub fn write_in_progress(sr0: u8) -> (b: bool)
    ensures
        b == (sr0 & SR0_WRITE_IN_PROGRESS != 0),
{
    sr0 & SR0_WRITE_IN_PROGRESS != 0
}

/// The RPU is awake.
pub fn rpu_is_awake(sr1: u8) -> (b: bool)
    ensures
        b == (sr1 & SR1_RPU_AWAKE != 0),
{
    sr1 & SR1_RPU_AWAKE != 0
}

/// The RPU is awake and ready, and nothing else is flagged.
pub fn rpu_is_ready(sr1: u8) -> (b: bool)
    ensures
        b == (sr1 == SR1_RPU_AWAKE | SR1_RPU_READY),
{
    sr1 == SR1_RPU_AWAKE | SR1_RPU_READY
}

/// The wake-up request is registered.
pub fn wakeup_requested(sr2: u8) -> (b: bool)
    ensures
        b == (sr2 == SR2_RPU_WAKEUP_REQ),
{
    sr2 == SR2_RPU_WAKEUP_REQ
}

// ---------------------------------------------------------------------
// Firmware patches.

/// Where a firmware image is loaded: the window, the offset in it and the
/// image.
#[derive(Clone, Copy, Debug)]
pub struct PatchLoad {
    pub region: usize,
    pub offset: u32,
    pub image: ImageId,
}

pub open spec fn spec_patch_load(k: int) -> PatchLoad {
    if k == 0 {
        PatchLoad { region: UMAC_RET_RAM, offset: UMAC_ROM_PATCH_OFFSET, image: ImageId::UmacPri }
    } else if k == 1 {
        PatchLoad {
            region: UMAC_RET_RAM,
            offset: (RPU_MEM_UMAC_PATCH_BIN - 0x80080000u32) as u32,
            image: ImageId::UmacSec,
        }
    } else if k == 2 {
        PatchLoad { region: LMAC_RET_RAM, offset: LMAC_ROM_PATCH_OFFSET, image: ImageId::LmacPri }
    } else {
        PatchLoad {
            region: LMAC_RET_RAM,
            offset: (RPU_MEM_LMAC_PATCH_BIN - 0x80040000u32) as u32,
            image: ImageId::LmacSec,
        }
    }
}

/// The firmware patches to load, in order: the UMAC patches first, then
/// the LMAC patches; for each core its primary image at the core's ROM
/// patch offset and its secondary image at its patch binary address, both
/// in the core's retained RAM.
pub fn load_patches_plan() -> (plan: [PatchLoad; 4])
    ensures
        forall|k: int| 0 <= k < 4 ==> #[trigger] plan@[k] == spec_patch_load(k),
{
    [
        PatchLoad { region: UMAC_RET_RAM, offset: UMAC_ROM_PATCH_OFFSET, image: ImageId::UmacPri },
        PatchLoad {
            region: UMAC_RET_RAM,
            offset: RPU_MEM_UMAC_PATCH_BIN - 0x80080000u32,
            image: ImageId::UmacSec,
        },
        PatchLoad { region: LMAC_RET_RAM, offset: LMAC_ROM_PATCH_OFFSET, image: ImageId::LmacPri },
        PatchLoad {
            region: LMAC_RET_RAM,
            offset: RPU_MEM_LMAC_PATCH_BIN - 0x80040000u32,
            image: ImageId::LmacSec,
        },
    ]
}

/// The patch plan by value, and each image goes to the retained RAM of its
/// own core: the UMAC's primary image at offset 0x14800 and its secondary
/// image at 0xC000 of UMAC retained RAM (window 9, bus 0x280000), the
/// LMAC's primary image at 0xB000 and its secondary image at 0x4000 of
/// LMAC retained RAM (window 6, bus 0x140000).
pub proof fn lemma_patch_plan_by_value()
    ensures
        spec_patch_load(0) == (PatchLoad { region: 9usize, offset: 0x14800u32, image: ImageId::UmacPri }),
        spec_patch_load(1) == (PatchLoad { region: 9usize, offset: 0xC000u32, image: ImageId::UmacSec }),
        spec_patch_load(2) == (PatchLoad { region: 6usize, offset: 0xB000u32, image: ImageId::LmacPri }),
        spec_patch_load(3) == (PatchLoad { region: 6usize, offset: 0x4000u32, image: ImageId::LmacSec }),
        forall|k: int|
            0 <= k < 4 ==> {
                let l = #[trigger] spec_patch_load(k);
                &&& (l.image == ImageId::UmacPri || l.image == ImageId::UmacSec) ==> crate::regions::spec_region(l.region as int).processor_restriction == Some(Processor::UMAC)
                &&& (l.image == ImageId::LmacPri || l.image == ImageId::LmacSec) ==> crate::regions::spec_region(l.region as int).processor_restriction == Some(Processor::LMAC)
            },
        forall|k: int, j: int|
            0 <= k < 4 && 0 <= j < 4 && k != j ==> #[trigger] spec_patch_load(k).image != #[trigger] spec_patch_load(j).image,
{
}

/// Firmware is written in chunks of this many bytes.
pub const FW_CHUNK_SIZE: usize = 1024;

/// Number of chunks of a firmware image of `len` bytes.
pub open spec fn spec_chunk_count(len: nat) -> nat {
    ((len + FW_CHUNK_SIZE - 1) / (FW_CHUNK_SIZE as int)) as nat
}

/// The bytes of chunk `i` of an image.
pub open spec fn spec_chunk(fw: Seq<u8>, i: int) -> Seq<u8> {
    let start = FW_CHUNK_SIZE * i;
    let end = if FW_CHUNK_SIZE * (i + 1) < fw.len() {
        FW_CHUNK_SIZE * (i + 1)
    } else {
        fw.len() as int
    };
    fw.subrange(start, end)
}

/// The offset at which chunk `i` of an image loaded at `addr` is written.
pub open spec fn spec_chunk_offset(addr: u32, i: int) -> int {
    addr + ((FW_CHUNK_SIZE * i) as u32)
}

/// The chunks cut the image into consecutive pieces of 1024 bytes, the
/// last one possibly shorter and never empty: chunk `i` holds the bytes
/// from `1024 i`, and together the chunks hold every byte of the image.
pub proof fn lemma_chunks_partition(fw: Seq<u8>, i: int)
    requires
        0 <= i < spec_chunk_count(fw.len()),
    ensures
        spec_chunk(fw, i).len() > 0,
        spec_chunk(fw, i).len() <= 1024,
        i + 1 < spec_chunk_count(fw.len()) ==> spec_chunk(fw, i).len() == 1024,
        i + 1 == spec_chunk_count(fw.len()) ==> 1024 * i + spec_chunk(fw, i).len() == fw.len(),
        forall|k: int| 0 <= k < spec_chunk(fw, i).len() ==> #[trigger] spec_chunk(fw, i)[k] == fw[1024 * i + k],
{
    let n = spec_chunk_count(fw.len());
    assert(1024 * i < fw.len()) by (nonlinear_arith)
        requires
            0 <= i < n,
            n == (fw.len() + 1023) / 1024,
    ;
    if i + 1 < n {
        assert(1024 * (i + 1) < fw.len()) by (nonlinear_arith)
            requires
                0 <= i + 1 < n,
                n == (fw.len() + 1023) / 1024,
        ;
    } else {
        assert(fw.len() <= 1024 * (i + 1)) by (nonlinear_arith)
            requires
                i + 1 == n,
                n == (fw.len() + 1023) / 1024,
        ;
    }
}

pub fn fw_chunk_count(fw: &[u8]) -> (n: usize)
    ensures
        n == spec_chunk_count(fw@.len()),
{
    fw.len() / FW_CHUNK_SIZE + if fw.len() % FW_CHUNK_SIZE == 0 {
        0
    } else {
        1
    }
}

/// Chunk `i` of an image loaded at offset `addr`: the offset where it is
/// written and its words; `None` when the chunk is not whole words or its
/// offset does not fit in 32 bits.
pub fn fw_chunk(addr: u32, fw: &[u8], i: usize) -> (r: Option<(u32, Vec<u32>)>)
    requires
        i < spec_chunk_count(fw@.len()),
    ensures
        match r {
            Some((offs, words)) => {
                &&& spec_chunk(fw@, i as int).len() % 4 == 0
                &&& spec_chunk_offset(addr, i as int) <= u32::MAX
                &&& offs == spec_chunk_offset(addr, i as int)
                &&& words@ == bytes_as_words(spec_chunk(fw@, i as int))
            },
            None => spec_chunk(fw@, i as int).len() % 4 != 0 || spec_chunk_offset(addr, i as int)
                > u32::MAX,
        },
{
    assert(fw.len() == fw@.len());
    assert(FW_CHUNK_SIZE * i < fw@.len()) by (nonlinear_arith)
        requires
            i < spec_chunk_count(fw@.len()),
    ;
    let start = FW_CHUNK_SIZE * i;
    let end = if fw.len() - start > FW_CHUNK_SIZE {
        start + FW_CHUNK_SIZE
    } else {
        fw.len()
    };
    let chunk = vstd::slice::slice_subrange(fw, start, end);
    if chunk.len() % 4 != 0 {
        return None;
    }
    let rel = start as u32;
    if rel > u32::MAX - addr {
        return None;
    }
    let words = crate::bytes::slice32(chunk);
    Some((addr + rel, words))
}

// ---------------------------------------------------------------------
// Booting the cores.

/// A write of one word to an RPU address, seen by a core or by neither.
#[derive(Clone, Copy, Debug, PartialEq, Eq, Structural)]
pub struct RegWrite {
    pub rpu_addr: u32,
    pub processor: Option<Processor>,
    pub value: u32,
}

pub open spec fn reg_write(rpu_addr: u32, processor: Processor, value: u32) -> RegWrite {
    RegWrite { rpu_addr, processor: Some(processor), value }
}

/// The writes that boot a core, in order: the firmware signature to the
/// core's boot signature, the ROM patch offset to the core's sleep control
/// register, the four words of the boot vector, and the reset of the core.
pub open spec fn spec_boot_writes(processor: Processor, signature: u32) -> Seq<RegWrite> {
    match processor {
        Processor::LMAC => seq![
            reg_write(RPU_MEM_LMAC_BOOT_SIG, Processor::LMAC, signature),
            reg_write(RPU_REG_UCC_SLEEP_CTRL_DATA_0, Processor::LMAC, LMAC_ROM_PATCH_OFFSET),
            reg_write(RPU_REG_MIPS_MCU_BOOT_EXCP_INSTR_0, Processor::LMAC, LMAC_BOOT_EXCP_VECT_0),
            reg_write(RPU_REG_MIPS_MCU_BOOT_EXCP_INSTR_1, Processor::LMAC, LMAC_BOOT_EXCP_VECT_1),
            reg_write(RPU_REG_MIPS_MCU_BOOT_EXCP_INSTR_2, Processor::LMAC, LMAC_BOOT_EXCP_VECT_2),
            reg_write(RPU_REG_MIPS_MCU_BOOT_EXCP_INSTR_3, Processor::LMAC, LMAC_BOOT_EXCP_VECT_3),
            reg_write(RPU_REG_MIPS_MCU_CONTROL, Processor::LMAC, 1),
        ],
        Processor::UMAC => seq![
            reg_write(RPU_MEM_UMAC_BOOT_SIG, Processor::UMAC, signature),
            reg_write(RPU_REG_UCC_SLEEP_CTRL_DATA_1, Processor::UMAC, UMAC_ROM_PATCH_OFFSET),
            reg_write(RPU_REG_MIPS_MCU2_BOOT_EXCP_INSTR_0, Processor::UMAC, UMAC_BOOT_EXCP_VECT_0),
            reg_write(RPU_REG_MIPS_MCU2_BOOT_EXCP_INSTR_1, Processor::UMAC, UMAC_BOOT_EXCP_VECT_1),
            reg_write(RPU_REG_MIPS_MCU2_BOOT_EXCP_INSTR_2, Processor::UMAC, UMAC_BOOT_EXCP_VECT_2),
            reg_write(RPU_REG_MIPS_MCU2_BOOT_EXCP_INSTR_3, Processor::UMAC, UMAC_BOOT_EXCP_VECT_3),
            reg_write(RPU_REG_MIPS_MCU2_CONTROL, Processor::UMAC, 1),
        ],
    }
}

/// The writes that boot `processor` with the firmware's signature.
pub fn boot_writes(processor: Processor, signature: u32) -> (writes: Vec<RegWrite>)
    ensures
        writes@ == spec_boot_writes(processor, signature),
{
    let p = Some(processor);
    let regs: [u32; 7] = match processor {
        Processor::LMAC => [
            RPU_MEM_LMAC_BOOT_SIG,
            RPU_REG_UCC_SLEEP_CTRL_DATA_0,
            RPU_REG_MIPS_MCU_BOOT_EXCP_INSTR_0,
            RPU_REG_MIPS_MCU_BOOT_EXCP_INSTR_1,
            RPU_REG_MIPS_MCU_BOOT_EXCP_INSTR_2,
            RPU_REG_MIPS_MCU_BOOT_EXCP_INSTR_3,
            RPU_REG_MIPS_MCU_CONTROL,
        ],
        Processor::UMAC => [
            RPU_MEM_UMAC_BOOT_SIG,
            RPU_REG_UCC_SLEEP_CTRL_DATA_1,
            RPU_REG_MIPS_MCU2_BOOT_EXCP_INSTR_0,
            RPU_REG_MIPS_MCU2_BOOT_EXCP_INSTR_1,
            RPU_REG_MIPS_MCU2_BOOT_EXCP_INSTR_2,
            RPU_REG_MIPS_MCU2_BOOT_EXCP_INSTR_3,
            RPU_REG_MIPS_MCU2_CONTROL,
        ],
    };
    let values: [u32; 7] = match processor {
        Processor::LMAC => [
            signature,
            LMAC_ROM_PATCH_OFFSET,
            LMAC_BOOT_EXCP_VECT_0,
            LMAC_BOOT_EXCP_VECT_1,
            LMAC_BOOT_EXCP_VECT_2,
            LMAC_BOOT_EXCP_VECT_3,
            1,
        ],
        Processor::UMAC => [
            signature,
            UMAC_ROM_PATCH_OFFSET,
            UMAC_BOOT_EXCP_VECT_0,
            UMAC_BOOT_EXCP_VECT_1,
            UMAC_BOOT_EXCP_VECT_2,
            UMAC_BOOT_EXCP_VECT_3,
            1,
        ],
    };
    let mut writes: Vec<RegWrite> = Vec::new();
    let mut i: usize = 0;
    while i < 7
        invariant
            0 <= i <= 7,
            writes@.len() == i,
            forall|j: int|
                0 <= j < i ==> #[trigger] writes@[j] == (RegWrite {
                    rpu_addr: regs@[j],
                    processor: p,
                    value: values@[j],
                }),
        decreases 7 - i,
    {
        writes.push(RegWrite { rpu_addr: regs[i], processor: p, value: values[i] });
        i += 1;
    }
    assert(writes@ =~= spec_boot_writes(processor, signature));
    writes
}

/// The boot sequence of each core, by value: the UMAC's goes to the UMAC's
/// boot signature (0xB0000000), its sleep control register (0xA4002C30,
/// set to the UMAC ROM patch offset 0x14800), the MCU2 boot vector
/// registers (0xA4000150 to 0xA400015C) and the MCU2 control register
/// (0xA4000100); the LMAC's to the LMAC's boot signature (0xB7000D50), its
/// sleep control register (0xA4002C2C, set to 0xB000), the MCU boot vector
/// registers (0xA4000050 to 0xA400005C) and the MCU control register
/// (0xA4000000). Every write is made as seen by the core being booted.
pub proof fn lemma_boot_writes_by_value(signature: u32)
    ensures
        spec_boot_writes(Processor::UMAC, signature) == seq![
            RegWrite { rpu_addr: 0xB0000000u32, processor: Some(Processor::UMAC), value: signature },
            RegWrite { rpu_addr: 0xA4002C30u32, processor: Some(Processor::UMAC), value: 0x14800u32 },
            RegWrite { rpu_addr: 0xA4000150u32, processor: Some(Processor::UMAC), value: 0x3c1a8000u32 },
            RegWrite { rpu_addr: 0xA4000154u32, processor: Some(Processor::UMAC), value: 0x275a0000u32 },
            RegWrite { rpu_addr: 0xA4000158u32, processor: Some(Processor::UMAC), value: 0x03400008u32 },
            RegWrite { rpu_addr: 0xA400015Cu32, processor: Some(Processor::UMAC), value: 0u32 },
            RegWrite { rpu_addr: 0xA4000100u32, processor: Some(Processor::UMAC), value: 1u32 },
        ],
        spec_boot_writes(Processor::LMAC, signature) == seq![
            RegWrite { rpu_addr: 0xB7000D50u32, processor: Some(Processor::LMAC), value: signature },
            RegWrite { rpu_addr: 0xA4002C2Cu32, processor: Some(Processor::LMAC), value: 0xB000u32 },
            RegWrite { rpu_addr: 0xA4000050u32, processor: Some(Processor::LMAC), value: 0x3c1a8000u32 },
            RegWrite { rpu_addr: 0xA4000054u32, processor: Some(Processor::LMAC), value: 0x275a0000u32 },
            RegWrite { rpu_addr: 0xA4000058u32, processor: Some(Processor::LMAC), value: 0x03400008u32 },
            RegWrite { rpu_addr: 0xA400005Cu32, processor: Some(Processor::LMAC), value: 0u32 },
            RegWrite { rpu_addr: 0xA4000000u32, processor: Some(Processor::LMAC), value: 1u32 },
        ],
{
    assert(spec_boot_writes(Processor::UMAC, signature) =~= seq![
        RegWrite { rpu_addr: 0xB0000000u32, processor: Some(Processor::UMAC), value: signature },
        RegWrite { rpu_addr: 0xA4002C30u32, processor: Some(Processor::UMAC), value: 0x14800u32 },
        RegWrite { rpu_addr: 0xA4000150u32, processor: Some(Processor::UMAC), value: 0x3c1a8000u32 },
        RegWrite { rpu_addr: 0xA4000154u32, processor: Some(Processor::UMAC), value: 0x275a0000u32 },
        RegWrite { rpu_addr: 0xA4000158u32, processor: Some(Processor::UMAC), value: 0x03400008u32 },
        RegWrite { rpu_addr: 0xA400015Cu32, processor: Some(Processor::UMAC), value: 0u32 },
        RegWrite { rpu_addr: 0xA4000100u32, processor: Some(Processor::UMAC), value: 1u32 },
    ]);
    assert(spec_boot_writes(Processor::LMAC, signature) =~= seq![
        RegWrite { rpu_addr: 0xB7000D50u32, processor: Some(Processor::LMAC), value: signature },
        RegWrite { rpu_addr: 0xA4002C2Cu32, processor: Some(Processor::LMAC), value: 0xB000u32 },
        RegWrite { rpu_addr: 0xA4000050u32, processor: Some(Processor::LMAC), value: 0x3c1a8000u32 },
        RegWrite { rpu_addr: 0xA4000054u32, processor: Some(Processor::LMAC), value: 0x275a0000u32 },
        RegWrite { rpu_addr: 0xA4000058u32, processor: Some(Processor::LMAC), value: 0x03400008u32 },
        RegWrite { rpu_addr: 0xA400005Cu32, processor: Some(Processor::LMAC), value: 0u32 },
        RegWrite { rpu_addr: 0xA4000000u32, processor: Some(Processor::LMAC), value: 1u32 },
    ]);
}

/// Booting one core never writes a register that the other core's boot
/// writes: the two boot sequences touch disjoint registers, all seven
/// writes of a sequence go to distinct registers, every write is made as
/// seen by the core being booted, and the signature is written where the
/// boot is then polled.
pub proof fn lemma_boot_writes_separate(s: u32, t: u32)
    ensures
        forall|i: int, j: int|
            0 <= i < 7 && 0 <= j < 7 ==> (#[trigger] spec_boot_writes(Processor::UMAC, s)[i]).rpu_addr
                != (#[trigger] spec_boot_writes(Processor::LMAC, t)[j]).rpu_addr,
        forall|p: Processor, i: int, j: int|
            0 <= i < 7 && 0 <= j < 7 && i != j ==> (#[trigger] spec_boot_writes(p, s)[i]).rpu_addr
                != (#[trigger] spec_boot_writes(p, s)[j]).rpu_addr,
        forall|p: Processor, i: int|
            0 <= i < 7 ==> (#[trigger] spec_boot_writes(p, s)[i]).processor == Some(p),
        forall|p: Processor|
            spec_boot_writes(p, s).len() == 7 && (#[trigger] spec_boot_writes(p, s)[0]).rpu_addr
                == spec_boot_signature_addr(p) && spec_boot_writes(p, s)[0].value == s,
{
    lemma_boot_writes_by_value(s);
    lemma_boot_writes_by_value(t);
}

/// Where a core reports that it booted; it is read as seen by neither core.
pub open spec fn spec_boot_signature_addr(processor: Processor) -> u32 {
    match processor {
        Processor::LMAC => RPU_MEM_LMAC_BOOT_SIG,
        Processor::UMAC => RPU_MEM_UMAC_BOOT_SIG,
    }
}

pub fn boot_signature_addr(processor: Processor) -> (a: u32)
    ensures
        a == spec_boot_signature_addr(processor),
{
    match processor {
        Processor::LMAC => RPU_MEM_LMAC_BOOT_SIG,
        Processor::UMAC => RPU_MEM_UMAC_BOOT_SIG,
    }
}

/// How many times the boot signature is read before the boot is given up.
pub const BOOT_POLL_TRIES: u32 = 20;

/// What to do after one poll of a condition.
#[derive(Clone, Copy, Debug, PartialEq, Eq, Structural)]
pub enum PollStep {
    /// The condition holds.
    Done,
    /// Wait and poll again; this many polls are left.
    Retry(u32),
    /// Wait, then give up: the condition never held.
    TimedOut,
}

/// The step after one poll that found the condition `satisfied`, with
/// `remaining` polls left counting this one.
pub open spec fn spec_poll_step(remaining: u32, satisfied: bool) -> PollStep {
    if satisfied {
        PollStep::Done
    } else if remaining == 1 {
        PollStep::TimedOut
    } else {
        PollStep::Retry((remaining - 1) as u32)
    }
}

/// The step after a poll of a status register (awake, ready, wake-up
/// request), given whether the register showed the awaited state.
pub fn status_poll_step(remaining: u32, satisfied: bool) -> (r: PollStep)
    requires
        remaining > 0,
    ensures
        r == spec_poll_step(remaining, satisfied),
{
    if satisfied {
        PollStep::Done
    } else if remaining == 1 {
        PollStep::TimedOut
    } else {
        PollStep::Retry(remaining - 1)
    }
}

/// The step after reading a core's boot signature: the core has booted
/// once the signature reads `BOOT_DONE_SIGNATURE`.
pub fn boot_poll_step(remaining: u32, signature: u32) -> (r: PollStep)
    requires
        remaining > 0,
    ensures
        r == spec_poll_step(remaining, signature == BOOT_DONE_SIGNATURE),
{
    status_poll_step(remaining, signature == BOOT_DONE_SIGNATURE)
}

/// The step that `n` polls in a row, none satisfied, lead to, starting
/// with `remaining` polls left.
pub open spec fn spec_polls_unsatisfied(remaining: u32, n: nat) -> PollStep
    decreases n,
{
    if n <= 1 {
        spec_poll_step(remaining, false)
    } else {
        match spec_poll_step(remaining, false) {
            PollStep::Retry(r) => spec_polls_unsatisfied(r, (n - 1) as nat),
            other => other,
        }
    }
}

/// A poll that starts with `remaining` polls gives up exactly at the
/// `remaining`-th unsatisfied poll, and not before: the status registers
/// are polled `STATUS_POLL_TRIES` times, the boot signature
/// `BOOT_POLL_TRIES` times.
pub proof fn lemma_poll_gives_up_after_budget(remaining: u32, n: nat)
    requires
        0 < n <= remaining,
    ensures
        spec_polls_unsatisfied(remaining, n) == if n == remaining {
            PollStep::TimedOut
        } else {
            PollStep::Retry((remaining - n) as u32)
        },
    decreases n,
{
    if n > 1 {
        lemma_poll_gives_up_after_budget((remaining - 1) as u32, (n - 1) as nat);
    }
}

/// Every write that boots a core, and the read of its boot signature, go
/// to an address that the memory map serves, inside its window: booting
/// never trips the bounds checks of the bus accesses.
pub proof fn lemma_boot_accesses_ok(processor: Processor, signature: u32)
    ensures
        forall|k: int|
            0 <= k < 7 ==> rpu_access_ok(
                #[trigger] spec_boot_writes(processor, signature)[k].rpu_addr,
                spec_boot_writes(processor, signature)[k].processor,
                1,
                false,
            ),
        rpu_access_ok(spec_boot_signature_addr(processor), None, 1, true),
{
    reveal_with_fuel(first_serving, 12);
    let w = spec_boot_writes(processor, signature);
    assert(rpu_access_ok(w[0].rpu_addr, w[0].processor, 1, false));
    assert(rpu_access_ok(w[1].rpu_addr, w[1].processor, 1, false));
    assert(rpu_access_ok(w[2].rpu_addr, w[2].processor, 1, false));
    assert(rpu_access_ok(w[3].rpu_addr, w[3].processor, 1, false));
    assert(rpu_access_ok(w[4].rpu_addr, w[4].processor, 1, false));
    assert(rpu_access_ok(w[5].rpu_addr, w[5].processor, 1, false));
    assert(rpu_access_ok(w[6].rpu_addr, w[6].processor, 1, false));
}

} // verus!
