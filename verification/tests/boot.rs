use nrf70::access::{raw_access_address, raw_read32_request};
use nrf70::regions::find_region;
use nrf70::boot::{
    boot_poll_step, boot_signature_addr, boot_writes, fw_chunk, fw_chunk_count,
    load_patches_plan, rpu_is_awake, rpu_is_ready, status_poll_step, wakeup_requested,
    write_in_progress, PollStep, STATUS_POLL_TRIES,
    RegWrite,
};
use nrf70::fw::ImageId;
use nrf70::regions::{Processor, LMAC_RET_RAM, UMAC_RET_RAM};
use nrf70::rpu::{
    LMAC_ROM_PATCH_OFFSET, RPU_MEM_LMAC_BOOT_SIG, RPU_MEM_UMAC_BOOT_SIG, RPU_REG_MIPS_MCU2_CONTROL,
    RPU_REG_MIPS_MCU_CONTROL, RPU_REG_UCC_SLEEP_CTRL_DATA_0, UMAC_ROM_PATCH_OFFSET,
};

#[test]
fn lmac_boot_sequence() {
    let w = boot_writes(Processor::LMAC, 0xDEAD_1EAF);
    assert_eq!(w.len(), 7);
    assert_eq!(w[0], RegWrite { rpu_addr: RPU_MEM_LMAC_BOOT_SIG, processor: Some(Processor::LMAC), value: 0xDEAD_1EAF });
    assert_eq!(w[1], RegWrite { rpu_addr: RPU_REG_UCC_SLEEP_CTRL_DATA_0, processor: Some(Processor::LMAC), value: LMAC_ROM_PATCH_OFFSET });
    assert_eq!(w[6], RegWrite { rpu_addr: RPU_REG_MIPS_MCU_CONTROL, processor: Some(Processor::LMAC), value: 1 });
    assert_eq!(boot_signature_addr(Processor::LMAC), RPU_MEM_LMAC_BOOT_SIG);
}

#[test]
fn umac_boot_sequence() {
    let w = boot_writes(Processor::UMAC, 7);
    assert_eq!(w[0], RegWrite { rpu_addr: RPU_MEM_UMAC_BOOT_SIG, processor: Some(Processor::UMAC), value: 7 });
    assert_eq!(w[1].value, UMAC_ROM_PATCH_OFFSET);
    assert_eq!(w[6], RegWrite { rpu_addr: RPU_REG_MIPS_MCU2_CONTROL, processor: Some(Processor::UMAC), value: 1 });
    assert!(w.iter().all(|x| x.processor == Some(Processor::UMAC)));
    assert_eq!(boot_signature_addr(Processor::UMAC), RPU_MEM_UMAC_BOOT_SIG);
}

#[test]
fn boot_polling() {
    assert_eq!(boot_poll_step(20, 0x5A5A_5A5A), PollStep::Done);
    assert_eq!(boot_poll_step(1, 0x5A5A_5A5A), PollStep::Done);
    assert_eq!(boot_poll_step(20, 0), PollStep::Retry(19));
    assert_eq!(boot_poll_step(1, 0xB700_0D50), PollStep::TimedOut);
    let mut remaining = 20;
    let mut reads = 0;
    loop {
        reads += 1;
        match boot_poll_step(remaining, 0) {
            PollStep::Retry(r) => remaining = r,
            PollStep::TimedOut => break,
            PollStep::Done => unreachable!(),
        }
    }
    assert_eq!(reads, 20);
}

#[test]
fn patch_plan() {
    let p = load_patches_plan();
    assert_eq!((p[0].region, p[0].offset, p[0].image), (UMAC_RET_RAM, UMAC_ROM_PATCH_OFFSET, ImageId::UmacPri));
    assert_eq!((p[1].region, p[1].offset, p[1].image), (UMAC_RET_RAM, 0xC000, ImageId::UmacSec));
    assert_eq!((p[2].region, p[2].offset, p[2].image), (LMAC_RET_RAM, LMAC_ROM_PATCH_OFFSET, ImageId::LmacPri));
    assert_eq!((p[3].region, p[3].offset, p[3].image), (LMAC_RET_RAM, 0x4000, ImageId::LmacSec));
}

#[test]
fn firmware_chunks() {
    let fw: Vec<u8> = (0..2056u32).map(|i| (i % 251) as u8).collect();
    assert_eq!(fw_chunk_count(&fw), 3);
    assert_eq!(fw_chunk_count(&fw[..2048]), 2);
    assert_eq!(fw_chunk_count(&[]), 0);
    let (o0, w0) = fw_chunk(0x100, &fw, 0).unwrap();
    assert_eq!(o0, 0x100);
    assert_eq!(w0.len(), 256);
    assert_eq!(w0[0], u32::from_le_bytes([fw[0], fw[1], fw[2], fw[3]]));
    let (o2, w2) = fw_chunk(0x100, &fw, 2).unwrap();
    assert_eq!(o2, 0x100 + 2048);
    assert_eq!(w2.len(), 2);
    let mut back = Vec::new();
    for i in 0..3 {
        for w in fw_chunk(0, &fw, i).unwrap().1 {
            back.extend_from_slice(&w.to_le_bytes());
        }
    }
    assert_eq!(back, fw);
}

#[test]
fn firmware_chunk_errors() {
    let fw = vec![0u8; 1030];
    assert!(fw_chunk(0, &fw, 0).is_some());
    assert!(fw_chunk(0, &fw, 1).is_none());
    let fw = vec![0u8; 2048];
    assert!(fw_chunk(u32::MAX - 1023, &fw, 0).is_some());
    assert!(fw_chunk(u32::MAX - 1023, &fw, 1).is_none());
}

#[test]
fn status_registers() {
    assert!(write_in_progress(0x01));
    assert!(!write_in_progress(0xFE));
    assert!(rpu_is_awake(0x02));
    assert!(rpu_is_awake(0x06));
    assert!(!rpu_is_awake(0x04));
    assert!(rpu_is_ready(0x06));
    assert!(!rpu_is_ready(0x07));
    assert!(!rpu_is_ready(0x02));
    assert!(wakeup_requested(0x01));
    assert!(!wakeup_requested(0x03));
}

#[test]
fn boot_accesses_stay_in_their_windows() {
    for p in [Processor::LMAC, Processor::UMAC] {
        for w in boot_writes(p, 0x1234) {
            let (mem, offs) = find_region(w.rpu_addr, w.processor).expect("mapped");
            assert!(raw_access_address(&mem, offs, 1).is_some());
        }
        let (mem, offs) = find_region(boot_signature_addr(p), None).expect("mapped");
        assert!(raw_read32_request(&mem, offs).is_some());
    }
}

#[test]
fn status_polling() {
    assert_eq!(status_poll_step(10, true), PollStep::Done);
    assert_eq!(status_poll_step(10, false), PollStep::Retry(9));
    assert_eq!(status_poll_step(1, false), PollStep::TimedOut);
    let mut remaining = STATUS_POLL_TRIES;
    let mut polls = 0;
    loop {
        polls += 1;
        match status_poll_step(remaining, false) {
            PollStep::Retry(r) => remaining = r,
            PollStep::TimedOut => break,
            PollStep::Done => unreachable!(),
        }
    }
    assert_eq!(polls, 10);
}
