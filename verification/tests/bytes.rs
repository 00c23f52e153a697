use nrf70::bytes::{push_bytes, push_u16_le, push_u32_le, read_u32_le, slice32, slice8};

#[test]
fn slice8_is_little_endian() {
    assert_eq!(slice8(&[0x0403_0201, 0xDDCC_BBAA]), vec![1, 2, 3, 4, 0xAA, 0xBB, 0xCC, 0xDD]);
    assert_eq!(slice8(&[]), Vec::<u8>::new());
}

#[test]
fn slice32_is_little_endian() {
    assert_eq!(slice32(&[1, 2, 3, 4, 0xAA, 0xBB, 0xCC, 0xDD]), vec![0x0403_0201, 0xDDCC_BBAA]);
    assert_eq!(slice32(&[]), Vec::<u32>::new());
}

#[test]
fn words_bytes_roundtrip() {
    let words = [0u32, 1, 0xFFFF_FFFF, 0x1234_5678, 0x8000_0001];
    assert_eq!(slice32(&slice8(&words)), words.to_vec());
    let bytes: Vec<u8> = (0..32u8).map(|b| b.wrapping_mul(37)).collect();
    assert_eq!(slice8(&slice32(&bytes)), bytes);
}

#[test]
fn read_u32_le_at_offset() {
    let bytes = [0xFFu8, 0x78, 0x56, 0x34, 0x12];
    assert_eq!(read_u32_le(&bytes, 1), 0x1234_5678);
}

#[test]
fn push_helpers_append() {
    let mut out = vec![9u8];
    push_u32_le(&mut out, 0xA1B2_C3D4);
    push_u16_le(&mut out, 0x0102);
    push_bytes(&mut out, &[7, 7]);
    assert_eq!(out, vec![9, 0xD4, 0xC3, 0xB2, 0xA1, 0x02, 0x01, 7, 7]);
}
