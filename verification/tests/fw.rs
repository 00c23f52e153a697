use nrf70::fw::{
    Cursor, FeatureFlags, FirmwareImage, FirmwareInfo, ImageId, FW_IMAGE_INFO_SIZE,
    PATCH_NUM_IMAGES, PATCH_SIGNATURE, RPU_VERSION,
};

fn push_u32(out: &mut Vec<u8>, w: u32) {
    out.extend_from_slice(&w.to_le_bytes());
}

/// A patch bundle with the given images (type number, data).
fn bundle_with(signature: u32, num_images: u32, version: u32, images: &[(u32, Vec<u8>)]) -> Vec<u8> {
    let mut out = Vec::new();
    push_u32(&mut out, signature);
    push_u32(&mut out, num_images);
    push_u32(&mut out, version);
    push_u32(&mut out, 1); // feature flags
    let total: usize = images.iter().map(|(_, d)| 8 + d.len()).sum();
    push_u32(&mut out, total as u32);
    out.extend_from_slice(&[0xAB; 32]);
    for (ty, data) in images {
        push_u32(&mut out, *ty);
        push_u32(&mut out, data.len() as u32);
        out.extend_from_slice(data);
    }
    out
}

fn standard_images() -> Vec<(u32, Vec<u8>)> {
    vec![
        (0, vec![1, 2, 3, 4, 5, 6, 7, 8]),
        (1, vec![9; 12]),
        (2, vec![]),
        (3, (0..=255u8).collect()),
    ]
}

fn standard_bundle() -> Vec<u8> {
    bundle_with(PATCH_SIGNATURE, PATCH_NUM_IMAGES, RPU_VERSION, &standard_images())
}

#[test]
fn read_fw() {
    let fw = standard_bundle();
    assert!(FirmwareInfo::check(&fw));
    let _info = FirmwareInfo::read(&fw);
}

#[test]
fn read_fw_gives_images_in_order() {
    let fw = standard_bundle();
    let info = FirmwareInfo::read(&fw);
    assert_eq!(info.signature, PATCH_SIGNATURE);
    assert_eq!(info.features, FeatureFlags::SystemMode);
    let images = standard_images();
    let ids = [ImageId::UmacPri, ImageId::UmacSec, ImageId::LmacPri, ImageId::LmacSec];
    for k in 0..4 {
        let img = info.images[k].expect("image present");
        assert_eq!(img.ty, ids[k]);
        assert_eq!(img.data, &images[k].1[..]);
    }
}

#[test]
fn read_fw_images_in_any_type_order() {
    let imgs = vec![(3, vec![7u8; 4]), (0, vec![1u8]), (2, vec![2u8, 2]), (1, vec![])];
    let fw = bundle_with(PATCH_SIGNATURE, 4, RPU_VERSION, &imgs);
    let info = FirmwareInfo::read(&fw);
    assert_eq!(info.images[0].unwrap().ty, ImageId::LmacSec);
    assert_eq!(info.get(ImageId::LmacSec), &[7u8, 7, 7, 7][..]);
    assert_eq!(info.get(ImageId::UmacPri), &[1u8][..]);
    assert_eq!(info.get(ImageId::LmacPri), &[2u8, 2][..]);
    assert_eq!(info.get(ImageId::UmacSec), &[] as &[u8]);
}

#[test]
fn get_returns_first_image_of_type() {
    let imgs = vec![(1, vec![1u8]), (1, vec![2u8]), (0, vec![3u8]), (3, vec![4u8])];
    let fw = bundle_with(PATCH_SIGNATURE, 4, RPU_VERSION, &imgs);
    let info = FirmwareInfo::read(&fw);
    assert_eq!(info.get(ImageId::UmacSec), &[1u8][..]);
    assert!(info.has(ImageId::UmacSec));
    assert!(!info.has(ImageId::LmacPri));
}

#[test]
fn check_accepts_trailing_bytes() {
    let mut fw = standard_bundle();
    fw.extend_from_slice(&[0u8; 5]);
    assert!(FirmwareInfo::check(&fw));
}

#[test]
fn check_rejects_short_header() {
    let fw = standard_bundle();
    assert!(!FirmwareInfo::check(&fw[..FW_IMAGE_INFO_SIZE - 1]));
    assert!(!FirmwareInfo::check(&[]));
}

#[test]
fn check_rejects_wrong_signature() {
    let fw = bundle_with(PATCH_SIGNATURE ^ 1, 4, RPU_VERSION, &standard_images());
    assert!(!FirmwareInfo::check(&fw));
}

#[test]
fn check_rejects_wrong_image_count() {
    let imgs = standard_images();
    let fw = bundle_with(PATCH_SIGNATURE, 3, RPU_VERSION, &imgs[..3]);
    assert!(!FirmwareInfo::check(&fw));
}

#[test]
fn check_rejects_wrong_version() {
    let fw = bundle_with(PATCH_SIGNATURE, 4, RPU_VERSION + 1, &standard_images());
    assert!(!FirmwareInfo::check(&fw));
}

#[test]
fn check_rejects_truncated_image() {
    let fw = standard_bundle();
    assert!(!FirmwareInfo::check(&fw[..fw.len() - 1]));
    // Cut inside the header of the last image.
    let last_header = fw.len() - 256 - 8;
    assert!(!FirmwareInfo::check(&fw[..last_header + 4]));
}

#[test]
fn check_rejects_unknown_image_type() {
    let imgs = vec![(0, vec![1u8]), (1, vec![]), (4, vec![]), (3, vec![])];
    let fw = bundle_with(PATCH_SIGNATURE, 4, RPU_VERSION, &imgs);
    assert!(!FirmwareInfo::check(&fw));
}

#[test]
fn rpu_version_packs_fields() {
    assert_eq!(RPU_VERSION, 0x0102_0801);
}

#[test]
fn image_id_numbers() {
    assert_eq!(ImageId::try_from_u32(0), Some(ImageId::UmacPri));
    assert_eq!(ImageId::try_from_u32(1), Some(ImageId::UmacSec));
    assert_eq!(ImageId::try_from_u32(2), Some(ImageId::LmacPri));
    assert_eq!(ImageId::try_from_u32(3), Some(ImageId::LmacSec));
    assert_eq!(ImageId::try_from_u32(4), None);
}

#[test]
fn cursor_reads_fields_in_order() {
    let data = [1u8, 0, 0, 0, 0x78, 0x56, 0x34, 0x12, 9, 8, 7];
    let mut c = Cursor { data: &data, cursor: 0 };
    assert_eq!(c.read_u32(), 1);
    assert_eq!(c.read_u32(), 0x1234_5678);
    assert_eq!(c.cursor, 8);
    let s: [u8; 2] = c.read_slice::<2>();
    assert_eq!(s, [9, 8]);
    assert_eq!(c.get_slice(1), &[7u8][..]);
    assert_eq!(c.cursor, 11);
}

#[test]
fn firmware_image_reads_header_and_data() {
    let data = [2u8, 0, 0, 0, 3, 0, 0, 0, 0xA, 0xB, 0xC, 0xD];
    let mut c = Cursor { data: &data, cursor: 0 };
    let img = FirmwareImage::read(&mut c);
    assert_eq!(img.ty, ImageId::LmacPri);
    assert_eq!(img.data, &[0xAu8, 0xB, 0xC][..]);
    assert_eq!(c.cursor, 11);
}
