//! Parser for the nRF70 firmware patch bundle.
//!
//! The bundle starts with an image-info header (signature, number of
//! images, version, feature flags, length and a hash), followed by the
//! images, each one a header (type and length) and its data.
use vstd::prelude::*;
use crate::bytes::{u32_at, read_u32_le};

verus! {

broadcast use vstd::slice::group_slice_axioms;

/// Length of the hash in the image-info header.
pub const PATCH_HASH_LEN: usize = 32;

/// Signature that starts every patch bundle.
pub const PATCH_SIGNATURE: u32 = 0xDEAD1EAF;

/// Number of images in a patch bundle.
pub const PATCH_NUM_IMAGES: u32 = 4;

pub const RPU_FAMILY: u32 = 1;

pub const RPU_MAJOR_VERSION: u32 = 2;

pub const RPU_MINOR_VERSION: u32 = 8;

pub const RPU_PATCH_VERSION: u32 = 1;

/// The RPU version that a patch bundle must be built for.
pub const RPU_VERSION: u32 = RPU_FAMILY << 24u32 | RPU_MAJOR_VERSION << 16u32 | RPU_MINOR_VERSION
    << 8u32 | RPU_PATCH_VERSION;

/// Size in bytes of the image-info header (`fw_image_info_verify`).
pub const FW_IMAGE_INFO_SIZE: usize = 52;

/// Size in bytes of an image header (`fw_image_verify`).
pub const FW_IMAGE_SIZE: usize = 8;

/// Identifies which core and which part of its patch an image holds.
#[derive(Clone, Copy, Debug, PartialEq, Eq, Structural)]
pub enum ImageId {
    UmacPri,
    UmacSec,
    LmacPri,
    LmacSec,
}

impl ImageId {
    /// The image id with the given number, if there is one.
    pub open spec fn spec_from_u32(v: u32) -> Option<ImageId> {
        if v == 0 {
            Some(ImageId::UmacPri)
        } else if v == 1 {
            Some(ImageId::UmacSec)
        } else if v == 2 {
            Some(ImageId::LmacPri)
        } else if v == 3 {
            Some(ImageId::LmacSec)
        } else {
            None
        }
    }

    pub fn try_from_u32(v: u32) -> (r: Option<ImageId>)
        ensures
            r == Self::spec_from_u32(v),
    {
        if v == 0 {
            Some(ImageId::UmacPri)
        } else if v == 1 {
            Some(ImageId::UmacSec)
        } else if v == 2 {
            Some(ImageId::LmacPri)
        } else if v == 3 {
            Some(ImageId::LmacSec)
        } else {
            None
        }
    }
}

/// Firmware features.
#[derive(Clone, Copy, Debug, PartialEq, Eq, Structural)]
pub enum FeatureFlags {
    SystemMode,
    RadioTest,
    ScanOnly,
    SystemWithRawModes,
}

impl FeatureFlags {
    /// The flag's bit as it is sent to the RPU.
    pub open spec fn spec_value(self) -> u32 {
        match self {
            FeatureFlags::SystemMode => 1,
            FeatureFlags::RadioTest => 2,
            FeatureFlags::ScanOnly => 4,
            FeatureFlags::SystemWithRawModes => 8,
        }
    }

    pub fn value(self) -> (v: u32)
        ensures
            v == self.spec_value(),
    {
        match self {
            FeatureFlags::SystemMode => 1,
            FeatureFlags::RadioTest => 2,
            FeatureFlags::ScanOnly => 4,
            FeatureFlags::SystemWithRawModes => 8,
        }
    }
}

/// Layout of an image header: type and length of the data that follows.
#[allow(non_camel_case_types)]
pub struct fw_image_verify {
    pub type_: u32,
    pub len: u32,
}

/// Layout of the image-info header at the start of a bundle.
#[allow(non_camel_case_types)]
pub struct fw_image_info_verify {
    pub signature: u32,
    pub num_images: u32,
    pub version: u32,
    pub feature_flags: u32,
    pub len: u32,
    pub hash: [u8; 32],
}

// ---------------------------------------------------------------------
// The bundle format.
pub open spec fn header_signature(data: Seq<u8>) -> u32 {
    u32_at(data, 0)
}

pub open spec fn header_num_images(data: Seq<u8>) -> u32 {
    u32_at(data, 4)
}

pub open spec fn header_version(data: Seq<u8>) -> u32 {
    u32_at(data, 8)
}

/// Offset of the header of image `k`: the images follow one another
/// without gaps after the image-info header.
pub open spec fn image_pos(data: Seq<u8>, k: nat) -> int
    decreases k,
{
    if k == 0 {
        FW_IMAGE_INFO_SIZE as int
    } else {
        let p = image_pos(data, (k - 1) as nat);
        p + FW_IMAGE_SIZE + u32_at(data, p + 4)
    }
}

/// The type number in the header of image `k`.
pub open spec fn image_type(data: Seq<u8>, k: nat) -> u32 {
    u32_at(data, image_pos(data, k))
}

/// The data length in the header of image `k`.
pub open spec fn image_len(data: Seq<u8>, k: nat) -> int {
    u32_at(data, image_pos(data, k) + 4) as int
}

/// The data of image `k`.
pub open spec fn image_data(data: Seq<u8>, k: nat) -> Seq<u8> {
    let start = image_pos(data, k) + FW_IMAGE_SIZE;
    data.subrange(start, start + image_len(data, k))
}

/// Image `k` lies inside the bundle and has a known type.
pub open spec fn image_fits(data: Seq<u8>, k: nat) -> bool {
    &&& image_pos(data, k) + FW_IMAGE_SIZE + image_len(data, k) <= data.len()
    &&& ImageId::spec_from_u32(image_type(data, k)) is Some
}

/// A bundle that `FirmwareInfo::read` accepts: the header is complete and
/// names the expected signature, image count and RPU version, and every
/// image lies inside the bundle with a known type.
pub open spec fn firmware_well_formed(data: Seq<u8>) -> bool {
    &&& data.len() >= FW_IMAGE_INFO_SIZE
    &&& header_signature(data) == PATCH_SIGNATURE
    &&& header_num_images(data) == PATCH_NUM_IMAGES
    &&& header_version(data) == RPU_VERSION
    &&& forall|k: nat| k < header_num_images(data) ==> #[trigger] image_fits(data, k)
}

/// The bundle layout: the signature, image count and version are the
/// words at bytes 0, 4 and 8; the first image header is at byte 52; an
/// image header holds the type word and then the length word, the image's
/// data follows its 8-byte header, and the next header follows the data.
pub proof fn lemma_bundle_layout(data: Seq<u8>, k: nat)
    ensures
        header_signature(data) == u32_at(data, 0),
        header_num_images(data) == u32_at(data, 4),
        header_version(data) == u32_at(data, 8),
        image_pos(data, 0) == 52,
        image_type(data, k) == u32_at(data, image_pos(data, k)),
        image_len(data, k) == u32_at(data, image_pos(data, k) + 4),
        image_data(data, k) == data.subrange(
            image_pos(data, k) + 8,
            image_pos(data, k) + 8 + u32_at(data, image_pos(data, k) + 4),
        ),
        image_pos(data, k + 1) == image_pos(data, k) + 8 + u32_at(data, image_pos(data, k) + 4),
{
    lemma_image_pos_step(data, k);
}

/// Image types by value: 0 is the UMAC's primary image, 1 its secondary,
/// 2 the LMAC's primary, 3 its secondary; no other number is an image type.
pub proof fn lemma_image_ids_by_value(v: u32)
    ensures
        ImageId::spec_from_u32(0) == Some(ImageId::UmacPri),
        ImageId::spec_from_u32(1) == Some(ImageId::UmacSec),
        ImageId::spec_from_u32(2) == Some(ImageId::LmacPri),
        ImageId::spec_from_u32(3) == Some(ImageId::LmacSec),
        v > 3 ==> ImageId::spec_from_u32(v) is None,
{
}

pub proof fn lemma_image_pos_step(data: Seq<u8>, k: nat)
    ensures
        image_pos(data, k + 1) == image_pos(data, k) + FW_IMAGE_SIZE + image_len(data, k),
{
    assert(image_pos(data, k + 1) == image_pos(data, k) + FW_IMAGE_SIZE + u32_at(
        data,
        image_pos(data, k) + 4,
    ));
}

pub proof fn lemma_image_pos_lower_bound(data: Seq<u8>, k: nat)
    ensures
        image_pos(data, k) >= FW_IMAGE_INFO_SIZE,
    decreases k,
{
    if k > 0 {
        lemma_image_pos_lower_bound(data, (k - 1) as nat);
    }
}

// ---------------------------------------------------------------------
/// A position in a byte buffer that moves forward as fields are read.
pub struct Cursor<'a> {
    pub data: &'a [u8],
    pub cursor: usize,
}

impl<'a> Cursor<'a> {
    /// Copies the next `N` bytes and moves past them.
    pub fn read_slice<const N: usize>(&mut self) -> (bytes: [u8; N])
        requires
            old(self).cursor + N <= old(self).data@.len(),
        ensures
            final(self).data == old(self).data,
            final(self).cursor == old(self).cursor + N,
            bytes@ == old(self).data@.subrange(
                old(self).cursor as int,
                old(self).cursor + N,
            ),
    {
        assert(self.data.len() == self.data@.len());
        let mut bytes: [u8; N] = vstd::array::array_fill_for_copy_types(0u8);
        let mut i: usize = 0;
        while i < N
            invariant
                0 <= i <= N,
                self.cursor + N <= self.data@.len(),
                self.data.len() == self.data@.len(),
                bytes@.len() == N,
                forall|j: int| 0 <= j < i ==> bytes@[j] == self.data@[self.cursor + j],
            decreases N - i,
        {
            bytes[i] = self.data[self.cursor + i];
            i += 1;
        }
        assert(bytes@ =~= self.data@.subrange(self.cursor as int, self.cursor + N));
        self.cursor += N;
        bytes
    }

    /// Reads the next word and moves past it.
    pub fn read_u32(&mut self) -> (w: u32)
        requires
            old(self).cursor + 4 <= old(self).data@.len(),
        ensures
            final(self).data == old(self).data,
            final(self).cursor == old(self).cursor + 4,
            w == u32_at(old(self).data@, old(self).cursor as int),
    {
        assert(self.data.len() == self.data@.len());
        let w = read_u32_le(self.data, self.cursor);
        self.cursor += 4;
        w
    }

    /// Get a slice and add to the cursor's position.
    pub fn get_slice(&mut self, len: usize) -> (slice: &'a [u8])
        requires
            old(self).cursor + len <= old(self).data@.len(),
        ensures
            final(self).data == old(self).data,
            final(self).cursor == old(self).cursor + len,
            slice@ == old(self).data@.subrange(
                old(self).cursor as int,
                old(self).cursor + len,
            ),
    {
        assert(self.data.len() == self.data@.len());
        let slice = vstd::slice::slice_subrange(self.data, self.cursor, self.cursor + len);
        self.cursor += len;
        slice
    }
}

/// One image of a bundle: its type and a view of its data.
#[derive(Clone, Copy)]
pub struct FirmwareImage<'a> {
    pub data: &'a [u8],
    pub ty: ImageId,
}

impl<'a> FirmwareImage<'a> {
    /// Reads an image header and its data at the cursor.
    pub fn read(cursor: &mut Cursor<'a>) -> (image: Self)
        requires
            old(cursor).cursor + FW_IMAGE_SIZE <= old(cursor).data@.len(),
            old(cursor).cursor + FW_IMAGE_SIZE + u32_at(
                old(cursor).data@,
                old(cursor).cursor + 4,
            ) <= old(cursor).data@.len(),
            ImageId::spec_from_u32(u32_at(old(cursor).data@, old(cursor).cursor as int)) is Some,
        ensures
            final(cursor).data == old(cursor).data,
            final(cursor).cursor == old(cursor).cursor + FW_IMAGE_SIZE + u32_at(
                old(cursor).data@,
                old(cursor).cursor + 4,
            ),
            Some(image.ty) == ImageId::spec_from_u32(
                u32_at(old(cursor).data@, old(cursor).cursor as int),
            ),
            image.data@ == old(cursor).data@.subrange(
                old(cursor).cursor + FW_IMAGE_SIZE,
                old(cursor).cursor + FW_IMAGE_SIZE + u32_at(
                    old(cursor).data@,
                    old(cursor).cursor + 4,
                ),
            ),
    {
        let ty = cursor.read_u32();
        let len = cursor.read_u32();
        let data = cursor.get_slice(len as usize);
        let ty = match ImageId::try_from_u32(ty) {
            Some(t) => t,
            None => {
                proof {
                    assert(false);
                }
                ImageId::UmacPri
            },
        };
        FirmwareImage { data, ty }
    }
}

/// Image `k` of the bundle, as `FirmwareInfo::read` gives it.
pub open spec fn image_parsed(image: Option<FirmwareImage>, data: Seq<u8>, k: nat) -> bool {
    &&& image matches Some(img)
    &&& Some(img.ty) == ImageId::spec_from_u32(image_type(data, k))
    &&& img.data@ == image_data(data, k)
}

/// The contents of a patch bundle.
pub struct FirmwareInfo<'a> {
    pub images: [Option<FirmwareImage<'a>>; 4],
    pub signature: u32,
    pub features: FeatureFlags,
}

impl<'a> FirmwareInfo<'a> {
    /// `self` holds the contents of the bundle `data`: its signature, the
    /// system-mode feature, and its images in order, one per slot.
    pub open spec fn parsed_from(&self, data: Seq<u8>) -> bool {
        &&& self.signature == header_signature(data)
        &&& self.features == FeatureFlags::SystemMode
        &&& forall|k: int|
            0 <= k < 4 ==> if k < header_num_images(data) {
                image_parsed(#[trigger] self.images@[k], data, k as nat)
            } else {
                self.images@[k] is None
            }
    }

    /// Parses a patch bundle.
    ///
    /// The bundle must be complete, and its signature, image count and RPU
    /// version must be the expected ones (see `check`).
    pub fn read(data: &'a [u8]) -> (info: Self)
        requires
            firmware_well_formed(data@),
        ensures
            info.parsed_from(data@),
    {
        let mut cursor = Cursor { data, cursor: 0 };

        // This must match the layout of fw_image_info_verify.
        let signature = cursor.read_u32();
        let num_images = cursor.read_u32();
        let version = cursor.read_u32();
        let feature_flags = cursor.read_u32();
        let len = cursor.read_u32();
        let hash = cursor.read_slice::<PATCH_HASH_LEN>();
        assert(version == RPU_VERSION);
        assert(num_images == PATCH_NUM_IMAGES);

        let mut images: [Option<FirmwareImage<'a>>; 4] = [None, None, None, None];
        let mut i: u32 = 0;
        while i < num_images
            invariant
                firmware_well_formed(data@),
                num_images == header_num_images(data@),
                num_images == 4,
                0 <= i <= num_images,
                cursor.data == data,
                cursor.cursor == image_pos(data@, i as nat),
                forall|k: int|
                    0 <= k < 4 ==> if k < i {
                        image_parsed(#[trigger] images@[k], data@, k as nat)
                    } else {
                        images@[k] is None
                    },
            decreases num_images - i,
        {
            proof {
                assert(image_fits(data@, i as nat));
                lemma_image_pos_lower_bound(data@, i as nat);
                lemma_image_pos_step(data@, i as nat);
            }
            let image = FirmwareImage::read(&mut cursor);
            images[i as usize] = Some(image);
            i += 1;
        }

        // Every image is accounted for: the parse ended where the last image ends.
        proof {
            assert(cursor.cursor == image_pos(data@, num_images as nat));
        }

        FirmwareInfo { images, signature, features: FeatureFlags::SystemMode }
    }

    /// Whether `read` accepts `data`: the header is complete and as
    /// expected, and every image lies inside the bundle with a known type.
    pub fn check(data: &[u8]) -> (ok: bool)
        ensures
            ok == firmware_well_formed(data@),
    {
        assert(data.len() == data@.len());
        if data.len() < FW_IMAGE_INFO_SIZE {
            return false;
        }
        let signature = read_u32_le(data, 0);
        let num_images = read_u32_le(data, 4);
        let version = read_u32_le(data, 8);
        if signature != PATCH_SIGNATURE || num_images != PATCH_NUM_IMAGES || version
            != RPU_VERSION {
            return false;
        }
        let mut pos: usize = FW_IMAGE_INFO_SIZE;
        let mut k: u32 = 0;
        while k < num_images
            invariant
                data.len() == data@.len(),
                data@.len() >= FW_IMAGE_INFO_SIZE,
                num_images == header_num_images(data@),
                num_images == PATCH_NUM_IMAGES,
                0 <= k <= num_images,
                pos == image_pos(data@, k as nat),
                pos <= data@.len(),
                forall|j: nat| j < k ==> #[trigger] image_fits(data@, j),
            decreases num_images - k,
        {
            proof {
                lemma_image_pos_step(data@, k as nat);
            }
            if data.len() - pos < FW_IMAGE_SIZE {
                assert(!image_fits(data@, k as nat));
                return false;
            }
            let ty = read_u32_le(data, pos);
            let len = read_u32_le(data, pos + 4);
            if data.len() - pos - FW_IMAGE_SIZE < len as usize {
                assert(!image_fits(data@, k as nat));
                return false;
            }
            if ImageId::try_from_u32(ty).is_none() {
                assert(!image_fits(data@, k as nat));
                return false;
            }
            assert(image_fits(data@, k as nat));
            pos = pos + FW_IMAGE_SIZE + len as usize;
            k += 1;
        }
        true
    }

    /// Slot `k` holds an image of type `id`.
    pub open spec fn slot_has(&self, k: int, id: ImageId) -> bool {
        self.images@[k] matches Some(img) && img.ty == id
    }

    /// Some slot holds an image of type `id`.
    pub open spec fn has_image(&self, id: ImageId) -> bool {
        exists|k: int| 0 <= k < 4 && self.slot_has(k, id)
    }

    /// Whether some slot holds an image of type `id`.
    pub fn has(&self, id: ImageId) -> (b: bool)
        ensures
            b == self.has_image(id),
    {
        let mut i: usize = 0;
        while i < 4
            invariant
                0 <= i <= 4,
                forall|j: int| 0 <= j < i ==> !#[trigger] self.slot_has(j, id),
            decreases 4 - i,
        {
            if let Some(image) = self.images[i] {
                if image.ty == id {
                    assert(self.slot_has(i as int, id));
                    return true;
                }
            }
            i += 1;
        }
        false
    }

    /// After parsing a bundle, slot `k` holds an image of type `id` exactly
    /// when the bundle's image `k` has that type; so `get` finds every type
    /// that the bundle holds, and gives the data of the first image of it.
    pub proof fn lemma_get_after_read(&self, data: Seq<u8>, id: ImageId)
        requires
            firmware_well_formed(data),
            self.parsed_from(data),
        ensures
            forall|k: int|
                0 <= k < 4 ==> (#[trigger] self.slot_has(k, id) <==> ImageId::spec_from_u32(
                    image_type(data, k as nat),
                ) == Some(id)),
            forall|k: int|
                0 <= k < 4 && #[trigger] self.slot_has(k, id) ==> self.images@[k].unwrap().data@
                    == image_data(data, k as nat),
    {
        assert forall|k: int| 0 <= k < 4 implies (#[trigger] self.slot_has(k, id)
            <==> ImageId::spec_from_u32(image_type(data, k as nat)) == Some(id)) by {
            assert(image_parsed(self.images@[k], data, k as nat));
        }
        assert forall|k: int| 0 <= k < 4 && #[trigger] self.slot_has(k, id) implies self.images@[
            k
        ].unwrap().data@ == image_data(data, k as nat) by {
            assert(image_parsed(self.images@[k], data, k as nat));
        }
    }

    /// The data of the first image of type `id`.
    pub fn get(&self, id: ImageId) -> (data: &'a [u8])
        requires
            self.has_image(id),
        ensures
            exists|k: int|
                0 <= k < 4 && self.slot_has(k, id) && data@ == self.images@[k].unwrap().data@
                    && forall|j: int| 0 <= j < k ==> !#[trigger] self.slot_has(j, id),
    {
        let mut i: usize = 0;
        while i < 4
            invariant
                0 <= i <= 4,
                self.has_image(id),
                forall|j: int| 0 <= j < i ==> !#[trigger] self.slot_has(j, id),
            decreases 4 - i,
        {
            if let Some(image) = self.images[i] {
                if image.ty == id {
                    assert(self.slot_has(i as int, id));
                    return image.data;
                }
            }
            i += 1;
        }
        proof {
            let k = choose|k: int| 0 <= k < 4 && self.slot_has(k, id);
            assert(!self.slot_has(k, id));
        }
        vstd::pervasive::unreached()
    }
}

} // verus!
