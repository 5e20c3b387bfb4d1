//! Image Transfer interface class (class id 18): a firmware or data image
//! sent block by block, then verified and activated.
use vstd::prelude::*;
use crate::cosem_object::{denied, invalid, yields, CosemObject};
use crate::data_object::{copy_bytes, is_octets, ok_octets, DataObject};
use crate::error::{access_denied, invalid_data, invalid_data_number, invalid_data_text, text_around_two, DlmsError, DlmsResult};
use crate::obis::ObisCode;
use crate::selective_access::SelectiveAccessDescriptor;

verus! {

/// State of an image transfer.
#[derive(Debug, Clone, Copy, PartialEq, Eq, Structural)]
pub enum ImageTransferStatus {
    Initiated,
    InProgress,
    Verified,
    VerificationFailed,
    TransferFailed,
    Idle,
}

impl ImageTransferStatus {
    pub open spec fn spec_to_u8(self) -> u8 {
        match self {
            ImageTransferStatus::Initiated => 0,
            ImageTransferStatus::InProgress => 1,
            ImageTransferStatus::Verified => 2,
            ImageTransferStatus::VerificationFailed => 3,
            ImageTransferStatus::TransferFailed => 4,
            ImageTransferStatus::Idle => 5,
        }
    }

    /// The status of a wire code; unknown codes read as `Idle`.
    pub open spec fn spec_from_u8(value: u8) -> ImageTransferStatus {
        match value {
            0 => ImageTransferStatus::Initiated,
            1 => ImageTransferStatus::InProgress,
            2 => ImageTransferStatus::Verified,
            3 => ImageTransferStatus::VerificationFailed,
            4 => ImageTransferStatus::TransferFailed,
            _ => ImageTransferStatus::Idle,
        }
    }

    /// Initiated, in progress or verified.
    pub open spec fn spec_is_active(self) -> bool {
        self == ImageTransferStatus::Initiated || self == ImageTransferStatus::InProgress || self
            == ImageTransferStatus::Verified
    }

    pub fn from_u8(value: u8) -> (r: ImageTransferStatus)
        ensures
            r == ImageTransferStatus::spec_from_u8(value),
    {
        match value {
            0 => ImageTransferStatus::Initiated,
            1 => ImageTransferStatus::InProgress,
            2 => ImageTransferStatus::Verified,
            3 => ImageTransferStatus::VerificationFailed,
            4 => ImageTransferStatus::TransferFailed,
            _ => ImageTransferStatus::Idle,
        }
    }

    pub fn to_u8(self) -> (r: u8)
        ensures
            r == self.spec_to_u8(),
    {
        match self {
            ImageTransferStatus::Initiated => 0,
            ImageTransferStatus::InProgress => 1,
            ImageTransferStatus::Verified => 2,
            ImageTransferStatus::VerificationFailed => 3,
            ImageTransferStatus::TransferFailed => 4,
            ImageTransferStatus::Idle => 5,
        }
    }

    pub fn is_active(self) -> (r: bool)
        ensures
            r == self.spec_is_active(),
    {
        matches!(self, ImageTransferStatus::Initiated | ImageTransferStatus::InProgress | ImageTransferStatus::Verified)
    }

    pub fn is_failed(self) -> (r: bool)
        ensures
            r == (self == ImageTransferStatus::VerificationFailed || self == ImageTransferStatus::TransferFailed),
    {
        matches!(self, ImageTransferStatus::VerificationFailed | ImageTransferStatus::TransferFailed)
    }

    pub fn is_verified(self) -> (r: bool)
        ensures
            r == (self == ImageTransferStatus::Verified),
    {
        matches!(self, ImageTransferStatus::Verified)
    }
}

/// Every status survives the trip through its wire code.
pub proof fn lemma_image_status_codes(s: ImageTransferStatus)
    ensures
        ImageTransferStatus::spec_from_u8(s.spec_to_u8()) == s,
{
}

/// Identification, size, checksum and signature of an image.
#[derive(Debug, Clone, PartialEq, Eq)]
pub struct ImageInfo {
    pub image_identification: Vec<u8>,
    pub image_size: u32,
    pub checksum: Vec<u8>,
    pub signature: Vec<u8>,
}

/// The state of an [`ImageInfo`].
pub struct ImageInfoView {
    pub image_identification: Seq<u8>,
    pub image_size: u32,
    pub checksum: Seq<u8>,
    pub signature: Seq<u8>,
}

impl View for ImageInfo {
    type V = ImageInfoView;

    open spec fn view(&self) -> ImageInfoView {
        ImageInfoView {
            image_identification: self.image_identification@,
            image_size: self.image_size,
            checksum: self.checksum@,
            signature: self.signature@,
        }
    }
}

/// The size carried by an `Unsigned32` or `Unsigned16` element.
pub open spec fn size_of(d: DataObject) -> Option<u32> {
    match d {
        DataObject::Unsigned32(v) => Some(v),
        DataObject::Unsigned16(v) => Some(v as u32),
        _ => None,
    }
}

/// The bytes of an optional octet-string element; none stands for empty.
pub open spec fn optional_octets(arr: Seq<DataObject>, i: int) -> Seq<u8> {
    if i < arr.len() {
        match arr[i] {
            DataObject::OctetString(b) => b@,
            _ => Seq::empty(),
        }
    } else {
        Seq::empty()
    }
}

impl ImageInfo {
    pub fn new(image_identification: Vec<u8>, image_size: u32) -> (r: ImageInfo)
        ensures
            r@ == (ImageInfoView {
                image_identification: image_identification@,
                image_size,
                checksum: Seq::empty(),
                signature: Seq::empty(),
            }),
    {
        ImageInfo { image_identification, image_size, checksum: Vec::new(), signature: Vec::new() }
    }

    pub fn with_checksum(self, checksum: Vec<u8>) -> (r: ImageInfo)
        ensures
            r@ == (ImageInfoView { checksum: checksum@, ..self@ }),
    {
        ImageInfo { checksum, ..self }
    }

    pub fn with_signature(self, signature: Vec<u8>) -> (r: ImageInfo)
        ensures
            r@ == (ImageInfoView { signature: signature@, ..self@ }),
    {
        ImageInfo { signature, ..self }
    }

    /// `d` is `[OctetString(id), Unsigned32(size), OctetString(checksum),
    /// OctetString(signature)]`.
    pub open spec fn is_encoding(self, d: DataObject) -> bool {
        d matches DataObject::Array(arr) && arr@.len() == 4 && is_octets(arr@[0], self@.image_identification)
            && arr@[1] == DataObject::Unsigned32(self.image_size) && is_octets(arr@[2], self@.checksum) && is_octets(
            arr@[3],
            self@.signature,
        )
    }

    /// The image an array `[OctetString(id), Unsigned32 or Unsigned16(size),
    /// ..]` denotes; a missing or non-octet-string checksum or signature is
    /// empty.
    pub open spec fn spec_from_data_object(d: DataObject) -> Option<ImageInfoView> {
        match d {
            DataObject::Array(arr) => if arr@.len() >= 2 {
                match (arr@[0], size_of(arr@[1])) {
                    (DataObject::OctetString(id), Some(size)) => Some(
                        ImageInfoView {
                            image_identification: id@,
                            image_size: size,
                            checksum: optional_octets(arr@, 2),
                            signature: optional_octets(arr@, 3),
                        },
                    ),
                    _ => None,
                }
            } else {
                None
            },
            _ => None,
        }
    }

    /// The array form; reading it back gives the image information again.
    pub fn to_data_object(&self) -> (r: DataObject)
        ensures
            self.is_encoding(r),
            ImageInfo::spec_from_data_object(r) == Some(self@),
    {
        let mut items: Vec<DataObject> = Vec::new();
        items.push(DataObject::OctetString(copy_bytes(&self.image_identification)));
        items.push(DataObject::Unsigned32(self.image_size));
        items.push(DataObject::OctetString(copy_bytes(&self.checksum)));
        items.push(DataObject::OctetString(copy_bytes(&self.signature)));
        DataObject::Array(items)
    }

    /// Reads image information from its array form.
    pub fn from_data_object(value: &DataObject) -> (r: DlmsResult<ImageInfo>)
        ensures
            r is Ok <==> ImageInfo::spec_from_data_object(*value) is Some,
            r matches Ok(info) ==> ImageInfo::spec_from_data_object(*value) == Some(info@),
            r is Err ==> invalid(r),
    {
        match value {
            DataObject::Array(arr) => {
                if arr.len() < 2 {
                    return Err(invalid_data("Expected Array for ImageInfo"));
                }
                let image_identification = match &arr[0] {
                    DataObject::OctetString(bytes) => copy_bytes(bytes),
                    _ => return Err(invalid_data("Expected OctetString for image_identification")),
                };
                let image_size = match &arr[1] {
                    DataObject::Unsigned32(size) => *size,
                    DataObject::Unsigned16(size) => *size as u32,
                    _ => return Err(invalid_data("Expected Unsigned32 for image_size")),
                };
                let checksum = if arr.len() > 2 {
                    match &arr[2] {
                        DataObject::OctetString(bytes) => copy_bytes(bytes),
                        _ => Vec::new(),
                    }
                } else {
                    Vec::new()
                };
                let signature = if arr.len() > 3 {
                    match &arr[3] {
                        DataObject::OctetString(bytes) => copy_bytes(bytes),
                        _ => Vec::new(),
                    }
                } else {
                    Vec::new()
                };
                Ok(ImageInfo { image_identification, image_size, checksum, signature })
            },
            _ => Err(invalid_data("Expected Array for ImageInfo")),
        }
    }

    /// A copy of the information.
    pub fn copy(&self) -> (r: ImageInfo)
        ensures
            r@ == self@,
    {
        ImageInfo {
            image_identification: copy_bytes(&self.image_identification),
            image_size: self.image_size,
            checksum: copy_bytes(&self.checksum),
            signature: copy_bytes(&self.signature),
        }
    }
}

/// The states of an optional image information.
pub open spec fn opt_info(o: Option<ImageInfo>) -> Option<ImageInfoView> {
    match o {
        Some(i) => Some(i@),
        None => None,
    }
}

/// The state of an [`ImageTransfer`].
pub struct ImageTransferView {
    pub logical_name: ObisCode,
    pub image_size: u32,
    pub transferred_blocks: u32,
    pub first_not_transferred_block: u32,
    pub block_size: u32,
    pub transfer_enabled: bool,
    pub status: ImageTransferStatus,
    pub image_to_activate_info: Option<ImageInfoView>,
    pub current_image_info: Option<ImageInfoView>,
    pub image_data: Seq<u8>,
}

impl ImageTransferView {
    /// All blocks of the image have arrived: the blocks received times the
    /// block size cover the image size.
    pub open spec fn complete(self) -> bool {
        self.transferred_blocks * self.block_size >= self.image_size
    }

    /// A new transfer may start: transfers are enabled and none is active.
    pub open spec fn can_initiate(self) -> bool {
        self.transfer_enabled && !self.status.spec_is_active()
    }

    /// The block is taken: transfers are enabled, one is active, and it is
    /// the next block expected.
    pub open spec fn accepts_block(self, block_number: u32) -> bool {
        self.transfer_enabled && self.status.spec_is_active() && block_number == self.first_not_transferred_block
    }

    /// The state after a new transfer of `image_size` bytes starts.
    pub open spec fn initiated(self, image_size: u32, identification: Seq<u8>) -> ImageTransferView {
        ImageTransferView {
            image_size,
            transferred_blocks: 0,
            first_not_transferred_block: 0,
            status: ImageTransferStatus::Initiated,
            image_data: Seq::empty(),
            current_image_info: Some(
                ImageInfoView { image_identification: identification, image_size, checksum: Seq::empty(), signature: Seq::empty() },
            ),
            ..self
        }
    }

    /// The state after a block is taken: its bytes are appended, both
    /// counters move on, and the transfer is verified once complete and in
    /// progress otherwise.
    pub open spec fn with_block(self, data: Seq<u8>) -> ImageTransferView {
        let next = ImageTransferView {
            image_data: self.image_data + data,
            transferred_blocks: (self.transferred_blocks + 1) as u32,
            first_not_transferred_block: (self.first_not_transferred_block + 1) as u32,
            ..self
        };
        ImageTransferView {
            status: if next.complete() { ImageTransferStatus::Verified } else { ImageTransferStatus::InProgress },
            ..next
        }
    }

    /// The state after the transfer is abandoned or activated: idle, with
    /// counters and data cleared.
    pub open spec fn cleared(self) -> ImageTransferView {
        ImageTransferView {
            status: ImageTransferStatus::Idle,
            transferred_blocks: 0,
            first_not_transferred_block: 0,
            image_data: Seq::empty(),
            ..self
        }
    }
}

/// A fresh object: nothing transferred, blocks of 256 bytes, transfers
/// enabled, idle.
pub open spec fn image_transfer_defaults(logical_name: ObisCode) -> ImageTransferView {
    ImageTransferView {
        logical_name,
        image_size: 0,
        transferred_blocks: 0,
        first_not_transferred_block: 0,
        block_size: 256,
        transfer_enabled: true,
        status: ImageTransferStatus::Idle,
        image_to_activate_info: None,
        current_image_info: None,
        image_data: Seq::empty(),
    }
}

/// `d` is `Null` for no image and the array form of the image otherwise.
pub open spec fn is_optional_info(d: DataObject, o: Option<ImageInfoView>) -> bool {
    match o {
        None => d == DataObject::Null,
        Some(i) => ImageInfo::spec_from_data_object(d) == Some(i) && (d matches DataObject::Array(arr) && arr@.len()
            == 4),
    }
}

/// Image Transfer interface class (class id 18).
pub struct ImageTransfer {
    logical_name: ObisCode,
    image_size: u32,
    image_transferred_blocks: u32,
    image_first_not_transferred_block: u32,
    block_size: u32,
    image_transfer_enabled: bool,
    image_transfer_status: ImageTransferStatus,
    image_to_activate_info: Option<ImageInfo>,
    current_image_info: Option<ImageInfo>,
    image_data: Vec<u8>,
}

impl View for ImageTransfer {
    type V = ImageTransferView;

    closed spec fn view(&self) -> ImageTransferView {
        ImageTransferView {
            logical_name: self.logical_name,
            image_size: self.image_size,
            transferred_blocks: self.image_transferred_blocks,
            first_not_transferred_block: self.image_first_not_transferred_block,
            block_size: self.block_size,
            transfer_enabled: self.image_transfer_enabled,
            status: self.image_transfer_status,
            image_to_activate_info: opt_info(self.image_to_activate_info),
            current_image_info: opt_info(self.current_image_info),
            image_data: self.image_data@,
        }
    }
}

fn copy_opt_info(o: &Option<ImageInfo>) -> (r: Option<ImageInfo>)
    ensures
        opt_info(r) == opt_info(*o),
{
    match o {
        Some(i) => Some(i.copy()),
        None => None,
    }
}

impl ImageTransfer {
    pub const CLASS_ID: u16 = 18;
    pub const ATTR_LOGICAL_NAME: u8 = 1;
    pub const ATTR_IMAGE_SIZE: u8 = 2;
    pub const ATTR_IMAGE_TRANSFERRED_BLOCKS: u8 = 3;
    pub const ATTR_IMAGE_FIRST_NOT_TRANSFERRED_BLOCK: u8 = 4;
    pub const ATTR_IMAGE_TRANSFER_ENABLED: u8 = 5;
    pub const ATTR_IMAGE_TRANSFER_STATUS: u8 = 6;
    pub const ATTR_IMAGE_TO_ACTIVATE_INFO: u8 = 7;
    pub const METHOD_IMAGE_TRANSFORM_INITIATE: u8 = 1;
    pub const METHOD_IMAGE_TRANSFORM_BLOCK: u8 = 2;
    pub const METHOD_IMAGE_TRANSFORM_VERIFY: u8 = 3;
    pub const METHOD_IMAGE_TRANSFORM_ACTIVATE: u8 = 4;
    pub const DEFAULT_BLOCK_SIZE: u32 = 256;

    /// Default OBIS code 0-0:18.0.0.255.
    pub fn default_obis() -> (r: ObisCode)
        ensures
            r == (ObisCode { a: 0, b: 0, c: 18, d: 0, e: 0, f: 255 }),
    {
        ObisCode::new(0, 0, 18, 0, 0, 255)
    }

    pub fn new(logical_name: ObisCode) -> (r: ImageTransfer)
        ensures
            r@ == image_transfer_defaults(logical_name),
    {
        ImageTransfer {
            logical_name,
            image_size: 0,
            image_transferred_blocks: 0,
            image_first_not_transferred_block: 0,
            block_size: Self::DEFAULT_BLOCK_SIZE,
            image_transfer_enabled: true,
            image_transfer_status: ImageTransferStatus::Idle,
            image_to_activate_info: None,
            current_image_info: None,
            image_data: Vec::new(),
        }
    }

    pub fn with_default_obis() -> (r: ImageTransfer)
        ensures
            r@ == image_transfer_defaults(ObisCode { a: 0, b: 0, c: 18, d: 0, e: 0, f: 255 }),
    {
        Self::new(Self::default_obis())
    }

    pub fn image_size(&self) -> (r: u32)
        ensures
            r == self@.image_size,
    {
        self.image_size
    }

    pub fn image_transferred_blocks(&self) -> (r: u32)
        ensures
            r == self@.transferred_blocks,
    {
        self.image_transferred_blocks
    }

    pub fn image_first_not_transferred_block(&self) -> (r: u32)
        ensures
            r == self@.first_not_transferred_block,
    {
        self.image_first_not_transferred_block
    }

    pub fn block_size(&self) -> (r: u32)
        ensures
            r == self@.block_size,
    {
        self.block_size
    }

    pub fn set_block_size(&mut self, size: u32)
        ensures
            final(self)@ == (ImageTransferView { block_size: size, ..old(self)@ }),
    {
        self.block_size = size;
    }

    pub fn is_transfer_enabled(&self) -> (r: bool)
        ensures
            r == self@.transfer_enabled,
    {
        self.image_transfer_enabled
    }

    pub fn set_transfer_enabled(&mut self, enabled: bool)
        ensures
            final(self)@ == (ImageTransferView { transfer_enabled: enabled, ..old(self)@ }),
    {
        self.image_transfer_enabled = enabled;
    }

    pub fn transfer_status(&self) -> (r: ImageTransferStatus)
        ensures
            r == self@.status,
    {
        self.image_transfer_status
    }

    pub fn image_to_activate_info(&self) -> (r: Option<ImageInfo>)
        ensures
            opt_info(r) == self@.image_to_activate_info,
    {
        copy_opt_info(&self.image_to_activate_info)
    }

    pub fn set_image_to_activate_info(&mut self, info: ImageInfo)
        ensures
            final(self)@ == (ImageTransferView { image_to_activate_info: Some(info@), ..old(self)@ }),
    {
        self.image_to_activate_info = Some(info);
    }

    /// Starts a transfer of `image_size` bytes; fails, changing nothing,
    /// when transfers are disabled or one is active.
    pub fn initiate_transfer(&mut self, image_size: u32, image_identification: Vec<u8>) -> (r: DlmsResult<()>)
        ensures
            r is Ok <==> old(self)@.can_initiate(),
            r is Ok ==> final(self)@ == old(self)@.initiated(image_size, image_identification@),
            r is Err ==> invalid(r) && final(self)@ == old(self)@,
    {
        if !self.image_transfer_enabled {
            return Err(invalid_data("Image transfer is not enabled"));
        }
        if self.image_transfer_status.is_active() {
            return Err(invalid_data("Image transfer already in progress"));
        }
        self.image_size = image_size;
        self.image_transferred_blocks = 0;
        self.image_first_not_transferred_block = 0;
        self.image_transfer_status = ImageTransferStatus::Initiated;
        self.image_data = Vec::new();
        self.current_image_info = Some(ImageInfo::new(image_identification, image_size));
        Ok(())
    }

    /// Takes block `block_number`; fails, changing nothing, when transfers
    /// are disabled, none is active, or it is not the next block expected.
    pub fn transfer_block(&mut self, block_number: u32, block_data: Vec<u8>) -> (r: DlmsResult<()>)
        requires
            old(self)@.accepts_block(block_number) ==> old(self)@.transferred_blocks < u32::MAX
                && old(self)@.first_not_transferred_block < u32::MAX,
        ensures
            r is Ok <==> old(self)@.accepts_block(block_number),
            r is Ok ==> final(self)@ == old(self)@.with_block(block_data@),
            r is Err ==> invalid(r) && final(self)@ == old(self)@,
    {
        if !self.image_transfer_enabled {
            return Err(invalid_data("Image transfer is not enabled"));
        }
        if !self.image_transfer_status.is_active() {
            return Err(invalid_data("No image transfer in progress"));
        }
        if block_number != self.image_first_not_transferred_block {
            return Err(invalid_data_text(text_around_two("Expected block ", self.image_first_not_transferred_block as u64, ", got ", block_number as u64, "")));
        }
        let mut i: usize = 0;
        let ghost start = self.image_data@;
        while i < block_data.len()
            invariant
                i <= block_data@.len(),
                self.image_data@ == start + block_data@.take(i as int),
                start == old(self).image_data@,
                self.logical_name == old(self).logical_name,
                self.image_size == old(self).image_size,
                self.image_transferred_blocks == old(self).image_transferred_blocks,
                self.image_first_not_transferred_block == old(self).image_first_not_transferred_block,
                self.block_size == old(self).block_size,
                self.image_transfer_enabled == old(self).image_transfer_enabled,
                self.image_transfer_status == old(self).image_transfer_status,
                self.image_to_activate_info == old(self).image_to_activate_info,
                self.current_image_info == old(self).current_image_info,
            decreases block_data@.len() - i,
        {
            self.image_data.push(block_data[i]);
            i = i + 1;
            assert(self.image_data@ =~= start + block_data@.take(i as int));
        }
        assert(block_data@.take(block_data@.len() as int) =~= block_data@);
        self.image_transferred_blocks = self.image_transferred_blocks + 1;
        self.image_first_not_transferred_block = self.image_first_not_transferred_block + 1;
        self.image_transfer_status = ImageTransferStatus::InProgress;
        let blocks = self.image_transferred_blocks as u64;
        let size = self.block_size as u64;
        assert(blocks * size <= u32::MAX * u32::MAX) by (nonlinear_arith)
            requires
                blocks <= u32::MAX,
                size <= u32::MAX,
        ;
        let transferred_bytes = blocks * size;
        if transferred_bytes >= self.image_size as u64 {
            self.image_transfer_status = ImageTransferStatus::Verified;
        }
        Ok(())
    }

    /// Checks that all blocks have arrived: the transfer becomes verified if
    /// so and fails verification otherwise; fails, changing nothing, when no
    /// transfer is active.
    pub fn verify_image(&mut self) -> (r: DlmsResult<bool>)
        ensures
            r is Ok <==> old(self)@.status.spec_is_active(),
            r matches Ok(v) ==> v == old(self)@.complete() && final(self)@ == (ImageTransferView {
                status: if v { ImageTransferStatus::Verified } else { ImageTransferStatus::VerificationFailed },
                ..old(self)@
            }),
            r is Err ==> invalid(r) && final(self)@ == old(self)@,
    {
        if !self.image_transfer_status.is_active() {
            return Err(invalid_data("No image transfer to verify"));
        }
        let blocks = self.image_transferred_blocks as u64;
        let size = self.block_size as u64;
        assert(blocks * size <= u32::MAX * u32::MAX) by (nonlinear_arith)
            requires
                blocks <= u32::MAX,
                size <= u32::MAX,
        ;
        let transferred_bytes = blocks * size;
        let verified = transferred_bytes >= self.image_size as u64;
        if verified {
            self.image_transfer_status = ImageTransferStatus::Verified;
        } else {
            self.image_transfer_status = ImageTransferStatus::VerificationFailed;
        }
        Ok(verified)
    }

    /// Activates a verified image: its information becomes the image to
    /// activate and the transfer is cleared; fails, changing nothing, unless
    /// the transfer is verified.
    pub fn activate_image(&mut self) -> (r: DlmsResult<()>)
        ensures
            r is Ok <==> old(self)@.status == ImageTransferStatus::Verified,
            r is Ok ==> final(self)@ == (ImageTransferView {
                image_to_activate_info: match old(self)@.current_image_info {
                    Some(i) => Some(i),
                    None => old(self)@.image_to_activate_info,
                },
                ..old(self)@.cleared()
            }),
            r is Err ==> invalid(r) && final(self)@ == old(self)@,
    {
        if !self.image_transfer_status.is_verified() {
            return Err(invalid_data("Cannot activate image: not verified"));
        }
        match &self.current_image_info {
            Some(info) => {
                self.image_to_activate_info = Some(info.copy());
            },
            None => {},
        }
        self.image_transfer_status = ImageTransferStatus::Idle;
        self.image_transferred_blocks = 0;
        self.image_first_not_transferred_block = 0;
        self.image_data = Vec::new();
        Ok(())
    }

    /// Abandons the transfer: idle, counters, data and current image cleared.
    pub fn reset(&mut self)
        ensures
            final(self)@ == (ImageTransferView { current_image_info: None, ..old(self)@.cleared() }),
    {
        self.image_transfer_status = ImageTransferStatus::Idle;
        self.image_transferred_blocks = 0;
        self.image_first_not_transferred_block = 0;
        self.image_data = Vec::new();
        self.current_image_info = None;
    }

    /// The number of blocks of the image, rounding up.
    pub fn total_blocks(&self) -> (r: u32)
        requires
            self@.block_size > 0,
            self@.image_size + self@.block_size <= u32::MAX,
        ensures
            r == (self@.image_size + self@.block_size - 1) / (self@.block_size as int),
    {
        (self.image_size + self.block_size - 1) / self.block_size
    }

    /// The percentage of the blocks transferred, cut to a byte; 0 for an
    /// image without blocks.
    pub fn progress(&self) -> (r: u8)
        requires
            self@.block_size > 0,
            self@.image_size + self@.block_size <= u32::MAX,
            self@.transferred_blocks * 100 <= u32::MAX,
        ensures
            ({
                let total = (self@.image_size + self@.block_size - 1) / (self@.block_size as int);
                r == (if total == 0 { 0 } else { ((self@.transferred_blocks * 100) / total) as u8 })
            }),
    {
        let total = self.total_blocks();
        if total == 0 {
            return 0;
        }
        ((self.image_transferred_blocks * 100) / total) as u8
    }
}

/// The block (method 2) parameters: `[Unsigned32 or Unsigned16(number),
/// OctetString(data), ..]`.
pub open spec fn block_params(p: Option<DataObject>) -> Option<(u32, Seq<u8>)> {
    match p {
        Some(DataObject::Array(arr)) => if arr@.len() >= 2 {
            match (size_of(arr@[0]), arr@[1]) {
                (Some(n), DataObject::OctetString(b)) => Some((n, b@)),
                _ => None,
            }
        } else {
            None
        },
        _ => None,
    }
}

/// The initiate (method 1) parameters: `[Unsigned32 or Unsigned16(size),
/// OctetString(identification), ..]`.
pub open spec fn initiate_params(p: Option<DataObject>) -> Option<(u32, Seq<u8>)> {
    block_params(p)
}

/// Reads `[size or number, bytes, ..]` method parameters, for method 1
/// (`initiate`) or method 2; each refusal names the part that is wrong.
fn read_number_and_bytes(parameters: Option<DataObject>, initiate: bool) -> (r: DlmsResult<(u32, Vec<u8>)>)
    ensures
        match r {
            Ok((n, b)) => block_params(parameters) == Some((n, b@)),
            Err(e) => block_params(parameters) is None && e is InvalidData,
        },
{
    match parameters {
        Some(DataObject::Array(arr)) => {
            if arr.len() < 2 {
                return Err(method_shape_error(initiate));
            }
            let n = match &arr[0] {
                DataObject::Unsigned32(v) => *v,
                DataObject::Unsigned16(v) => *v as u32,
                _ => return Err(
                    if initiate {
                        invalid_data("Expected Unsigned32 for image_size")
                    } else {
                        invalid_data("Expected Unsigned32 for block_number")
                    },
                ),
            };
            match &arr[1] {
                DataObject::OctetString(bytes) => Ok((n, copy_bytes(bytes))),
                _ => Err(
                    if initiate {
                        invalid_data("Expected OctetString for image_identification")
                    } else {
                        invalid_data("Expected OctetString for block_data")
                    },
                ),
            }
        },
        _ => Err(method_shape_error(initiate)),
    }
}

/// The refusal of method parameters that are not an array of two or more.
fn method_shape_error(initiate: bool) -> (e: DlmsError)
    ensures
        e is InvalidData,
{
    if initiate {
        invalid_data("Method 1 expects Array parameter with image_size and image_identification")
    } else {
        invalid_data("Method 2 expects Array parameter with block_number and block_data")
    }
}

impl CosemObject for ImageTransfer {
    fn class_id(&self) -> (r: u16)
        ensures
            r == 18,
    {
        Self::CLASS_ID
    }

    fn obis_code(&self) -> (r: ObisCode)
        ensures
            r == self@.logical_name,
    {
        self.logical_name
    }

    fn get_attribute(
        &self,
        attribute_id: u8,
        selective_access: Option<&SelectiveAccessDescriptor>,
    ) -> (r: DlmsResult<DataObject>)
        ensures
            match attribute_id {
                1 => ok_octets(r, self@.logical_name.spec_bytes()),
                2 => yields(r, DataObject::Unsigned32(self@.image_size)),
                3 => yields(r, DataObject::Unsigned32(self@.transferred_blocks)),
                4 => yields(r, DataObject::Unsigned32(self@.first_not_transferred_block)),
                5 => yields(r, DataObject::Boolean(self@.transfer_enabled)),
                6 => yields(r, DataObject::Enumerate(self@.status.spec_to_u8())),
                7 => r matches Ok(d) && is_optional_info(d, self@.image_to_activate_info),
                _ => invalid(r),
            },
    {
        match attribute_id {
            1 => Ok(DataObject::OctetString(self.logical_name.to_bytes())),
            2 => Ok(DataObject::Unsigned32(self.image_size)),
            3 => Ok(DataObject::Unsigned32(self.image_transferred_blocks)),
            4 => Ok(DataObject::Unsigned32(self.image_first_not_transferred_block)),
            5 => Ok(DataObject::Boolean(self.image_transfer_enabled)),
            6 => Ok(DataObject::Enumerate(self.image_transfer_status.to_u8())),
            7 => match &self.image_to_activate_info {
                Some(info) => Ok(info.to_data_object()),
                None => Ok(DataObject::Null),
            },
            _ => Err(invalid_data_number("Image Transfer has no attribute ", attribute_id as u64)),
        }
    }

    /// The counters and status can be written directly; the image to
    /// activate from its array form or `Null`.
    fn set_attribute(
        &mut self,
        attribute_id: u8,
        value: DataObject,
        selective_access: Option<&SelectiveAccessDescriptor>,
    ) -> (r: DlmsResult<()>)
        ensures
            r is Err ==> final(self)@ == old(self)@,
            match attribute_id {
                1 => denied(r),
                2 => match value {
                    DataObject::Unsigned32(v) => r is Ok && final(self)@ == (ImageTransferView { image_size: v, ..old(self)@ }),
                    _ => invalid(r),
                },
                3 => match value {
                    DataObject::Unsigned32(v) => r is Ok && final(self)@ == (ImageTransferView {
                        transferred_blocks: v,
                        ..old(self)@
                    }),
                    _ => invalid(r),
                },
                4 => match value {
                    DataObject::Unsigned32(v) => r is Ok && final(self)@ == (ImageTransferView {
                        first_not_transferred_block: v,
                        ..old(self)@
                    }),
                    _ => invalid(r),
                },
                5 => match value {
                    DataObject::Boolean(v) => r is Ok && final(self)@ == (ImageTransferView {
                        transfer_enabled: v,
                        ..old(self)@
                    }),
                    _ => invalid(r),
                },
                6 => match value {
                    DataObject::Enumerate(v) => r is Ok && final(self)@ == (ImageTransferView {
                        status: ImageTransferStatus::spec_from_u8(v),
                        ..old(self)@
                    }),
                    _ => invalid(r),
                },
                7 => match value {
                    DataObject::Null => r is Ok && final(self)@ == (ImageTransferView {
                        image_to_activate_info: None,
                        ..old(self)@
                    }),
                    _ => match ImageInfo::spec_from_data_object(value) {
                        Some(i) => r is Ok && final(self)@ == (ImageTransferView {
                            image_to_activate_info: Some(i),
                            ..old(self)@
                        }),
                        None => invalid(r),
                    },
                },
                _ => invalid(r),
            },
    {
        match attribute_id {
            1 => Err(access_denied("Attribute 1 (logical_name) is read-only")),
            2 => match value {
                DataObject::Unsigned32(size) => {
                    self.image_size = size;
                    Ok(())
                },
                _ => Err(invalid_data("Expected Unsigned32 for image_size")),
            },
            3 => match value {
                DataObject::Unsigned32(blocks) => {
                    self.image_transferred_blocks = blocks;
                    Ok(())
                },
                _ => Err(invalid_data("Expected Unsigned32 for image_transferred_blocks")),
            },
            4 => match value {
                DataObject::Unsigned32(block) => {
                    self.image_first_not_transferred_block = block;
                    Ok(())
                },
                _ => Err(invalid_data("Expected Unsigned32 for image_first_not_transferred_block")),
            },
            5 => match value {
                DataObject::Boolean(enabled) => {
                    self.image_transfer_enabled = enabled;
                    Ok(())
                },
                _ => Err(invalid_data("Expected Boolean for image_transfer_enabled")),
            },
            6 => match value {
                DataObject::Enumerate(status) => {
                    self.image_transfer_status = ImageTransferStatus::from_u8(status);
                    Ok(())
                },
                _ => Err(invalid_data("Expected Enumerate for image_transfer_status")),
            },
            7 => match value {
                DataObject::Null => {
                    self.image_to_activate_info = None;
                    Ok(())
                },
                other => match ImageInfo::from_data_object(&other) {
                    Ok(info) => {
                        self.image_to_activate_info = Some(info);
                        Ok(())
                    },
                    Err(e) => Err(e),
                },
            },
            _ => Err(invalid_data_number("Image Transfer has no attribute ", attribute_id as u64)),
        }
    }

    /// Method 1 starts a transfer, method 2 takes a block, method 3 verifies
    /// and answers whether the image is complete, method 4 activates. A
    /// block that would push a counter past its largest value is refused.
    fn invoke_method(
        &mut self,
        method_id: u8,
        parameters: Option<DataObject>,
        selective_access: Option<&SelectiveAccessDescriptor>,
    ) -> (r: DlmsResult<Option<DataObject>>)
        ensures
            r is Err ==> invalid(r) && final(self)@ == old(self)@,
            method_id == 1 ==> match initiate_params(parameters) {
                Some((size, id)) => (r is Ok <==> old(self)@.can_initiate()) && (r is Ok ==> r == Ok::<
                    Option<DataObject>,
                    DlmsError,
                >(None) && final(self)@ == old(self)@.initiated(size, id)),
                None => r is Err,
            },
            method_id == 2 ==> match block_params(parameters) {
                Some((n, data)) => (r is Ok <==> (old(self)@.accepts_block(n) && old(self)@.transferred_blocks
                    < u32::MAX && old(self)@.first_not_transferred_block < u32::MAX)) && (r is Ok ==> r == Ok::<
                    Option<DataObject>,
                    DlmsError,
                >(None) && final(self)@ == old(self)@.with_block(data)),
                None => r is Err,
            },
            method_id == 3 ==> (r is Ok <==> old(self)@.status.spec_is_active()) && (r is Ok ==> r == Ok::<
                Option<DataObject>,
                DlmsError,
            >(Some(DataObject::Boolean(old(self)@.complete()))) && final(self)@ == (ImageTransferView {
                status: if old(self)@.complete() {
                    ImageTransferStatus::Verified
                } else {
                    ImageTransferStatus::VerificationFailed
                },
                ..old(self)@
            })),
            method_id == 4 ==> (r is Ok <==> old(self)@.status == ImageTransferStatus::Verified) && (r is Ok ==> r
                == Ok::<Option<DataObject>, DlmsError>(None) && final(self)@ == (ImageTransferView {
                image_to_activate_info: match old(self)@.current_image_info {
                    Some(i) => Some(i),
                    None => old(self)@.image_to_activate_info,
                },
                ..old(self)@.cleared()
            })),
            method_id < 1 || method_id > 4 ==> r is Err,
    {
        match method_id {
            1 => match read_number_and_bytes(parameters, true) {
                Ok((size, id)) => match self.initiate_transfer(size, id) {
                    Ok(()) => Ok(None),
                    Err(e) => Err(e),
                },
                Err(e) => Err(e),
            },
            2 => match read_number_and_bytes(parameters, false) {
                Ok((n, data)) => {
                    if self.image_transferred_blocks == u32::MAX || self.image_first_not_transferred_block == u32::MAX {
                        return Err(invalid_data("Block counter at its largest value"));
                    }
                    match self.transfer_block(n, data) {
                        Ok(()) => Ok(None),
                        Err(e) => Err(e),
                    }
                },
                Err(e) => Err(e),
            },
            3 => match self.verify_image() {
                Ok(v) => Ok(Some(DataObject::Boolean(v))),
                Err(e) => Err(e),
            },
            4 => match self.activate_image() {
                Ok(()) => Ok(None),
                Err(e) => Err(e),
            },
            _ => Err(invalid_data_number("Image Transfer has no method ", method_id as u64)),
        }
    }
}

/// Once a transfer has started, blocks are taken only in order: after a
/// block is taken the next one expected is the following number, the same
/// block is refused, and the bytes received grow by the block.
pub proof fn lemma_blocks_in_order(s: ImageTransferView, n: u32, data: Seq<u8>)
    requires
        s.accepts_block(n),
        s.first_not_transferred_block < u32::MAX,
        s.transferred_blocks < u32::MAX,
    ensures
        s.with_block(data).accepts_block((n + 1) as u32),
        !s.with_block(data).accepts_block(n),
        s.with_block(data).image_data == s.image_data + data,
{
}

/// A transfer can only be activated after it is verified, and activation
/// leaves no transfer active, so a new one may start.
pub proof fn lemma_activation_ends_transfer(s: ImageTransferView)
    requires
        s.status == ImageTransferStatus::Verified,
        s.transfer_enabled,
    ensures
        s.cleared().can_initiate(),
        !s.can_initiate(),
{
}

} // verus!
