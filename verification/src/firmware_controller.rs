//! Firmware Controller interface class (class id 83): firmware version and updates.
use vstd::prelude::*;
use vstd::utf8::encode_utf8;
use crate::cosem_object::{denied, invalid, yields, CosemObject};
use crate::data_object::{ok_octets, DataObject};
use crate::error::{access_denied, invalid_data, invalid_data_number, DlmsResult};
use crate::obis::ObisCode;
use crate::selective_access::SelectiveAccessDescriptor;
use crate::text::{copy_string, spec_utf8_lossy, string_bytes, string_from_bytes_lossy};
use crate::time_source::unix_time_now;
use crate::version_text::{
    compare_numbers, compare_padded, parse_decimal_u32, parse_parts, parsed_parts, part_or_zero,
    split_dots, split_on_dots,
};

verus! {

/// Status of a firmware update.
#[derive(Debug, Clone, Copy, PartialEq, Eq, Structural)]
pub enum FirmwareUpdateStatus {
    NoUpdate,
    InProgress,
    Success,
    Failed,
    Scheduled,
    VerificationFailed,
}

impl FirmwareUpdateStatus {
    pub open spec fn spec_to_u8(self) -> u8 {
        match self {
            FirmwareUpdateStatus::NoUpdate => 0,
            FirmwareUpdateStatus::InProgress => 1,
            FirmwareUpdateStatus::Success => 2,
            FirmwareUpdateStatus::Failed => 3,
            FirmwareUpdateStatus::Scheduled => 4,
            FirmwareUpdateStatus::VerificationFailed => 5,
        }
    }

    /// The status of a wire code: codes 0 to 4 name their status and every
    /// other code, 5 included, reads as `NoUpdate`.
    pub open spec fn spec_from_u8(value: u8) -> FirmwareUpdateStatus {
        match value {
            1 => FirmwareUpdateStatus::InProgress,
            2 => FirmwareUpdateStatus::Success,
            3 => FirmwareUpdateStatus::Failed,
            4 => FirmwareUpdateStatus::Scheduled,
            _ => FirmwareUpdateStatus::NoUpdate,
        }
    }

    pub fn from_u8(value: u8) -> (r: FirmwareUpdateStatus)
        ensures
            r == FirmwareUpdateStatus::spec_from_u8(value),
    {
        match value {
            0 => FirmwareUpdateStatus::NoUpdate,
            1 => FirmwareUpdateStatus::InProgress,
            2 => FirmwareUpdateStatus::Success,
            3 => FirmwareUpdateStatus::Failed,
            4 => FirmwareUpdateStatus::Scheduled,
            _ => FirmwareUpdateStatus::NoUpdate,
        }
    }

    pub fn to_u8(self) -> (r: u8)
        ensures
            r == self.spec_to_u8(),
    {
        match self {
            FirmwareUpdateStatus::NoUpdate => 0,
            FirmwareUpdateStatus::InProgress => 1,
            FirmwareUpdateStatus::Success => 2,
            FirmwareUpdateStatus::Failed => 3,
            FirmwareUpdateStatus::Scheduled => 4,
            FirmwareUpdateStatus::VerificationFailed => 5,
        }
    }

    pub fn is_success(self) -> (r: bool)
        ensures
            r == (self == FirmwareUpdateStatus::Success),
    {
        matches!(self, FirmwareUpdateStatus::Success)
    }

    pub fn is_failure(self) -> (r: bool)
        ensures
            r == (self == FirmwareUpdateStatus::Failed || self == FirmwareUpdateStatus::VerificationFailed),
    {
        matches!(self, FirmwareUpdateStatus::Failed | FirmwareUpdateStatus::VerificationFailed)
    }

    pub fn is_in_progress(self) -> (r: bool)
        ensures
            r == (self == FirmwareUpdateStatus::InProgress),
    {
        matches!(self, FirmwareUpdateStatus::InProgress)
    }
}

/// Every status but `VerificationFailed` survives the trip through its wire
/// code; `VerificationFailed` comes back as `NoUpdate`.
pub proof fn lemma_firmware_status_code_roundtrip(s: FirmwareUpdateStatus)
    ensures
        s != FirmwareUpdateStatus::VerificationFailed ==> FirmwareUpdateStatus::spec_from_u8(s.spec_to_u8()) == s,
        FirmwareUpdateStatus::spec_from_u8(FirmwareUpdateStatus::VerificationFailed.spec_to_u8())
            == FirmwareUpdateStatus::NoUpdate,
{
}

/// The numbers of a dotted version text, parts that do not parse skipped.
pub open spec fn version_numbers(text: Seq<char>) -> Seq<u32> {
    parsed_parts(split_dots(encode_utf8(text)))
}

/// The state of a [`FirmwareController`].
pub struct FirmwareControllerView {
    pub logical_name: ObisCode,
    pub firmware_version: Seq<char>,
    pub firmware_signature: Seq<char>,
    pub update_status: FirmwareUpdateStatus,
    pub update_time: Option<i64>,
}

/// Firmware Controller interface class (class id 83).
pub struct FirmwareController {
    logical_name: ObisCode,
    firmware_version: String,
    firmware_signature: String,
    update_status: FirmwareUpdateStatus,
    update_time: Option<i64>,
}

impl View for FirmwareController {
    type V = FirmwareControllerView;

    closed spec fn view(&self) -> FirmwareControllerView {
        FirmwareControllerView {
            logical_name: self.logical_name,
            firmware_version: self.firmware_version@,
            firmware_signature: self.firmware_signature@,
            update_status: self.update_status,
            update_time: self.update_time,
        }
    }
}

impl FirmwareController {
    pub const CLASS_ID: u16 = 83;
    pub const ATTR_LOGICAL_NAME: u8 = 1;
    pub const ATTR_FIRMWARE_VERSION: u8 = 2;
    pub const ATTR_FIRMWARE_SIGNATURE: u8 = 3;
    pub const ATTR_UPDATE_STATUS: u8 = 4;
    pub const ATTR_UPDATE_TIME: u8 = 5;

    /// Default OBIS code 0-0:83.0.0.255.
    pub fn default_obis() -> (r: ObisCode)
        ensures
            r == (ObisCode { a: 0, b: 0, c: 83, d: 0, e: 0, f: 255 }),
    {
        ObisCode::new(0, 0, 83, 0, 0, 255)
    }

    /// A controller running version "1.0.0", with no update.
    pub fn new(logical_name: ObisCode) -> (r: FirmwareController)
        ensures
            r@ == (FirmwareControllerView {
                logical_name,
                firmware_version: "1.0.0"@,
                firmware_signature: Seq::empty(),
                update_status: FirmwareUpdateStatus::NoUpdate,
                update_time: None,
            }),
    {
        FirmwareController {
            logical_name,
            firmware_version: "1.0.0".to_owned(),
            firmware_signature: String::new(),
            update_status: FirmwareUpdateStatus::NoUpdate,
            update_time: None,
        }
    }

    /// A controller under the default OBIS code running version "1.0.0".
    pub fn with_default_obis() -> (r: FirmwareController)
        ensures
            r@ == (FirmwareControllerView {
                logical_name: ObisCode { a: 0, b: 0, c: 83, d: 0, e: 0, f: 255 },
                firmware_version: "1.0.0"@,
                firmware_signature: Seq::empty(),
                update_status: FirmwareUpdateStatus::NoUpdate,
                update_time: None,
            }),
    {
        Self::new(Self::default_obis())
    }

    /// A controller running the given version, with no update.
    pub fn with_version(logical_name: ObisCode, version: String) -> (r: FirmwareController)
        ensures
            r@ == (FirmwareControllerView {
                logical_name,
                firmware_version: version@,
                firmware_signature: Seq::empty(),
                update_status: FirmwareUpdateStatus::NoUpdate,
                update_time: None,
            }),
    {
        FirmwareController {
            logical_name,
            firmware_version: version,
            firmware_signature: String::new(),
            update_status: FirmwareUpdateStatus::NoUpdate,
            update_time: None,
        }
    }

    pub fn firmware_version(&self) -> (r: String)
        ensures
            r@ == self@.firmware_version,
    {
        copy_string(&self.firmware_version)
    }

    pub fn set_firmware_version(&mut self, version: String)
        ensures
            final(self)@ == (FirmwareControllerView { firmware_version: version@, ..old(self)@ }),
    {
        self.firmware_version = version;
    }

    pub fn firmware_signature(&self) -> (r: String)
        ensures
            r@ == self@.firmware_signature,
    {
        copy_string(&self.firmware_signature)
    }

    pub fn set_firmware_signature(&mut self, signature: String)
        ensures
            final(self)@ == (FirmwareControllerView { firmware_signature: signature@, ..old(self)@ }),
    {
        self.firmware_signature = signature;
    }

    pub fn update_status(&self) -> (r: FirmwareUpdateStatus)
        ensures
            r == self@.update_status,
    {
        self.update_status
    }

    pub fn set_update_status(&mut self, status: FirmwareUpdateStatus)
        ensures
            final(self)@ == (FirmwareControllerView { update_status: status, ..old(self)@ }),
    {
        self.update_status = status;
    }

    pub fn update_time(&self) -> (r: Option<i64>)
        ensures
            r == self@.update_time,
    {
        self.update_time
    }

    pub fn set_update_time(&mut self, time: Option<i64>)
        ensures
            final(self)@ == (FirmwareControllerView { update_time: time, ..old(self)@ }),
    {
        self.update_time = time;
    }

    pub fn is_update_successful(&self) -> (r: bool)
        ensures
            r == (self@.update_status == FirmwareUpdateStatus::Success),
    {
        self.update_status.is_success()
    }

    pub fn is_update_failed(&self) -> (r: bool)
        ensures
            r == (self@.update_status == FirmwareUpdateStatus::Failed || self@.update_status
                == FirmwareUpdateStatus::VerificationFailed),
    {
        self.update_status.is_failure()
    }

    pub fn is_update_in_progress(&self) -> (r: bool)
        ensures
            r == (self@.update_status == FirmwareUpdateStatus::InProgress),
    {
        self.update_status.is_in_progress()
    }

    /// Records a successful update, stamped with the time read from the system clock.
    pub fn record_successful_update(&mut self, version: String, signature: String)
        ensures
            final(self)@.update_time is Some,
            final(self)@ == (FirmwareControllerView {
                firmware_version: version@,
                firmware_signature: signature@,
                update_status: FirmwareUpdateStatus::Success,
                update_time: final(self)@.update_time,
                ..old(self)@
            }),
    {
        let now = unix_time_now();
        self.record_successful_update_at(version, signature, now);
    }

    /// Records a successful update to `version` with `signature` at time `now`.
    pub fn record_successful_update_at(&mut self, version: String, signature: String, now: i64)
        ensures
            final(self)@ == (FirmwareControllerView {
                firmware_version: version@,
                firmware_signature: signature@,
                update_status: FirmwareUpdateStatus::Success,
                update_time: Some(now),
                ..old(self)@
            }),
    {
        self.firmware_version = version;
        self.firmware_signature = signature;
        self.update_status = FirmwareUpdateStatus::Success;
        self.update_time = Some(now);
    }

    pub fn record_failed_update(&mut self)
        ensures
            final(self)@ == (FirmwareControllerView { update_status: FirmwareUpdateStatus::Failed, ..old(self)@ }),
    {
        self.update_status = FirmwareUpdateStatus::Failed;
    }

    pub fn start_update(&mut self)
        ensures
            final(self)@ == (FirmwareControllerView { update_status: FirmwareUpdateStatus::InProgress, ..old(self)@ }),
    {
        self.update_status = FirmwareUpdateStatus::InProgress;
    }

    /// Major, minor and patch: the numbers of the first three dot-separated
    /// parts of the version, 0 for a part that is missing or does not parse.
    pub fn version_tuple(&self) -> (r: (u32, u32, u32))
        ensures
            ({
                let parts = split_dots(encode_utf8(self@.firmware_version));
                r == (part_or_zero(parts, 0), part_or_zero(parts, 1), part_or_zero(parts, 2))
            }),
    {
        let bytes = string_bytes(&self.firmware_version);
        let parts = split_on_dots(bytes.as_slice());
        let major = Self::part_number(&parts, 0);
        let minor = Self::part_number(&parts, 1);
        let patch = Self::part_number(&parts, 2);
        (major, minor, patch)
    }

    fn part_number(parts: &Vec<Vec<u8>>, k: usize) -> (r: u32)
        ensures
            r == part_or_zero(parts@.map_values(|p: Vec<u8>| p@), k as int),
    {
        if k < parts.len() {
            match parse_decimal_u32(&parts[k]) {
                Some(v) => v,
                None => 0,
            }
        } else {
            0
        }
    }

    /// Compares the version with `other`, number by number, parts that do not
    /// parse skipped and the shorter list padded with zeros: 1 when the
    /// current version is newer, -1 when older, 0 when equal.
    pub fn compare_version(&self, other: &str) -> (r: i8)
        ensures
            r == compare_padded(version_numbers(self@.firmware_version), version_numbers(other@), 0),
    {
        let current = string_bytes(&self.firmware_version);
        let current_parts = split_on_dots(current.as_slice());
        let other_parts = split_on_dots(other.as_bytes());
        proof {
            assert(current_parts@.map_values(|p: Vec<u8>| p@) =~= split_dots(encode_utf8(self@.firmware_version)));
            assert(other_parts@.map_values(|p: Vec<u8>| p@) =~= split_dots(encode_utf8(other@)));
        }
        let a = parse_parts(&current_parts);
        let b = parse_parts(&other_parts);
        compare_numbers(&a, &b)
    }
}

impl CosemObject for FirmwareController {
    fn class_id(&self) -> (r: u16)
        ensures
            r == 83,
    {
        Self::CLASS_ID
    }

    fn obis_code(&self) -> (r: ObisCode)
        ensures
            r == self@.logical_name,
    {
        self.logical_name
    }

    fn get_attribute(
        &self,
        attribute_id: u8,
        selective_access: Option<&SelectiveAccessDescriptor>,
    ) -> (r: DlmsResult<DataObject>)
        ensures
            match attribute_id {
                1 => ok_octets(r, self@.logical_name.spec_bytes()),
                2 => ok_octets(r, encode_utf8(self@.firmware_version)),
                3 => ok_octets(r, encode_utf8(self@.firmware_signature)),
                4 => yields(r, DataObject::Enumerate(self@.update_status.spec_to_u8())),
                5 => match self@.update_time {
                    Some(t) => yields(r, DataObject::Integer64(t)),
                    None => yields(r, DataObject::Null),
                },
                _ => invalid(r),
            },
    {
        match attribute_id {
            1 => Ok(DataObject::OctetString(self.logical_name.to_bytes())),
            2 => Ok(DataObject::OctetString(string_bytes(&self.firmware_version))),
            3 => Ok(DataObject::OctetString(string_bytes(&self.firmware_signature))),
            4 => Ok(DataObject::Enumerate(self.update_status.to_u8())),
            5 => match self.update_time {
                Some(t) => Ok(DataObject::Integer64(t)),
                None => Ok(DataObject::Null),
            },
            _ => Err(invalid_data_number("FirmwareController has no attribute ", attribute_id as u64)),
        }
    }

    fn set_attribute(
        &mut self,
        attribute_id: u8,
        value: DataObject,
        selective_access: Option<&SelectiveAccessDescriptor>,
    ) -> (r: DlmsResult<()>)
        ensures
            r is Err ==> final(self)@ == old(self)@,
            match attribute_id {
                1 => denied(r),
                2 => match value {
                    DataObject::OctetString(b) => r is Ok && final(self)@ == (FirmwareControllerView {
                        firmware_version: spec_utf8_lossy(b@),
                        ..old(self)@
                    }),
                    _ => invalid(r),
                },
                3 => match value {
                    DataObject::OctetString(b) => r is Ok && final(self)@ == (FirmwareControllerView {
                        firmware_signature: spec_utf8_lossy(b@),
                        ..old(self)@
                    }),
                    _ => invalid(r),
                },
                4 => match value {
                    DataObject::Enumerate(v) => r is Ok && final(self)@ == (FirmwareControllerView {
                        update_status: FirmwareUpdateStatus::spec_from_u8(v),
                        ..old(self)@
                    }),
                    _ => invalid(r),
                },
                5 => match value {
                    DataObject::Integer64(v) => r is Ok && final(self)@ == (FirmwareControllerView {
                        update_time: Some(v),
                        ..old(self)@
                    }),
                    DataObject::Null => r is Ok && final(self)@ == (FirmwareControllerView {
                        update_time: None,
                        ..old(self)@
                    }),
                    _ => invalid(r),
                },
                _ => invalid(r),
            },
    {
        match attribute_id {
            1 => Err(access_denied("Attribute 1 (logical_name) is read-only")),
            2 => match value {
                DataObject::OctetString(bytes) => {
                    self.firmware_version = string_from_bytes_lossy(bytes.as_slice());
                    Ok(())
                }
                _ => Err(invalid_data("Expected OctetString for firmware_version")),
            },
            3 => match value {
                DataObject::OctetString(bytes) => {
                    self.firmware_signature = string_from_bytes_lossy(bytes.as_slice());
                    Ok(())
                }
                _ => Err(invalid_data("Expected OctetString for firmware_signature")),
            },
            4 => match value {
                DataObject::Enumerate(v) => {
                    self.update_status = FirmwareUpdateStatus::from_u8(v);
                    Ok(())
                }
                _ => Err(invalid_data("Expected Enumerate for update_status")),
            },
            5 => match value {
                DataObject::Integer64(v) => {
                    self.update_time = Some(v);
                    Ok(())
                }
                DataObject::Null => {
                    self.update_time = None;
                    Ok(())
                }
                _ => Err(invalid_data("Expected Integer64 or Null for update_time")),
            },
            _ => Err(invalid_data_number("FirmwareController has no attribute ", attribute_id as u64)),
        }
    }

    fn invoke_method(
        &mut self,
        method_id: u8,
        parameters: Option<DataObject>,
        selective_access: Option<&SelectiveAccessDescriptor>,
    ) -> (r: DlmsResult<Option<DataObject>>)
        ensures
            invalid(r),
            final(self)@ == old(self)@,
    {
        Err(invalid_data_number("FirmwareController has no method ", method_id as u64))
    }
}

} // verus!
