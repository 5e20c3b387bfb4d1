//! Credit interface class (class id 61): credit of a prepaid meter.
use vstd::prelude::*;
use vstd::utf8::encode_utf8;
use crate::cosem_object::{denied, invalid, yields, CosemObject};
use crate::data_object::{ok_octets, DataObject};
use crate::error::{access_denied, invalid_data, invalid_data_number, DlmsResult};
use crate::obis::ObisCode;
use crate::selective_access::SelectiveAccessDescriptor;
use crate::text::{copy_string, spec_utf8_lossy, string_bytes, string_from_bytes_lossy};

verus! {

/// What the credit is counted in.
#[derive(Debug, Clone, Copy, PartialEq, Eq, Structural)]
pub enum CreditType {
    Monetary,
    Energy,
    Volume,
    Time,
    Custom,
}

impl CreditType {
    pub open spec fn spec_to_u8(self) -> u8 {
        match self {
            CreditType::Monetary => 0,
            CreditType::Energy => 1,
            CreditType::Volume => 2,
            CreditType::Time => 3,
            CreditType::Custom => 4,
        }
    }

    /// The credit type of a wire code; codes above 3 read as `Custom`.
    pub open spec fn spec_from_u8(value: u8) -> CreditType {
        match value {
            0 => CreditType::Monetary,
            1 => CreditType::Energy,
            2 => CreditType::Volume,
            3 => CreditType::Time,
            _ => CreditType::Custom,
        }
    }

    pub fn from_u8(value: u8) -> (r: CreditType)
        ensures
            r == CreditType::spec_from_u8(value),
    {
        match value {
            0 => CreditType::Monetary,
            1 => CreditType::Energy,
            2 => CreditType::Volume,
            3 => CreditType::Time,
            _ => CreditType::Custom,
        }
    }

    pub fn to_u8(self) -> (r: u8)
        ensures
            r == self.spec_to_u8(),
    {
        match self {
            CreditType::Monetary => 0,
            CreditType::Energy => 1,
            CreditType::Volume => 2,
            CreditType::Time => 3,
            CreditType::Custom => 4,
        }
    }
}

/// Status of a credit.
#[derive(Debug, Clone, Copy, PartialEq, Eq, Structural)]
pub enum CreditStatusType {
    Available,
    Low,
    Exhausted,
    Error,
}

impl CreditStatusType {
    pub open spec fn spec_to_u8(self) -> u8 {
        match self {
            CreditStatusType::Available => 0,
            CreditStatusType::Low => 1,
            CreditStatusType::Exhausted => 2,
            CreditStatusType::Error => 3,
        }
    }

    /// The status of a wire code; codes above 2 read as `Error`.
    pub open spec fn spec_from_u8(value: u8) -> CreditStatusType {
        match value {
            0 => CreditStatusType::Available,
            1 => CreditStatusType::Low,
            2 => CreditStatusType::Exhausted,
            _ => CreditStatusType::Error,
        }
    }

    pub fn from_u8(value: u8) -> (r: CreditStatusType)
        ensures
            r == CreditStatusType::spec_from_u8(value),
    {
        match value {
            0 => CreditStatusType::Available,
            1 => CreditStatusType::Low,
            2 => CreditStatusType::Exhausted,
            3 => CreditStatusType::Error,
            _ => CreditStatusType::Error,
        }
    }

    pub fn to_u8(self) -> (r: u8)
        ensures
            r == self.spec_to_u8(),
    {
        match self {
            CreditStatusType::Available => 0,
            CreditStatusType::Low => 1,
            CreditStatusType::Exhausted => 2,
            CreditStatusType::Error => 3,
        }
    }

    /// Credit is usable while available or low.
    pub fn is_available(self) -> (r: bool)
        ensures
            r == (self == CreditStatusType::Available || self == CreditStatusType::Low),
    {
        matches!(self, CreditStatusType::Available | CreditStatusType::Low)
    }
}

/// Every credit type and credit status survives the trip through its wire code.
pub proof fn lemma_credit_codes_roundtrip(t: CreditType, s: CreditStatusType)
    ensures
        CreditType::spec_from_u8(t.spec_to_u8()) == t,
        CreditStatusType::spec_from_u8(s.spec_to_u8()) == s,
{
}

/// The status a credit takes after its amount changes: `Exhausted` at or
/// below zero, `Low` below the threshold, `Available` otherwise.
pub open spec fn status_for_available(available: i64, threshold: i64) -> CreditStatusType {
    if available <= 0 {
        CreditStatusType::Exhausted
    } else if available < threshold {
        CreditStatusType::Low
    } else {
        CreditStatusType::Available
    }
}

/// The state of a [`Credit`].
pub struct CreditView {
    pub logical_name: ObisCode,
    pub credit_available: i64,
    pub credit_status: CreditStatusType,
    pub credit_type: CreditType,
    pub priority_level: u8,
    pub unit_of_measure: Seq<char>,
    pub currency: Seq<char>,
    pub credit_threshold: i64,
}

impl CreditView {
    /// The state after the available credit becomes `amount` and the status follows it.
    pub open spec fn with_available(self, amount: i64) -> CreditView {
        CreditView {
            credit_available: amount,
            credit_status: status_for_available(amount, self.credit_threshold),
            ..self
        }
    }
}

/// Credit interface class (class id 61).
pub struct Credit {
    logical_name: ObisCode,
    credit_available: i64,
    credit_status: CreditStatusType,
    credit_type: CreditType,
    priority_level: u8,
    unit_of_measure: String,
    currency: String,
    credit_threshold: i64,
}

impl View for Credit {
    type V = CreditView;

    closed spec fn view(&self) -> CreditView {
        CreditView {
            logical_name: self.logical_name,
            credit_available: self.credit_available,
            credit_status: self.credit_status,
            credit_type: self.credit_type,
            priority_level: self.priority_level,
            unit_of_measure: self.unit_of_measure@,
            currency: self.currency@,
            credit_threshold: self.credit_threshold,
        }
    }
}

impl Credit {
    pub const CLASS_ID: u16 = 61;
    pub const ATTR_LOGICAL_NAME: u8 = 1;
    pub const ATTR_CREDIT_AVAILABLE: u8 = 2;
    pub const ATTR_CREDIT_STATUS: u8 = 3;
    pub const ATTR_CREDIT_TYPE: u8 = 4;
    pub const ATTR_PRIORITY_LEVEL: u8 = 5;
    pub const ATTR_UNIT_OF_MEASURE: u8 = 6;
    pub const ATTR_CURRENCY: u8 = 7;
    pub const ATTR_CREDIT_THRESHOLD: u8 = 8;

    /// Default OBIS code 0-0:61.0.0.255.
    pub fn default_obis() -> (r: ObisCode)
        ensures
            r == (ObisCode { a: 0, b: 0, c: 61, d: 0, e: 0, f: 255 }),
    {
        ObisCode::new(0, 0, 61, 0, 0, 255)
    }

    /// A fresh, exhausted credit of the given type with threshold 100.
    pub fn new(logical_name: ObisCode, credit_type: CreditType) -> (r: Credit)
        ensures
            r@ == (CreditView {
                logical_name,
                credit_available: 0,
                credit_status: CreditStatusType::Exhausted,
                credit_type,
                priority_level: 0,
                unit_of_measure: Seq::empty(),
                currency: Seq::empty(),
                credit_threshold: 100,
            }),
    {
        Credit {
            logical_name,
            credit_available: 0,
            credit_status: CreditStatusType::Exhausted,
            credit_type,
            priority_level: 0,
            unit_of_measure: String::new(),
            currency: String::new(),
            credit_threshold: 100,
        }
    }

    /// A fresh monetary credit under the default OBIS code.
    pub fn with_default_obis() -> (r: Credit)
        ensures
            r@ == (CreditView {
                logical_name: ObisCode { a: 0, b: 0, c: 61, d: 0, e: 0, f: 255 },
                credit_available: 0,
                credit_status: CreditStatusType::Exhausted,
                credit_type: CreditType::Monetary,
                priority_level: 0,
                unit_of_measure: Seq::empty(),
                currency: Seq::empty(),
                credit_threshold: 100,
            }),
    {
        Self::new(Self::default_obis(), CreditType::Monetary)
    }

    pub fn credit_available(&self) -> (r: i64)
        ensures
            r == self@.credit_available,
    {
        self.credit_available
    }

    /// Sets the available credit; the status follows it.
    pub fn set_credit_available(&mut self, credit: i64)
        ensures
            final(self)@ == old(self)@.with_available(credit),
    {
        self.credit_available = credit;
        self.update_status();
    }

    /// Adds `amount` to the available credit; the status follows it.
    pub fn add_credit(&mut self, amount: i64)
        requires
            i64::MIN <= old(self)@.credit_available + amount <= i64::MAX,
        ensures
            final(self)@ == old(self)@.with_available((old(self)@.credit_available + amount) as i64),
    {
        self.credit_available = self.credit_available + amount;
        self.update_status();
    }

    /// Takes `amount` from the available credit, refused when less than
    /// `amount` is available; the status follows the new amount.
    pub fn consume_credit(&mut self, amount: i64) -> (r: DlmsResult<()>)
        requires
            old(self)@.credit_available >= amount ==> old(self)@.credit_available - amount <= i64::MAX,
        ensures
            r is Ok <==> old(self)@.credit_available >= amount,
            r is Ok ==> final(self)@ == old(self)@.with_available((old(self)@.credit_available - amount) as i64),
            r is Err ==> invalid(r) && final(self)@ == old(self)@,
    {
        if self.credit_available < amount {
            return Err(invalid_data("Insufficient credit"));
        }
        self.credit_available = self.credit_available - amount;
        self.update_status();
        Ok(())
    }

    fn update_status(&mut self)
        ensures
            final(self)@ == old(self)@.with_available(old(self)@.credit_available),
    {
        let status = if self.credit_available <= 0 {
            CreditStatusType::Exhausted
        } else if self.credit_available < self.credit_threshold {
            CreditStatusType::Low
        } else {
            CreditStatusType::Available
        };
        self.credit_status = status;
    }

    pub fn credit_status(&self) -> (r: CreditStatusType)
        ensures
            r == self@.credit_status,
    {
        self.credit_status
    }

    pub fn credit_type(&self) -> (r: CreditType)
        ensures
            r == self@.credit_type,
    {
        self.credit_type
    }

    pub fn set_credit_type(&mut self, credit_type: CreditType)
        ensures
            final(self)@ == (CreditView { credit_type, ..old(self)@ }),
    {
        self.credit_type = credit_type;
    }

    pub fn priority_level(&self) -> (r: u8)
        ensures
            r == self@.priority_level,
    {
        self.priority_level
    }

    pub fn set_priority_level(&mut self, level: u8)
        ensures
            final(self)@ == (CreditView { priority_level: level, ..old(self)@ }),
    {
        self.priority_level = level;
    }

    pub fn unit_of_measure(&self) -> (r: String)
        ensures
            r@ == self@.unit_of_measure,
    {
        copy_string(&self.unit_of_measure)
    }

    pub fn set_unit_of_measure(&mut self, unit: String)
        ensures
            final(self)@ == (CreditView { unit_of_measure: unit@, ..old(self)@ }),
    {
        self.unit_of_measure = unit;
    }

    pub fn currency(&self) -> (r: String)
        ensures
            r@ == self@.currency,
    {
        copy_string(&self.currency)
    }

    pub fn set_currency(&mut self, currency: String)
        ensures
            final(self)@ == (CreditView { currency: currency@, ..old(self)@ }),
    {
        self.currency = currency;
    }

    pub fn credit_threshold(&self) -> (r: i64)
        ensures
            r == self@.credit_threshold,
    {
        self.credit_threshold
    }

    /// Sets the threshold; the status is left as it is.
    pub fn set_credit_threshold(&mut self, threshold: i64)
        ensures
            final(self)@ == (CreditView { credit_threshold: threshold, ..old(self)@ }),
    {
        self.credit_threshold = threshold;
    }

    pub fn is_available(&self) -> (r: bool)
        ensures
            r == (self@.credit_status == CreditStatusType::Available || self@.credit_status
                == CreditStatusType::Low),
    {
        self.credit_status.is_available()
    }
}

impl CosemObject for Credit {
    fn class_id(&self) -> (r: u16)
        ensures
            r == 61,
    {
        Self::CLASS_ID
    }

    fn obis_code(&self) -> (r: ObisCode)
        ensures
            r == self@.logical_name,
    {
        self.logical_name
    }

    fn get_attribute(
        &self,
        attribute_id: u8,
        selective_access: Option<&SelectiveAccessDescriptor>,
    ) -> (r: DlmsResult<DataObject>)
        ensures
            match attribute_id {
                1 => ok_octets(r, self@.logical_name.spec_bytes()),
                2 => yields(r, DataObject::Integer64(self@.credit_available)),
                3 => yields(r, DataObject::Enumerate(self@.credit_status.spec_to_u8())),
                4 => yields(r, DataObject::Enumerate(self@.credit_type.spec_to_u8())),
                5 => yields(r, DataObject::Unsigned8(self@.priority_level)),
                6 => ok_octets(r, encode_utf8(self@.unit_of_measure)),
                7 => ok_octets(r, encode_utf8(self@.currency)),
                8 => yields(r, DataObject::Integer64(self@.credit_threshold)),
                _ => invalid(r),
            },
    {
        match attribute_id {
            1 => Ok(DataObject::OctetString(self.logical_name.to_bytes())),
            2 => Ok(DataObject::Integer64(self.credit_available)),
            3 => Ok(DataObject::Enumerate(self.credit_status.to_u8())),
            4 => Ok(DataObject::Enumerate(self.credit_type.to_u8())),
            5 => Ok(DataObject::Unsigned8(self.priority_level)),
            6 => Ok(DataObject::OctetString(string_bytes(&self.unit_of_measure))),
            7 => Ok(DataObject::OctetString(string_bytes(&self.currency))),
            8 => Ok(DataObject::Integer64(self.credit_threshold)),
            _ => Err(invalid_data_number("Credit has no attribute ", attribute_id as u64)),
        }
    }

    fn set_attribute(
        &mut self,
        attribute_id: u8,
        value: DataObject,
        selective_access: Option<&SelectiveAccessDescriptor>,
    ) -> (r: DlmsResult<()>)
        ensures
            r is Err ==> final(self)@ == old(self)@,
            match attribute_id {
                1 => denied(r),
                2 => match value {
                    DataObject::Integer64(v) => r is Ok && final(self)@ == old(self)@.with_available(v),
                    _ => invalid(r),
                },
                3 => match value {
                    DataObject::Enumerate(v) => r is Ok && final(self)@ == (CreditView {
                        credit_status: CreditStatusType::spec_from_u8(v),
                        ..old(self)@
                    }),
                    _ => invalid(r),
                },
                4 => match value {
                    DataObject::Enumerate(v) => r is Ok && final(self)@ == (CreditView {
                        credit_type: CreditType::spec_from_u8(v),
                        ..old(self)@
                    }),
                    _ => invalid(r),
                },
                5 => match value {
                    DataObject::Unsigned8(v) => r is Ok && final(self)@ == (CreditView {
                        priority_level: v,
                        ..old(self)@
                    }),
                    _ => invalid(r),
                },
                6 => match value {
                    DataObject::OctetString(b) => r is Ok && final(self)@ == (CreditView {
                        unit_of_measure: spec_utf8_lossy(b@),
                        ..old(self)@
                    }),
                    _ => invalid(r),
                },
                7 => match value {
                    DataObject::OctetString(b) => r is Ok && final(self)@ == (CreditView {
                        currency: spec_utf8_lossy(b@),
                        ..old(self)@
                    }),
                    _ => invalid(r),
                },
                8 => match value {
                    DataObject::Integer64(v) => r is Ok && final(self)@ == (CreditView {
                        credit_threshold: v,
                        ..old(self)@
                    }),
                    _ => invalid(r),
                },
                _ => invalid(r),
            },
    {
        match attribute_id {
            1 => Err(access_denied("Attribute 1 (logical_name) is read-only")),
            2 => match value {
                DataObject::Integer64(v) => {
                    self.set_credit_available(v);
                    Ok(())
                }
                _ => Err(invalid_data("Expected Integer64 for credit_available")),
            },
            3 => match value {
                DataObject::Enumerate(v) => {
                    self.credit_status = CreditStatusType::from_u8(v);
                    Ok(())
                }
                _ => Err(invalid_data("Expected Enumerate for credit_status")),
            },
            4 => match value {
                DataObject::Enumerate(v) => {
                    self.credit_type = CreditType::from_u8(v);
                    Ok(())
                }
                _ => Err(invalid_data("Expected Enumerate for credit_type")),
            },
            5 => match value {
                DataObject::Unsigned8(v) => {
                    self.priority_level = v;
                    Ok(())
                }
                _ => Err(invalid_data("Expected Unsigned8 for priority_level")),
            },
            6 => match value {
                DataObject::OctetString(bytes) => {
                    self.unit_of_measure = string_from_bytes_lossy(bytes.as_slice());
                    Ok(())
                }
                _ => Err(invalid_data("Expected OctetString for unit_of_measure")),
            },
            7 => match value {
                DataObject::OctetString(bytes) => {
                    self.currency = string_from_bytes_lossy(bytes.as_slice());
                    Ok(())
                }
                _ => Err(invalid_data("Expected OctetString for currency")),
            },
            8 => match value {
                DataObject::Integer64(v) => {
                    self.credit_threshold = v;
                    Ok(())
                }
                _ => Err(invalid_data("Expected Integer64 for credit_threshold")),
            },
            _ => Err(invalid_data_number("Credit has no attribute ", attribute_id as u64)),
        }
    }

    fn invoke_method(
        &mut self,
        method_id: u8,
        parameters: Option<DataObject>,
        selective_access: Option<&SelectiveAccessDescriptor>,
    ) -> (r: DlmsResult<Option<DataObject>>)
        ensures
            invalid(r),
            final(self)@ == old(self)@,
    {
        Err(invalid_data_number("Credit has no method ", method_id as u64))
    }
}


/// Whatever the available credit is set to, it is held as given and the
/// status follows it: exhausted exactly at or below zero, low exactly when
/// positive but under the threshold, available otherwise; never an error.
pub proof fn lemma_status_follows_credit(v: CreditView, amount: i64)
    ensures
        v.with_available(amount).credit_available == amount,
        (v.with_available(amount).credit_status == CreditStatusType::Exhausted) <==> amount <= 0,
        (v.with_available(amount).credit_status == CreditStatusType::Low) <==> (0 < amount
            && amount < v.credit_threshold),
        (v.with_available(amount).credit_status == CreditStatusType::Available) <==> (amount > 0
            && amount >= v.credit_threshold),
        v.with_available(amount).credit_status != CreditStatusType::Error,
{
}

} // verus!
