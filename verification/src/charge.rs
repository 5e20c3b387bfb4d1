//! Charge interface class (class id 62): charging information of a prepaid meter.
use vstd::prelude::*;
use vstd::utf8::encode_utf8;
use crate::cosem_object::{denied, invalid, yields, CosemObject};
use crate::data_object::{ok_octets, DataObject};
use crate::error::{access_denied, invalid_data, invalid_data_number, DlmsResult};
use crate::obis::ObisCode;
use crate::selective_access::SelectiveAccessDescriptor;
use crate::text::{copy_string, spec_utf8_lossy, string_bytes, string_from_bytes_lossy};

verus! {

/// Kind of charge.
#[derive(Debug, Clone, Copy, PartialEq, Eq, Structural)]
pub enum ChargeType {
    Fixed,
    RateBased,
    TieredRate,
    TimeOfUse,
    Custom,
}

impl ChargeType {
    pub open spec fn spec_to_u8(self) -> u8 {
        match self {
            ChargeType::Fixed => 0,
            ChargeType::RateBased => 1,
            ChargeType::TieredRate => 2,
            ChargeType::TimeOfUse => 3,
            ChargeType::Custom => 4,
        }
    }

    /// The charge type of a wire code; codes above 3 read as `Custom`.
    pub open spec fn spec_from_u8(value: u8) -> ChargeType {
        match value {
            0 => ChargeType::Fixed,
            1 => ChargeType::RateBased,
            2 => ChargeType::TieredRate,
            3 => ChargeType::TimeOfUse,
            _ => ChargeType::Custom,
        }
    }

    pub fn from_u8(value: u8) -> (r: ChargeType)
        ensures
            r == ChargeType::spec_from_u8(value),
    {
        match value {
            0 => ChargeType::Fixed,
            1 => ChargeType::RateBased,
            2 => ChargeType::TieredRate,
            3 => ChargeType::TimeOfUse,
            _ => ChargeType::Custom,
        }
    }

    pub fn to_u8(self) -> (r: u8)
        ensures
            r == self.spec_to_u8(),
    {
        match self {
            ChargeType::Fixed => 0,
            ChargeType::RateBased => 1,
            ChargeType::TieredRate => 2,
            ChargeType::TimeOfUse => 3,
            ChargeType::Custom => 4,
        }
    }

    /// Rate-based, tiered-rate and time-of-use charges depend on a rate.
    pub fn is_rate_based(self) -> (r: bool)
        ensures
            r == (self == ChargeType::RateBased || self == ChargeType::TieredRate || self
                == ChargeType::TimeOfUse),
    {
        matches!(self, ChargeType::RateBased | ChargeType::TieredRate | ChargeType::TimeOfUse)
    }
}

/// Every charge type survives the trip through its wire code.
pub proof fn lemma_charge_type_code_roundtrip(t: ChargeType)
    ensures
        ChargeType::spec_from_u8(t.spec_to_u8()) == t,
{
}

/// The state of a [`Charge`].
pub struct ChargeView {
    pub logical_name: ObisCode,
    pub total_amount_charged: i64,
    pub charge_type: ChargeType,
    pub priority_level: u8,
    pub unit_of_measure: Seq<char>,
    pub currency: Seq<char>,
    pub charge_per_unit: i32,
    pub active: bool,
}

/// Charge interface class (class id 62).
pub struct Charge {
    logical_name: ObisCode,
    total_amount_charged: i64,
    charge_type: ChargeType,
    priority_level: u8,
    unit_of_measure: String,
    currency: String,
    charge_per_unit: i32,
    active: bool,
}

impl View for Charge {
    type V = ChargeView;

    closed spec fn view(&self) -> ChargeView {
        ChargeView {
            logical_name: self.logical_name,
            total_amount_charged: self.total_amount_charged,
            charge_type: self.charge_type,
            priority_level: self.priority_level,
            unit_of_measure: self.unit_of_measure@,
            currency: self.currency@,
            charge_per_unit: self.charge_per_unit,
            active: self.active,
        }
    }
}

impl Charge {
    pub const CLASS_ID: u16 = 62;
    pub const ATTR_LOGICAL_NAME: u8 = 1;
    pub const ATTR_TOTAL_AMOUNT_CHARGED: u8 = 2;
    pub const ATTR_CHARGE_TYPE: u8 = 3;
    pub const ATTR_PRIORITY_LEVEL: u8 = 4;
    pub const ATTR_UNIT_OF_MEASURE: u8 = 5;
    pub const ATTR_CURRENCY: u8 = 6;
    pub const ATTR_CHARGE_PER_UNIT: u8 = 7;
    pub const ATTR_ACTIVE: u8 = 8;

    /// Default OBIS code 0-0:62.0.0.255.
    pub fn default_obis() -> (r: ObisCode)
        ensures
            r == (ObisCode { a: 0, b: 0, c: 62, d: 0, e: 0, f: 255 }),
    {
        ObisCode::new(0, 0, 62, 0, 0, 255)
    }

    /// A fresh, inactive charge of the given type with nothing charged.
    pub fn new(logical_name: ObisCode, charge_type: ChargeType) -> (r: Charge)
        ensures
            r@ == (ChargeView {
                logical_name,
                total_amount_charged: 0,
                charge_type,
                priority_level: 0,
                unit_of_measure: Seq::empty(),
                currency: Seq::empty(),
                charge_per_unit: 0,
                active: false,
            }),
    {
        Charge {
            logical_name,
            total_amount_charged: 0,
            charge_type,
            priority_level: 0,
            unit_of_measure: String::new(),
            currency: String::new(),
            charge_per_unit: 0,
            active: false,
        }
    }

    /// A fresh fixed charge under the default OBIS code.
    pub fn with_default_obis() -> (r: Charge)
        ensures
            r@ == (ChargeView {
                logical_name: ObisCode { a: 0, b: 0, c: 62, d: 0, e: 0, f: 255 },
                total_amount_charged: 0,
                charge_type: ChargeType::Fixed,
                priority_level: 0,
                unit_of_measure: Seq::empty(),
                currency: Seq::empty(),
                charge_per_unit: 0,
                active: false,
            }),
    {
        Self::new(Self::default_obis(), ChargeType::Fixed)
    }

    pub fn total_amount_charged(&self) -> (r: i64)
        ensures
            r == self@.total_amount_charged,
    {
        self.total_amount_charged
    }

    pub fn set_total_amount_charged(&mut self, amount: i64)
        ensures
            final(self)@ == (ChargeView { total_amount_charged: amount, ..old(self)@ }),
    {
        self.total_amount_charged = amount;
    }

    /// Adds `amount` to the total charged.
    pub fn add_charge(&mut self, amount: i64)
        requires
            i64::MIN <= old(self)@.total_amount_charged + amount <= i64::MAX,
        ensures
            final(self)@ == (ChargeView {
                total_amount_charged: (old(self)@.total_amount_charged + amount) as i64,
                ..old(self)@
            }),
    {
        self.total_amount_charged = self.total_amount_charged + amount;
    }

    pub fn charge_type(&self) -> (r: ChargeType)
        ensures
            r == self@.charge_type,
    {
        self.charge_type
    }

    pub fn set_charge_type(&mut self, charge_type: ChargeType)
        ensures
            final(self)@ == (ChargeView { charge_type, ..old(self)@ }),
    {
        self.charge_type = charge_type;
    }

    pub fn priority_level(&self) -> (r: u8)
        ensures
            r == self@.priority_level,
    {
        self.priority_level
    }

    pub fn set_priority_level(&mut self, level: u8)
        ensures
            final(self)@ == (ChargeView { priority_level: level, ..old(self)@ }),
    {
        self.priority_level = level;
    }

    pub fn unit_of_measure(&self) -> (r: String)
        ensures
            r@ == self@.unit_of_measure,
    {
        copy_string(&self.unit_of_measure)
    }

    pub fn set_unit_of_measure(&mut self, unit: String)
        ensures
            final(self)@ == (ChargeView { unit_of_measure: unit@, ..old(self)@ }),
    {
        self.unit_of_measure = unit;
    }

    pub fn currency(&self) -> (r: String)
        ensures
            r@ == self@.currency,
    {
        copy_string(&self.currency)
    }

    pub fn set_currency(&mut self, currency: String)
        ensures
            final(self)@ == (ChargeView { currency: currency@, ..old(self)@ }),
    {
        self.currency = currency;
    }

    pub fn charge_per_unit(&self) -> (r: i32)
        ensures
            r == self@.charge_per_unit,
    {
        self.charge_per_unit
    }

    pub fn set_charge_per_unit(&mut self, rate: i32)
        ensures
            final(self)@ == (ChargeView { charge_per_unit: rate, ..old(self)@ }),
    {
        self.charge_per_unit = rate;
    }

    pub fn is_active(&self) -> (r: bool)
        ensures
            r == self@.active,
    {
        self.active
    }

    pub fn set_active(&mut self, active: bool)
        ensures
            final(self)@ == (ChargeView { active, ..old(self)@ }),
    {
        self.active = active;
    }

    pub fn activate(&mut self)
        ensures
            final(self)@ == (ChargeView { active: true, ..old(self)@ }),
    {
        self.active = true;
    }

    pub fn deactivate(&mut self)
        ensures
            final(self)@ == (ChargeView { active: false, ..old(self)@ }),
    {
        self.active = false;
    }

    /// The charge for `quantity` units at the charge per unit.
    pub fn calculate_charge(&self, quantity: i64) -> (r: i64)
        requires
            i64::MIN <= quantity * self@.charge_per_unit <= i64::MAX,
        ensures
            r == quantity * self@.charge_per_unit,
    {
        quantity * (self.charge_per_unit as i64)
    }

    /// Sets the total charged back to zero.
    pub fn reset(&mut self)
        ensures
            final(self)@ == (ChargeView { total_amount_charged: 0, ..old(self)@ }),
    {
        self.total_amount_charged = 0;
    }
}

impl CosemObject for Charge {
    fn class_id(&self) -> (r: u16)
        ensures
            r == 62,
    {
        Self::CLASS_ID
    }

    fn obis_code(&self) -> (r: ObisCode)
        ensures
            r == self@.logical_name,
    {
        self.logical_name
    }

    fn get_attribute(
        &self,
        attribute_id: u8,
        selective_access: Option<&SelectiveAccessDescriptor>,
    ) -> (r: DlmsResult<DataObject>)
        ensures
            match attribute_id {
                1 => ok_octets(r, self@.logical_name.spec_bytes()),
                2 => yields(r, DataObject::Integer64(self@.total_amount_charged)),
                3 => yields(r, DataObject::Enumerate(self@.charge_type.spec_to_u8())),
                4 => yields(r, DataObject::Unsigned8(self@.priority_level)),
                5 => ok_octets(r, encode_utf8(self@.unit_of_measure)),
                6 => ok_octets(r, encode_utf8(self@.currency)),
                7 => yields(r, DataObject::Integer32(self@.charge_per_unit)),
                8 => yields(r, DataObject::Boolean(self@.active)),
                _ => invalid(r),
            },
    {
        match attribute_id {
            1 => Ok(DataObject::OctetString(self.logical_name.to_bytes())),
            2 => Ok(DataObject::Integer64(self.total_amount_charged)),
            3 => Ok(DataObject::Enumerate(self.charge_type.to_u8())),
            4 => Ok(DataObject::Unsigned8(self.priority_level)),
            5 => Ok(DataObject::OctetString(string_bytes(&self.unit_of_measure))),
            6 => Ok(DataObject::OctetString(string_bytes(&self.currency))),
            7 => Ok(DataObject::Integer32(self.charge_per_unit)),
            8 => Ok(DataObject::Boolean(self.active)),
            _ => Err(invalid_data_number("Charge has no attribute ", attribute_id as u64)),
        }
    }

    fn set_attribute(
        &mut self,
        attribute_id: u8,
        value: DataObject,
        selective_access: Option<&SelectiveAccessDescriptor>,
    ) -> (r: DlmsResult<()>)
        ensures
            r is Err ==> final(self)@ == old(self)@,
            match attribute_id {
                1 => denied(r),
                2 => match value {
                    DataObject::Integer64(v) => r is Ok && final(self)@ == (ChargeView {
                        total_amount_charged: v,
                        ..old(self)@
                    }),
                    _ => invalid(r),
                },
                3 => match value {
                    DataObject::Enumerate(v) => r is Ok && final(self)@ == (ChargeView {
                        charge_type: ChargeType::spec_from_u8(v),
                        ..old(self)@
                    }),
                    _ => invalid(r),
                },
                4 => match value {
                    DataObject::Unsigned8(v) => r is Ok && final(self)@ == (ChargeView {
                        priority_level: v,
                        ..old(self)@
                    }),
                    _ => invalid(r),
                },
                5 => match value {
                    DataObject::OctetString(b) => r is Ok && final(self)@ == (ChargeView {
                        unit_of_measure: spec_utf8_lossy(b@),
                        ..old(self)@
                    }),
                    _ => invalid(r),
                },
                6 => match value {
                    DataObject::OctetString(b) => r is Ok && final(self)@ == (ChargeView {
                        currency: spec_utf8_lossy(b@),
                        ..old(self)@
                    }),
                    _ => invalid(r),
                },
                7 => match value {
                    DataObject::Integer32(v) => r is Ok && final(self)@ == (ChargeView {
                        charge_per_unit: v,
                        ..old(self)@
                    }),
                    _ => invalid(r),
                },
                8 => match value {
                    DataObject::Boolean(v) => r is Ok && final(self)@ == (ChargeView { active: v, ..old(self)@ }),
                    _ => invalid(r),
                },
                _ => invalid(r),
            },
    {
        match attribute_id {
            1 => Err(access_denied("Attribute 1 (logical_name) is read-only")),
            2 => match value {
                DataObject::Integer64(v) => {
                    self.total_amount_charged = v;
                    Ok(())
                }
                _ => Err(invalid_data("Expected Integer64 for total_amount_charged")),
            },
            3 => match value {
                DataObject::Enumerate(v) => {
                    self.charge_type = ChargeType::from_u8(v);
                    Ok(())
                }
                _ => Err(invalid_data("Expected Enumerate for charge_type")),
            },
            4 => match value {
                DataObject::Unsigned8(v) => {
                    self.priority_level = v;
                    Ok(())
                }
                _ => Err(invalid_data("Expected Unsigned8 for priority_level")),
            },
            5 => match value {
                DataObject::OctetString(bytes) => {
                    self.unit_of_measure = string_from_bytes_lossy(bytes.as_slice());
                    Ok(())
                }
                _ => Err(invalid_data("Expected OctetString for unit_of_measure")),
            },
            6 => match value {
                DataObject::OctetString(bytes) => {
                    self.currency = string_from_bytes_lossy(bytes.as_slice());
                    Ok(())
                }
                _ => Err(invalid_data("Expected OctetString for currency")),
            },
            7 => match value {
                DataObject::Integer32(v) => {
                    self.charge_per_unit = v;
                    Ok(())
                }
                _ => Err(invalid_data("Expected Integer32 for charge_per_unit")),
            },
            8 => match value {
                DataObject::Boolean(v) => {
                    self.active = v;
                    Ok(())
                }
                _ => Err(invalid_data("Expected Boolean for active")),
            },
            _ => Err(invalid_data_number("Charge has no attribute ", attribute_id as u64)),
        }
    }

    fn invoke_method(
        &mut self,
        method_id: u8,
        parameters: Option<DataObject>,
        selective_access: Option<&SelectiveAccessDescriptor>,
    ) -> (r: DlmsResult<Option<DataObject>>)
        ensures
            invalid(r),
            final(self)@ == old(self)@,
    {
        Err(invalid_data_number("Charge has no method ", method_id as u64))
    }
}

} // verus!
