//! Extended Register with a plain scaler and a textual unit (class id 4).
use vstd::prelude::*;
use vstd::utf8::encode_utf8;
use crate::cosem_object::{denied, invalid, yields, CosemObject};
use crate::data_object::{ok_octets, DataObject};
use crate::error::{access_denied, invalid_data, invalid_data_number, DlmsResult};
use crate::obis::ObisCode;
use crate::selective_access::SelectiveAccessDescriptor;
use crate::text::{copy_string, spec_utf8_lossy, string_bytes, string_from_bytes_lossy};

verus! {

/// The state of an [`ExtendedRegisterScaler`].
pub struct ExtendedRegisterScalerView {
    pub logical_name: ObisCode,
    pub value: i64,
    pub scaler: i32,
    pub unit: Seq<char>,
}

/// Extended Register with a plain scaler and a textual unit (class id 4).
/// The scaled value is `value / 10^scaler`.
pub struct ExtendedRegisterScaler {
    logical_name: ObisCode,
    value: i64,
    scaler: i32,
    unit: String,
}

impl View for ExtendedRegisterScaler {
    type V = ExtendedRegisterScalerView;

    closed spec fn view(&self) -> ExtendedRegisterScalerView {
        ExtendedRegisterScalerView {
            logical_name: self.logical_name,
            value: self.value,
            scaler: self.scaler,
            unit: self.unit@,
        }
    }
}

impl ExtendedRegisterScaler {
    pub const CLASS_ID: u16 = 4;

    /// Default OBIS code 1-1:4.0.0.255.
    pub fn default_obis() -> (r: ObisCode)
        ensures
            r == (ObisCode { a: 1, b: 1, c: 4, d: 0, e: 0, f: 255 }),
    {
        ObisCode::new(1, 1, 4, 0, 0, 255)
    }

    /// Value 0, scaler 0 and an empty unit.
    pub fn new(logical_name: ObisCode) -> (r: ExtendedRegisterScaler)
        ensures
            r@ == (ExtendedRegisterScalerView { logical_name, value: 0, scaler: 0, unit: Seq::empty() }),
    {
        ExtendedRegisterScaler { logical_name, value: 0, scaler: 0, unit: String::new() }
    }

    pub fn with_default_obis() -> (r: ExtendedRegisterScaler)
        ensures
            r@ == (ExtendedRegisterScalerView {
                logical_name: ObisCode { a: 1, b: 1, c: 4, d: 0, e: 0, f: 255 },
                value: 0,
                scaler: 0,
                unit: Seq::empty(),
            }),
    {
        Self::new(Self::default_obis())
    }

    pub fn value(&self) -> (r: i64)
        ensures
            r == self@.value,
    {
        self.value
    }

    pub fn set_value(&mut self, value: i64)
        ensures
            final(self)@ == (ExtendedRegisterScalerView { value, ..old(self)@ }),
    {
        self.value = value;
    }

    pub fn scaler(&self) -> (r: i32)
        ensures
            r == self@.scaler,
    {
        self.scaler
    }

    pub fn set_scaler(&mut self, scaler: i32)
        ensures
            final(self)@ == (ExtendedRegisterScalerView { scaler, ..old(self)@ }),
    {
        self.scaler = scaler;
    }

    pub fn unit(&self) -> (r: String)
        ensures
            r@ == self@.unit,
    {
        copy_string(&self.unit)
    }

    pub fn set_unit(&mut self, unit: String)
        ensures
            final(self)@ == (ExtendedRegisterScalerView { unit: unit@, ..old(self)@ }),
    {
        self.unit = unit;
    }
}

impl CosemObject for ExtendedRegisterScaler {
    fn class_id(&self) -> (r: u16)
        ensures
            r == 4,
    {
        Self::CLASS_ID
    }

    fn obis_code(&self) -> (r: ObisCode)
        ensures
            r == self@.logical_name,
    {
        self.logical_name
    }

    /// The unit is read as the octet string of its UTF-8 bytes.
    fn get_attribute(
        &self,
        attribute_id: u8,
        selective_access: Option<&SelectiveAccessDescriptor>,
    ) -> (r: DlmsResult<DataObject>)
        ensures
            match attribute_id {
                1 => ok_octets(r, self@.logical_name.spec_bytes()),
                2 => yields(r, DataObject::Integer64(self@.value)),
                3 => yields(r, DataObject::Integer32(self@.scaler)),
                4 => ok_octets(r, encode_utf8(self@.unit)),
                _ => invalid(r),
            },
    {
        match attribute_id {
            1 => Ok(DataObject::OctetString(self.logical_name.to_bytes())),
            2 => Ok(DataObject::Integer64(self.value)),
            3 => Ok(DataObject::Integer32(self.scaler)),
            4 => Ok(DataObject::OctetString(string_bytes(&self.unit))),
            _ => Err(invalid_data_number("ExtendedRegisterScaler has no attribute ", attribute_id as u64)),
        }
    }

    /// The unit is written from an octet string, decoded as UTF-8 with
    /// invalid sequences replaced.
    fn set_attribute(
        &mut self,
        attribute_id: u8,
        value: DataObject,
        selective_access: Option<&SelectiveAccessDescriptor>,
    ) -> (r: DlmsResult<()>)
        ensures
            r is Err ==> final(self)@ == old(self)@,
            match attribute_id {
                1 => denied(r),
                2 => match value {
                    DataObject::Integer64(v) => r is Ok && final(self)@ == (ExtendedRegisterScalerView { value: v, ..old(self)@ }),
                    _ => invalid(r),
                },
                3 => match value {
                    DataObject::Integer32(s) => r is Ok && final(self)@ == (ExtendedRegisterScalerView { scaler: s, ..old(self)@ }),
                    _ => invalid(r),
                },
                4 => match value {
                    DataObject::OctetString(b) => r is Ok && final(self)@ == (ExtendedRegisterScalerView {
                        unit: spec_utf8_lossy(b@),
                        ..old(self)@
                    }),
                    _ => invalid(r),
                },
                _ => invalid(r),
            },
    {
        match attribute_id {
            1 => Err(access_denied("Attribute 1 is read-only")),
            2 => match value {
                DataObject::Integer64(v) => {
                    self.value = v;
                    Ok(())
                },
                _ => Err(invalid_data("Expected Integer64")),
            },
            3 => match value {
                DataObject::Integer32(s) => {
                    self.scaler = s;
                    Ok(())
                },
                _ => Err(invalid_data("Expected Integer32")),
            },
            4 => match value {
                DataObject::OctetString(bytes) => {
                    self.unit = string_from_bytes_lossy(bytes.as_slice());
                    Ok(())
                },
                _ => Err(invalid_data("Expected OctetString")),
            },
            _ => Err(invalid_data_number("ExtendedRegisterScaler has no attribute ", attribute_id as u64)),
        }
    }

    /// The class has no methods.
    fn invoke_method(
        &mut self,
        method_id: u8,
        parameters: Option<DataObject>,
        selective_access: Option<&SelectiveAccessDescriptor>,
    ) -> (r: DlmsResult<Option<DataObject>>)
        ensures
            invalid(r),
            final(self)@ == old(self)@,
    {
        Err(invalid_data_number("ExtendedRegisterScaler has no method ", method_id as u64))
    }
}

} // verus!
