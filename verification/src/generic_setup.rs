//! Generic Setup interface class (class id 26): eight configurable parameters.
use vstd::prelude::*;
use crate::cosem_object::{denied, invalid, yields, CosemObject};
use crate::data_object::{copy_bytes, ok_octets, DataObject};
use crate::error::{access_denied, invalid_data, invalid_data_number, DlmsResult};
use crate::obis::ObisCode;
use crate::selective_access::SelectiveAccessDescriptor;

verus! {

/// The state of a [`GenericSetup`].
pub struct GenericSetupView {
    pub logical_name: ObisCode,
    pub parameter_1: u8,
    pub parameter_2: u16,
    pub parameter_3: u32,
    pub parameter_4: i8,
    pub parameter_5: i16,
    pub parameter_6: i32,
    pub parameter_7: bool,
    pub parameter_8: Seq<u8>,
}

/// Every parameter at its default: zero, `false` and no bytes.
pub open spec fn generic_setup_defaults(logical_name: ObisCode) -> GenericSetupView {
    GenericSetupView {
        logical_name,
        parameter_1: 0,
        parameter_2: 0,
        parameter_3: 0,
        parameter_4: 0,
        parameter_5: 0,
        parameter_6: 0,
        parameter_7: false,
        parameter_8: Seq::empty(),
    }
}

/// Generic Setup interface class (class id 26).
pub struct GenericSetup {
    logical_name: ObisCode,
    parameter_1: u8,
    parameter_2: u16,
    parameter_3: u32,
    parameter_4: i8,
    parameter_5: i16,
    parameter_6: i32,
    parameter_7: bool,
    parameter_8: Vec<u8>,
}

impl View for GenericSetup {
    type V = GenericSetupView;

    closed spec fn view(&self) -> GenericSetupView {
        GenericSetupView {
            logical_name: self.logical_name,
            parameter_1: self.parameter_1,
            parameter_2: self.parameter_2,
            parameter_3: self.parameter_3,
            parameter_4: self.parameter_4,
            parameter_5: self.parameter_5,
            parameter_6: self.parameter_6,
            parameter_7: self.parameter_7,
            parameter_8: self.parameter_8@,
        }
    }
}

impl GenericSetup {
    pub const CLASS_ID: u16 = 26;
    pub const ATTR_LOGICAL_NAME: u8 = 1;
    pub const ATTR_PARAMETER_1: u8 = 2;
    pub const ATTR_PARAMETER_2: u8 = 3;
    pub const ATTR_PARAMETER_3: u8 = 4;
    pub const ATTR_PARAMETER_4: u8 = 5;
    pub const ATTR_PARAMETER_5: u8 = 6;
    pub const ATTR_PARAMETER_6: u8 = 7;
    pub const ATTR_PARAMETER_7: u8 = 8;
    pub const ATTR_PARAMETER_8: u8 = 9;

    /// Default OBIS code 0-0:26.0.0.255.
    pub fn default_obis() -> (r: ObisCode)
        ensures
            r == (ObisCode { a: 0, b: 0, c: 26, d: 0, e: 0, f: 255 }),
    {
        ObisCode::new(0, 0, 26, 0, 0, 255)
    }

    pub fn new(logical_name: ObisCode) -> (r: GenericSetup)
        ensures
            r@ == generic_setup_defaults(logical_name),
    {
        GenericSetup {
            logical_name,
            parameter_1: 0,
            parameter_2: 0,
            parameter_3: 0,
            parameter_4: 0,
            parameter_5: 0,
            parameter_6: 0,
            parameter_7: false,
            parameter_8: Vec::new(),
        }
    }

    pub fn with_default_obis() -> (r: GenericSetup)
        ensures
            r@ == generic_setup_defaults(ObisCode { a: 0, b: 0, c: 26, d: 0, e: 0, f: 255 }),
    {
        Self::new(Self::default_obis())
    }

    pub fn parameter_1(&self) -> (r: u8)
        ensures
            r == self@.parameter_1,
    {
        self.parameter_1
    }

    pub fn set_parameter_1(&mut self, value: u8)
        ensures
            final(self)@ == (GenericSetupView { parameter_1: value, ..old(self)@ }),
    {
        self.parameter_1 = value;
    }

    pub fn parameter_2(&self) -> (r: u16)
        ensures
            r == self@.parameter_2,
    {
        self.parameter_2
    }

    pub fn set_parameter_2(&mut self, value: u16)
        ensures
            final(self)@ == (GenericSetupView { parameter_2: value, ..old(self)@ }),
    {
        self.parameter_2 = value;
    }

    pub fn parameter_3(&self) -> (r: u32)
        ensures
            r == self@.parameter_3,
    {
        self.parameter_3
    }

    pub fn set_parameter_3(&mut self, value: u32)
        ensures
            final(self)@ == (GenericSetupView { parameter_3: value, ..old(self)@ }),
    {
        self.parameter_3 = value;
    }

    pub fn parameter_4(&self) -> (r: i8)
        ensures
            r == self@.parameter_4,
    {
        self.parameter_4
    }

    pub fn set_parameter_4(&mut self, value: i8)
        ensures
            final(self)@ == (GenericSetupView { parameter_4: value, ..old(self)@ }),
    {
        self.parameter_4 = value;
    }

    pub fn parameter_5(&self) -> (r: i16)
        ensures
            r == self@.parameter_5,
    {
        self.parameter_5
    }

    pub fn set_parameter_5(&mut self, value: i16)
        ensures
            final(self)@ == (GenericSetupView { parameter_5: value, ..old(self)@ }),
    {
        self.parameter_5 = value;
    }

    pub fn parameter_6(&self) -> (r: i32)
        ensures
            r == self@.parameter_6,
    {
        self.parameter_6
    }

    pub fn set_parameter_6(&mut self, value: i32)
        ensures
            final(self)@ == (GenericSetupView { parameter_6: value, ..old(self)@ }),
    {
        self.parameter_6 = value;
    }

    pub fn parameter_7(&self) -> (r: bool)
        ensures
            r == self@.parameter_7,
    {
        self.parameter_7
    }

    pub fn set_parameter_7(&mut self, value: bool)
        ensures
            final(self)@ == (GenericSetupView { parameter_7: value, ..old(self)@ }),
    {
        self.parameter_7 = value;
    }

    pub fn parameter_8(&self) -> (r: Vec<u8>)
        ensures
            r@ == self@.parameter_8,
    {
        copy_bytes(&self.parameter_8)
    }

    pub fn set_parameter_8(&mut self, value: Vec<u8>)
        ensures
            final(self)@ == (GenericSetupView { parameter_8: value@, ..old(self)@ }),
    {
        self.parameter_8 = value;
    }

    /// Puts every parameter back to its default.
    pub fn reset_all(&mut self)
        ensures
            final(self)@ == generic_setup_defaults(old(self)@.logical_name),
    {
        self.parameter_1 = 0;
        self.parameter_2 = 0;
        self.parameter_3 = 0;
        self.parameter_4 = 0;
        self.parameter_5 = 0;
        self.parameter_6 = 0;
        self.parameter_7 = false;
        self.parameter_8 = Vec::new();
    }
}

impl CosemObject for GenericSetup {
    fn class_id(&self) -> (r: u16)
        ensures
            r == 26,
    {
        Self::CLASS_ID
    }

    fn obis_code(&self) -> (r: ObisCode)
        ensures
            r == self@.logical_name,
    {
        self.logical_name
    }

    fn get_attribute(
        &self,
        attribute_id: u8,
        selective_access: Option<&SelectiveAccessDescriptor>,
    ) -> (r: DlmsResult<DataObject>)
        ensures
            match attribute_id {
                1 => ok_octets(r, self@.logical_name.spec_bytes()),
                2 => yields(r, DataObject::Unsigned8(self@.parameter_1)),
                3 => yields(r, DataObject::Unsigned16(self@.parameter_2)),
                4 => yields(r, DataObject::Unsigned32(self@.parameter_3)),
                5 => yields(r, DataObject::Integer8(self@.parameter_4)),
                6 => yields(r, DataObject::Integer16(self@.parameter_5)),
                7 => yields(r, DataObject::Integer32(self@.parameter_6)),
                8 => yields(r, DataObject::Boolean(self@.parameter_7)),
                9 => ok_octets(r, self@.parameter_8),
                _ => invalid(r),
            },
    {
        match attribute_id {
            1 => Ok(DataObject::OctetString(self.logical_name.to_bytes())),
            2 => Ok(DataObject::Unsigned8(self.parameter_1)),
            3 => Ok(DataObject::Unsigned16(self.parameter_2)),
            4 => Ok(DataObject::Unsigned32(self.parameter_3)),
            5 => Ok(DataObject::Integer8(self.parameter_4)),
            6 => Ok(DataObject::Integer16(self.parameter_5)),
            7 => Ok(DataObject::Integer32(self.parameter_6)),
            8 => Ok(DataObject::Boolean(self.parameter_7)),
            9 => Ok(DataObject::OctetString(copy_bytes(&self.parameter_8))),
            _ => Err(invalid_data_number("GenericSetup has no attribute ", attribute_id as u64)),
        }
    }

    fn set_attribute(
        &mut self,
        attribute_id: u8,
        value: DataObject,
        selective_access: Option<&SelectiveAccessDescriptor>,
    ) -> (r: DlmsResult<()>)
        ensures
            r is Err ==> final(self)@ == old(self)@,
            match attribute_id {
                1 => denied(r),
                2 => match value {
                    DataObject::Unsigned8(v) => r is Ok && final(self)@ == (GenericSetupView { parameter_1: v, ..old(self)@ }),
                    _ => invalid(r),
                },
                3 => match value {
                    DataObject::Unsigned16(v) => r is Ok && final(self)@ == (GenericSetupView { parameter_2: v, ..old(self)@ }),
                    _ => invalid(r),
                },
                4 => match value {
                    DataObject::Unsigned32(v) => r is Ok && final(self)@ == (GenericSetupView { parameter_3: v, ..old(self)@ }),
                    _ => invalid(r),
                },
                5 => match value {
                    DataObject::Integer8(v) => r is Ok && final(self)@ == (GenericSetupView { parameter_4: v, ..old(self)@ }),
                    _ => invalid(r),
                },
                6 => match value {
                    DataObject::Integer16(v) => r is Ok && final(self)@ == (GenericSetupView { parameter_5: v, ..old(self)@ }),
                    _ => invalid(r),
                },
                7 => match value {
                    DataObject::Integer32(v) => r is Ok && final(self)@ == (GenericSetupView { parameter_6: v, ..old(self)@ }),
                    _ => invalid(r),
                },
                8 => match value {
                    DataObject::Boolean(v) => r is Ok && final(self)@ == (GenericSetupView { parameter_7: v, ..old(self)@ }),
                    _ => invalid(r),
                },
                9 => match value {
                    DataObject::OctetString(b) => r is Ok && final(self)@ == (GenericSetupView { parameter_8: b@, ..old(self)@ }),
                    _ => invalid(r),
                },
                _ => invalid(r),
            },
    {
        match attribute_id {
            1 => Err(access_denied("Attribute 1 (logical_name) is read-only")),
            2 => match value {
                DataObject::Unsigned8(v) => {
                    self.parameter_1 = v;
                    Ok(())
                }
                _ => Err(invalid_data("Expected Unsigned8 for parameter_1")),
            },
            3 => match value {
                DataObject::Unsigned16(v) => {
                    self.parameter_2 = v;
                    Ok(())
                }
                _ => Err(invalid_data("Expected Unsigned16 for parameter_2")),
            },
            4 => match value {
                DataObject::Unsigned32(v) => {
                    self.parameter_3 = v;
                    Ok(())
                }
                _ => Err(invalid_data("Expected Unsigned32 for parameter_3")),
            },
            5 => match value {
                DataObject::Integer8(v) => {
                    self.parameter_4 = v;
                    Ok(())
                }
                _ => Err(invalid_data("Expected Integer8 for parameter_4")),
            },
            6 => match value {
                DataObject::Integer16(v) => {
                    self.parameter_5 = v;
                    Ok(())
                }
                _ => Err(invalid_data("Expected Integer16 for parameter_5")),
            },
            7 => match value {
                DataObject::Integer32(v) => {
                    self.parameter_6 = v;
                    Ok(())
                }
                _ => Err(invalid_data("Expected Integer32 for parameter_6")),
            },
            8 => match value {
                DataObject::Boolean(v) => {
                    self.parameter_7 = v;
                    Ok(())
                }
                _ => Err(invalid_data("Expected Boolean for parameter_7")),
            },
            9 => match value {
                DataObject::OctetString(bytes) => {
                    self.parameter_8 = bytes;
                    Ok(())
                }
                _ => Err(invalid_data("Expected OctetString for parameter_8")),
            },
            _ => Err(invalid_data_number("GenericSetup has no attribute ", attribute_id as u64)),
        }
    }

    fn invoke_method(
        &mut self,
        method_id: u8,
        parameters: Option<DataObject>,
        selective_access: Option<&SelectiveAccessDescriptor>,
    ) -> (r: DlmsResult<Option<DataObject>>)
        ensures
            invalid(r),
            final(self)@ == old(self)@,
    {
        Err(invalid_data_number("GenericSetup has no method ", method_id as u64))
    }
}

} // verus!
