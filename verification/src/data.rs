//! Data interface class (class id 1): one value, read and written whole.
use vstd::prelude::*;
use crate::cosem_object::{denied, invalid, CosemObject};
use crate::data_object::{data_equal, ok_octets, DataObject};
use crate::error::{access_denied, invalid_data_number, DlmsResult};
use crate::obis::ObisCode;
use crate::selective_access::SelectiveAccessDescriptor;

verus! {

/// The state of a [`Data`] object.
pub struct DataView {
    pub logical_name: ObisCode,
    pub value: DataObject,
}

/// Data interface class (class id 1).
pub struct Data {
    logical_name: ObisCode,
    value: DataObject,
}

impl View for Data {
    type V = DataView;

    closed spec fn view(&self) -> DataView {
        DataView { logical_name: self.logical_name, value: self.value }
    }
}

impl Data {
    pub fn new(logical_name: ObisCode, value: DataObject) -> (r: Data)
        ensures
            r@ == (DataView { logical_name, value }),
    {
        Data { logical_name, value }
    }

    /// A copy of the value.
    pub fn value(&self) -> (r: DataObject)
        ensures
            data_equal(r, self@.value),
    {
        self.value.deep_copy()
    }

    pub fn set_value(&mut self, new_value: DataObject)
        ensures
            final(self)@ == (DataView { value: new_value, ..old(self)@ }),
    {
        self.value = new_value;
    }

    pub fn logical_name(&self) -> (r: ObisCode)
        ensures
            r == self@.logical_name,
    {
        self.logical_name
    }
}

impl CosemObject for Data {
    fn class_id(&self) -> (r: u16)
        ensures
            r == 1,
    {
        1
    }

    fn obis_code(&self) -> (r: ObisCode)
        ensures
            r == self@.logical_name,
    {
        self.logical_name
    }

    fn get_attribute(
        &self,
        attribute_id: u8,
        selective_access: Option<&SelectiveAccessDescriptor>,
    ) -> (r: DlmsResult<DataObject>)
        ensures
            match attribute_id {
                1 => ok_octets(r, self@.logical_name.spec_bytes()),
                2 => r matches Ok(d) && data_equal(d, self@.value),
                _ => invalid(r),
            },
    {
        match attribute_id {
            1 => Ok(DataObject::OctetString(self.logical_name.to_bytes())),
            2 => Ok(self.value.deep_copy()),
            _ => Err(invalid_data_number("Data interface class has no attribute ", attribute_id as u64)),
        }
    }

    /// The value takes any data; the logical name is read-only.
    fn set_attribute(
        &mut self,
        attribute_id: u8,
        value: DataObject,
        selective_access: Option<&SelectiveAccessDescriptor>,
    ) -> (r: DlmsResult<()>)
        ensures
            r is Err ==> final(self)@ == old(self)@,
            match attribute_id {
                1 => denied(r),
                2 => r is Ok && final(self)@ == (DataView { value, ..old(self)@ }),
                _ => invalid(r),
            },
    {
        match attribute_id {
            1 => Err(access_denied("Attribute 1 (logical_name) is read-only")),
            2 => {
                self.value = value;
                Ok(())
            },
            _ => Err(invalid_data_number("Data interface class has no attribute ", attribute_id as u64)),
        }
    }

    fn invoke_method(
        &mut self,
        method_id: u8,
        parameters: Option<DataObject>,
        selective_access: Option<&SelectiveAccessDescriptor>,
    ) -> (r: DlmsResult<Option<DataObject>>)
        ensures
            invalid(r),
            final(self)@ == old(self)@,
    {
        Err(invalid_data_number("Data interface class has no method ", method_id as u64))
    }
}

} // verus!
