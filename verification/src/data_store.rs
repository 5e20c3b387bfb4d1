//! Data Store interface class (class id 2): storage of arbitrary data.
use vstd::prelude::*;
use crate::cosem_object::{denied, invalid, yields, CosemObject};
use crate::data_object::{copy_bytes, ok_octets, DataObject};
use crate::error::{access_denied, invalid_data, invalid_data_number, invalid_data_text, text_around_two, DlmsResult};
use crate::obis::ObisCode;
use crate::selective_access::SelectiveAccessDescriptor;

verus! {

/// Kind of stored data.
#[derive(Debug, Clone, Copy, PartialEq, Eq, Structural)]
pub enum DataStoreType {
    Binary,
    Text,
    Json,
    Xml,
    Custom,
}

impl DataStoreType {
    /// The wire code (`Custom` is 255).
    pub open spec fn spec_to_u8(self) -> u8 {
        match self {
            DataStoreType::Binary => 0,
            DataStoreType::Text => 1,
            DataStoreType::Json => 2,
            DataStoreType::Xml => 3,
            DataStoreType::Custom => 255,
        }
    }

    /// The type of a wire code; codes above 3 read as `Custom`.
    pub open spec fn spec_from_u8(value: u8) -> DataStoreType {
        match value {
            0 => DataStoreType::Binary,
            1 => DataStoreType::Text,
            2 => DataStoreType::Json,
            3 => DataStoreType::Xml,
            _ => DataStoreType::Custom,
        }
    }

    pub fn from_u8(value: u8) -> (r: DataStoreType)
        ensures
            r == DataStoreType::spec_from_u8(value),
    {
        match value {
            0 => DataStoreType::Binary,
            1 => DataStoreType::Text,
            2 => DataStoreType::Json,
            3 => DataStoreType::Xml,
            _ => DataStoreType::Custom,
        }
    }

    pub fn to_u8(self) -> (r: u8)
        ensures
            r == self.spec_to_u8(),
    {
        match self {
            DataStoreType::Binary => 0,
            DataStoreType::Text => 1,
            DataStoreType::Json => 2,
            DataStoreType::Xml => 3,
            DataStoreType::Custom => 255,
        }
    }
}

/// Every data store type survives the trip through its wire code.
pub proof fn lemma_data_store_type_code_roundtrip(t: DataStoreType)
    ensures
        DataStoreType::spec_from_u8(t.spec_to_u8()) == t,
{
}

/// The state of a [`DataStore`].
pub struct DataStoreView {
    pub logical_name: ObisCode,
    pub data_value: Seq<u8>,
    pub data_size: u32,
    pub data_type: DataStoreType,
}

/// Data Store interface class (class id 2).
pub struct DataStore {
    logical_name: ObisCode,
    data_value: Vec<u8>,
    data_size: u32,
    data_type: DataStoreType,
}

impl View for DataStore {
    type V = DataStoreView;

    closed spec fn view(&self) -> DataStoreView {
        DataStoreView {
            logical_name: self.logical_name,
            data_value: self.data_value@,
            data_size: self.data_size,
            data_type: self.data_type,
        }
    }
}

impl DataStore {
    pub const CLASS_ID: u16 = 2;
    pub const ATTR_LOGICAL_NAME: u8 = 1;
    pub const ATTR_DATA_VALUE: u8 = 2;
    pub const ATTR_DATA_SIZE: u8 = 3;
    pub const ATTR_DATA_TYPE: u8 = 4;

    /// Default OBIS code 0-0:2.0.0.255.
    pub fn default_obis() -> (r: ObisCode)
        ensures
            r == (ObisCode { a: 0, b: 0, c: 2, d: 0, e: 0, f: 255 }),
    {
        ObisCode::new(0, 0, 2, 0, 0, 255)
    }

    /// An empty binary store of at most 4096 bytes.
    pub fn new(logical_name: ObisCode) -> (r: DataStore)
        ensures
            r@ == (DataStoreView { logical_name, data_value: Seq::empty(), data_size: 4096, data_type: DataStoreType::Binary }),
    {
        DataStore { logical_name, data_value: Vec::new(), data_size: 4096, data_type: DataStoreType::Binary }
    }

    /// An empty binary store under the default OBIS code.
    pub fn with_default_obis() -> (r: DataStore)
        ensures
            r@ == (DataStoreView {
                logical_name: ObisCode { a: 0, b: 0, c: 2, d: 0, e: 0, f: 255 },
                data_value: Seq::empty(),
                data_size: 4096,
                data_type: DataStoreType::Binary,
            }),
    {
        Self::new(Self::default_obis())
    }

    /// An empty binary store of at most `size` bytes.
    pub fn with_size(logical_name: ObisCode, size: u32) -> (r: DataStore)
        ensures
            r@ == (DataStoreView { logical_name, data_value: Seq::empty(), data_size: size, data_type: DataStoreType::Binary }),
    {
        DataStore { logical_name, data_value: Vec::new(), data_size: size, data_type: DataStoreType::Binary }
    }

    pub fn data(&self) -> (r: Vec<u8>)
        ensures
            r@ == self@.data_value,
    {
        copy_bytes(&self.data_value)
    }

    /// Replaces the data; refused when its length, taken as a 32-bit count,
    /// exceeds the maximum size.
    pub fn set_data(&mut self, data: Vec<u8>) -> (r: DlmsResult<()>)
        ensures
            r is Ok <==> (data@.len() as u32) <= old(self)@.data_size,
            r is Ok ==> final(self)@ == (DataStoreView { data_value: data@, ..old(self)@ }),
            r is Err ==> invalid(r) && final(self)@ == old(self)@,
    {
        if data.len() as u32 > self.data_size {
            return Err(invalid_data_text(text_around_two("Data size ", data.len() as u64, " exceeds maximum ", self.data_size as u64, "")));
        }
        self.data_value = data;
        Ok(())
    }

    /// Appends `data`; refused when the combined length, in 32-bit counts,
    /// would exceed the maximum size.
    pub fn append_data(&mut self, data: &[u8]) -> (r: DlmsResult<()>)
        requires
            (old(self)@.data_value.len() as u32) + (data@.len() as u32) <= u32::MAX,
        ensures
            r is Ok <==> (old(self)@.data_value.len() as u32) + (data@.len() as u32) <= old(self)@.data_size,
            r is Ok ==> final(self)@ == (DataStoreView { data_value: old(self)@.data_value + data@, ..old(self)@ }),
            r is Err ==> invalid(r) && final(self)@ == old(self)@,
    {
        let current_size = self.data_value.len() as u32;
        if current_size + data.len() as u32 > self.data_size {
            return Err(invalid_data_number("Appending would exceed maximum size ", self.data_size as u64));
        }
        let ghost before = self.data_value@;
        self.data_value.extend_from_slice(data);
        assert(self.data_value@ =~= before + data@);
        Ok(())
    }

    pub fn clear(&mut self)
        ensures
            final(self)@ == (DataStoreView { data_value: Seq::empty(), ..old(self)@ }),
    {
        self.data_value.clear();
    }

    pub fn current_size(&self) -> (r: usize)
        ensures
            r == self@.data_value.len(),
    {
        self.data_value.len()
    }

    pub fn data_size(&self) -> (r: u32)
        ensures
            r == self@.data_size,
    {
        self.data_size
    }

    pub fn set_data_size(&mut self, size: u32)
        ensures
            final(self)@ == (DataStoreView { data_size: size, ..old(self)@ }),
    {
        self.data_size = size;
    }

    pub fn data_type(&self) -> (r: DataStoreType)
        ensures
            r == self@.data_type,
    {
        self.data_type
    }

    pub fn set_data_type(&mut self, data_type: DataStoreType)
        ensures
            final(self)@ == (DataStoreView { data_type, ..old(self)@ }),
    {
        self.data_type = data_type;
    }

    pub fn is_empty(&self) -> (r: bool)
        ensures
            r == (self@.data_value.len() == 0),
    {
        self.data_value.len() == 0
    }

    /// The maximum size less the current size (32-bit count), or 0.
    pub fn remaining_capacity(&self) -> (r: u32)
        ensures
            r == (if self@.data_size >= (self@.data_value.len() as u32) {
                (self@.data_size - (self@.data_value.len() as u32)) as u32
            } else {
                0u32
            }),
    {
        self.data_size.saturating_sub(self.data_value.len() as u32)
    }
}

impl CosemObject for DataStore {
    fn class_id(&self) -> (r: u16)
        ensures
            r == 2,
    {
        Self::CLASS_ID
    }

    fn obis_code(&self) -> (r: ObisCode)
        ensures
            r == self@.logical_name,
    {
        self.logical_name
    }

    fn get_attribute(
        &self,
        attribute_id: u8,
        selective_access: Option<&SelectiveAccessDescriptor>,
    ) -> (r: DlmsResult<DataObject>)
        ensures
            match attribute_id {
                1 => ok_octets(r, self@.logical_name.spec_bytes()),
                2 => ok_octets(r, self@.data_value),
                3 => yields(r, DataObject::Unsigned32(self@.data_size)),
                4 => yields(r, DataObject::Enumerate(self@.data_type.spec_to_u8())),
                _ => invalid(r),
            },
    {
        match attribute_id {
            1 => Ok(DataObject::OctetString(self.logical_name.to_bytes())),
            2 => Ok(DataObject::OctetString(copy_bytes(&self.data_value))),
            3 => Ok(DataObject::Unsigned32(self.data_size)),
            4 => Ok(DataObject::Enumerate(self.data_type.to_u8())),
            _ => Err(invalid_data_number("DataStore has no attribute ", attribute_id as u64)),
        }
    }

    fn set_attribute(
        &mut self,
        attribute_id: u8,
        value: DataObject,
        selective_access: Option<&SelectiveAccessDescriptor>,
    ) -> (r: DlmsResult<()>)
        ensures
            r is Err ==> final(self)@ == old(self)@,
            match attribute_id {
                1 => denied(r),
                2 => match value {
                    DataObject::OctetString(b) => if (b@.len() as u32) <= old(self)@.data_size {
                        r is Ok && final(self)@ == (DataStoreView { data_value: b@, ..old(self)@ })
                    } else {
                        invalid(r)
                    },
                    _ => invalid(r),
                },
                3 => match value {
                    DataObject::Unsigned32(v) => r is Ok && final(self)@ == (DataStoreView { data_size: v, ..old(self)@ }),
                    _ => invalid(r),
                },
                4 => match value {
                    DataObject::Enumerate(v) => r is Ok && final(self)@ == (DataStoreView {
                        data_type: DataStoreType::spec_from_u8(v),
                        ..old(self)@
                    }),
                    _ => invalid(r),
                },
                _ => invalid(r),
            },
    {
        match attribute_id {
            1 => Err(access_denied("Attribute 1 (logical_name) is read-only")),
            2 => match value {
                DataObject::OctetString(bytes) => self.set_data(bytes),
                _ => Err(invalid_data("Expected OctetString for data_value")),
            },
            3 => match value {
                DataObject::Unsigned32(v) => {
                    self.data_size = v;
                    Ok(())
                }
                _ => Err(invalid_data("Expected Unsigned32 for data_size")),
            },
            4 => match value {
                DataObject::Enumerate(v) => {
                    self.data_type = DataStoreType::from_u8(v);
                    Ok(())
                }
                _ => Err(invalid_data("Expected Enumerate for data_type")),
            },
            _ => Err(invalid_data_number("DataStore has no attribute ", attribute_id as u64)),
        }
    }

    fn invoke_method(
        &mut self,
        method_id: u8,
        parameters: Option<DataObject>,
        selective_access: Option<&SelectiveAccessDescriptor>,
    ) -> (r: DlmsResult<Option<DataObject>>)
        ensures
            invalid(r),
            final(self)@ == old(self)@,
    {
        Err(invalid_data_number("DataStore has no method ", method_id as u64))
    }
}

} // verus!
