use vstd::prelude::*;
use crate::data_object::DataObject;
use crate::error::DlmsResult;
use crate::obis::ObisCode;
use crate::selective_access::SelectiveAccessDescriptor;

verus! {

/// The common interface of every COSEM interface class: class identity,
/// logical name, attribute access and method invocation.
///
/// Each interface class of this crate implements it and states, on its own
/// implementation, exactly what every call returns and changes.
pub trait CosemObject {
    /// The interface class identifier.
    fn class_id(&self) -> u16;

    /// The logical name of the object.
    fn obis_code(&self) -> ObisCode;

    /// Reads attribute `attribute_id`.
    fn get_attribute(
        &self,
        attribute_id: u8,
        selective_access: Option<&SelectiveAccessDescriptor>,
    ) -> DlmsResult<DataObject>;

    /// Writes attribute `attribute_id`.
    fn set_attribute(
        &mut self,
        attribute_id: u8,
        value: DataObject,
        selective_access: Option<&SelectiveAccessDescriptor>,
    ) -> DlmsResult<()>;

    /// Runs method `method_id`.
    fn invoke_method(
        &mut self,
        method_id: u8,
        parameters: Option<DataObject>,
        selective_access: Option<&SelectiveAccessDescriptor>,
    ) -> DlmsResult<Option<DataObject>>;
}

/// `r` succeeded with exactly `d` (a value without byte or element vectors).
pub open spec fn yields(r: DlmsResult<DataObject>, d: DataObject) -> bool {
    r matches Ok(x) && x == d
}

/// `r` failed with `InvalidData`.
pub open spec fn invalid<T>(r: DlmsResult<T>) -> bool {
    r matches Err(e) && e is InvalidData
}

/// `r` failed with `AccessDenied`.
pub open spec fn denied<T>(r: DlmsResult<T>) -> bool {
    r matches Err(e) && e is AccessDenied
}

} // verus!
