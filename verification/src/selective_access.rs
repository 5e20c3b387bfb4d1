use vstd::prelude::*;
use crate::data_object::DataObject;

verus! {

/// Selective-access descriptor of a GET or SET request: the selector and
/// its parameters. The interface classes of this crate accept it and
/// ignore it.
#[derive(Debug)]
pub struct SelectiveAccessDescriptor {
    pub access_selector: u8,
    pub access_parameters: DataObject,
}

} // verus!
