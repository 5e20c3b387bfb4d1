use vstd::prelude::*;
use crate::data_object::DataObject;
use crate::error::{invalid_data, DlmsResult};

verus! {

/// Scaler and unit of a register value: the value means
/// `value * 10^scaler` in the unit with the given DLMS unit code.
#[derive(Debug, Clone, Copy, PartialEq, Eq, Structural)]
pub struct ScalerUnit {
    pub scaler: i8,
    pub unit: u8,
}

impl ScalerUnit {
    pub fn new(scaler: i8, unit: u8) -> (r: ScalerUnit)
        ensures
            r == (ScalerUnit { scaler, unit }),
    {
        ScalerUnit { scaler, unit }
    }

    /// `d` is the structure `{ Integer8(scaler), Enumerate(unit) }`.
    pub open spec fn is_encoding(self, d: DataObject) -> bool {
        d matches DataObject::Structure(items) && items@.len() == 2
            && items@[0] == DataObject::Integer8(self.scaler)
            && items@[1] == DataObject::Enumerate(self.unit)
    }

    /// The scaler-unit pair a data value denotes, if it is the two-element
    /// structure `{ Integer8, Enumerate }`.
    pub open spec fn spec_from_data_object(d: DataObject) -> Option<ScalerUnit> {
        match d {
            DataObject::Structure(items) => if items@.len() == 2 {
                match (items@[0], items@[1]) {
                    (DataObject::Integer8(s), DataObject::Enumerate(u)) => Some(ScalerUnit { scaler: s, unit: u }),
                    _ => None,
                }
            } else {
                None
            },
            _ => None,
        }
    }

    /// The structure `{ Integer8(scaler), Enumerate(unit) }`.
    pub fn to_data_object(&self) -> (r: DataObject)
        ensures
            self.is_encoding(r),
            ScalerUnit::spec_from_data_object(r) == Some(*self),
    {
        let mut items: Vec<DataObject> = Vec::new();
        items.push(DataObject::Integer8(self.scaler));
        items.push(DataObject::Enumerate(self.unit));
        DataObject::Structure(items)
    }

    /// Reads a scaler-unit pair from `{ Integer8, Enumerate }`.
    pub fn from_data_object(d: &DataObject) -> (r: DlmsResult<ScalerUnit>)
        ensures
            r is Ok <==> ScalerUnit::spec_from_data_object(*d) is Some,
            r matches Ok(su) ==> ScalerUnit::spec_from_data_object(*d) == Some(su),
            r matches Err(e) ==> e is InvalidData,
    {
        match d {
            DataObject::Structure(items) => {
                if items.len() != 2 {
                    return Err(invalid_data("Expected a two-element structure for scaler_unit"));
                }
                match (&items[0], &items[1]) {
                    (DataObject::Integer8(s), DataObject::Enumerate(u)) => Ok(ScalerUnit { scaler: *s, unit: *u }),
                    _ => Err(invalid_data("Expected Integer8 and Enumerate for scaler_unit")),
                }
            }
            _ => Err(invalid_data("Expected a structure for scaler_unit")),
        }
    }

    /// The scaler.
    pub fn scaler(&self) -> (r: i8)
        ensures
            r == self.scaler,
    {
        self.scaler
    }

    /// The unit code.
    pub fn unit(&self) -> (r: u8)
        ensures
            r == self.unit,
    {
        self.unit
    }
}

/// `d` is `Null` for no scaler-unit and its structure otherwise.
pub open spec fn is_optional_scaler_unit(d: DataObject, o: Option<ScalerUnit>) -> bool {
    match o {
        None => d == DataObject::Null,
        Some(su) => su.is_encoding(d),
    }
}

/// `Null` for no scaler-unit, its structure otherwise.
pub fn encode_optional_scaler_unit(o: &Option<ScalerUnit>) -> (r: DataObject)
    ensures
        is_optional_scaler_unit(r, *o),
{
    match o {
        Some(su) => su.to_data_object(),
        None => DataObject::Null,
    }
}

} // verus!
