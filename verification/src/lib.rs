//! COSEM interface classes for DLMS/COSEM smart-meter objects.
//!
//! Every interface class is a plain value whose attributes are read and
//! written through `get_attribute` / `set_attribute` and whose methods are
//! run through `invoke_method`; each of these states, in its contract, the
//! exact `DataObject` it hands out or the exact state it leaves behind.

pub mod obis;
pub mod error;
pub mod data_object;
pub mod text;
pub mod time_source;
pub mod selective_access;
pub mod datetime;
pub mod scaler_unit;
pub mod cosem_object;
pub mod version_text;
pub mod lists;

pub mod account;
pub mod alarm;
pub mod charge;
pub mod credit;
pub mod data_store;
pub mod disconnect_control;
pub mod firmware_controller;
pub mod generic_setup;
pub mod gprs_setup;
pub mod gsm_controller;
pub mod activity_calendar;
pub mod clock;
pub mod auto_connect;
pub mod ber;
pub mod descriptor;
pub mod association_lists;
pub mod association_ln;
pub mod association_sn;
pub mod action_schedule;
pub mod association_access;
pub mod boolean_array;
pub mod compact_data;
pub mod attribute;
pub mod image_transfer;
pub mod data;
pub mod demand_register;
pub mod extended_register;
pub mod extended_register_scaler;
pub mod iec_hdlc_setup;
pub mod iec_local_port_setup;
pub mod iec_twisted_pair_setup;

pub use obis::ObisCode;
pub use error::{DlmsError, DlmsResult};
pub use data_object::DataObject;
pub use selective_access::SelectiveAccessDescriptor;
pub use datetime::{CosemDate, CosemDateTime};
pub use scaler_unit::ScalerUnit;
pub use cosem_object::CosemObject;
