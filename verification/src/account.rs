//! Account interface class (class id 60): a prepaid customer account.
use vstd::prelude::*;
use vstd::utf8::encode_utf8;
use crate::cosem_object::{denied, invalid, yields, CosemObject};
use crate::data_object::{ok_octets, DataObject};
use crate::error::{access_denied, invalid_data, invalid_data_number, DlmsResult};
use crate::obis::ObisCode;
use crate::selective_access::SelectiveAccessDescriptor;
use crate::text::{copy_string, spec_utf8_lossy, string_bytes, string_from_bytes_lossy};

verus! {

/// Credit status of an account.
#[derive(Debug, Clone, Copy, PartialEq, Eq, Structural)]
pub enum CreditStatus {
    /// Credit available, service enabled.
    Enabled,
    /// No credit, service cut off.
    Disabled,
    /// Credit below the low-credit threshold.
    LowCredit,
    /// Emergency credit in use.
    EmergencyCredit,
}

impl CreditStatus {
    /// The wire code of the status.
    pub open spec fn spec_to_u8(self) -> u8 {
        match self {
            CreditStatus::Enabled => 0,
            CreditStatus::Disabled => 1,
            CreditStatus::LowCredit => 2,
            CreditStatus::EmergencyCredit => 3,
        }
    }

    /// The status of a wire code; unknown codes read as `Disabled`.
    pub open spec fn spec_from_u8(value: u8) -> CreditStatus {
        match value {
            0 => CreditStatus::Enabled,
            2 => CreditStatus::LowCredit,
            3 => CreditStatus::EmergencyCredit,
            _ => CreditStatus::Disabled,
        }
    }

    pub fn from_u8(value: u8) -> (r: CreditStatus)
        ensures
            r == CreditStatus::spec_from_u8(value),
    {
        match value {
            0 => CreditStatus::Enabled,
            1 => CreditStatus::Disabled,
            2 => CreditStatus::LowCredit,
            3 => CreditStatus::EmergencyCredit,
            _ => CreditStatus::Disabled,
        }
    }

    pub fn to_u8(self) -> (r: u8)
        ensures
            r == self.spec_to_u8(),
    {
        match self {
            CreditStatus::Enabled => 0,
            CreditStatus::Disabled => 1,
            CreditStatus::LowCredit => 2,
            CreditStatus::EmergencyCredit => 3,
        }
    }

    /// Service is on in every status but `Disabled`.
    pub fn is_enabled(self) -> (r: bool)
        ensures
            r == (self != CreditStatus::Disabled),
    {
        !matches!(self, CreditStatus::Disabled)
    }

    /// Low credit is shown in `LowCredit` and `EmergencyCredit`.
    pub fn is_low_credit(self) -> (r: bool)
        ensures
            r == (self == CreditStatus::LowCredit || self == CreditStatus::EmergencyCredit),
    {
        matches!(self, CreditStatus::LowCredit | CreditStatus::EmergencyCredit)
    }
}

/// Every status survives the trip through its wire code.
pub proof fn lemma_credit_status_code_roundtrip(s: CreditStatus)
    ensures
        CreditStatus::spec_from_u8(s.spec_to_u8()) == s,
{
}

/// The state of an [`Account`].
pub struct AccountView {
    pub logical_name: ObisCode,
    pub account_id: Seq<char>,
    pub current_credit: i64,
    pub credit_status: CreditStatus,
    pub credit_threshold: i64,
    pub currency: Seq<char>,
    pub low_credit_threshold: i64,
    pub maximum_credit: i64,
}

/// The status an account takes after its credit or credit threshold
/// changes: `Disabled` below the threshold, `LowCredit` below the low-credit
/// threshold, `Enabled` otherwise.
pub open spec fn status_for_credit(current: i64, threshold: i64, low_threshold: i64) -> CreditStatus {
    if current < threshold {
        CreditStatus::Disabled
    } else if current < low_threshold {
        CreditStatus::LowCredit
    } else {
        CreditStatus::Enabled
    }
}

/// Account interface class (class id 60).
pub struct Account {
    logical_name: ObisCode,
    account_id: String,
    current_credit: i64,
    credit_status: CreditStatus,
    credit_threshold: i64,
    currency: String,
    low_credit_threshold: i64,
    maximum_credit: i64,
}

impl View for Account {
    type V = AccountView;

    closed spec fn view(&self) -> AccountView {
        AccountView {
            logical_name: self.logical_name,
            account_id: self.account_id@,
            current_credit: self.current_credit,
            credit_status: self.credit_status,
            credit_threshold: self.credit_threshold,
            currency: self.currency@,
            low_credit_threshold: self.low_credit_threshold,
            maximum_credit: self.maximum_credit,
        }
    }
}

impl AccountView {
    /// The state after the credit becomes `credit` and the status follows it.
    pub open spec fn with_credit(self, credit: i64) -> AccountView {
        AccountView {
            current_credit: credit,
            credit_status: status_for_credit(credit, self.credit_threshold, self.low_credit_threshold),
            ..self
        }
    }
}

impl Account {
    pub const CLASS_ID: u16 = 60;
    pub const ATTR_LOGICAL_NAME: u8 = 1;
    pub const ATTR_ACCOUNT_ID: u8 = 2;
    pub const ATTR_CURRENT_CREDIT: u8 = 3;
    pub const ATTR_CREDIT_STATUS: u8 = 4;
    pub const ATTR_CREDIT_THRESHOLD: u8 = 5;
    pub const ATTR_CURRENCY: u8 = 6;
    pub const ATTR_LOW_CREDIT_THRESHOLD: u8 = 7;
    pub const ATTR_MAXIMUM_CREDIT: u8 = 8;

    /// Default OBIS code 0-0:60.0.0.255.
    pub fn default_obis() -> (r: ObisCode)
        ensures
            r == (ObisCode { a: 0, b: 0, c: 60, d: 0, e: 0, f: 255 }),
    {
        ObisCode::new(0, 0, 60, 0, 0, 255)
    }

    /// A fresh account: no credit, disabled, low-credit threshold 100, no
    /// maximum below `i64::MAX`.
    pub fn new(logical_name: ObisCode) -> (r: Account)
        ensures
            r@ == (AccountView {
                logical_name,
                account_id: Seq::empty(),
                current_credit: 0,
                credit_status: CreditStatus::Disabled,
                credit_threshold: 0,
                currency: Seq::empty(),
                low_credit_threshold: 100,
                maximum_credit: i64::MAX,
            }),
    {
        Account {
            logical_name,
            account_id: String::new(),
            current_credit: 0,
            credit_status: CreditStatus::Disabled,
            credit_threshold: 0,
            currency: String::new(),
            low_credit_threshold: 100,
            maximum_credit: i64::MAX,
        }
    }

    /// A fresh account under the default OBIS code.
    pub fn with_default_obis() -> (r: Account)
        ensures
            r@ == (AccountView {
                logical_name: ObisCode { a: 0, b: 0, c: 60, d: 0, e: 0, f: 255 },
                account_id: Seq::empty(),
                current_credit: 0,
                credit_status: CreditStatus::Disabled,
                credit_threshold: 0,
                currency: Seq::empty(),
                low_credit_threshold: 100,
                maximum_credit: i64::MAX,
            }),
    {
        Self::new(Self::default_obis())
    }

    pub fn account_id(&self) -> (r: String)
        ensures
            r@ == self@.account_id,
    {
        copy_string(&self.account_id)
    }

    pub fn set_account_id(&mut self, id: String)
        ensures
            final(self)@ == (AccountView { account_id: id@, ..old(self)@ }),
    {
        self.account_id = id;
    }

    pub fn current_credit(&self) -> (r: i64)
        ensures
            r == self@.current_credit,
    {
        self.current_credit
    }

    /// Sets the credit; the status follows it.
    pub fn set_current_credit(&mut self, credit: i64)
        ensures
            final(self)@ == old(self)@.with_credit(credit),
    {
        self.current_credit = credit;
        self.update_status();
    }

    /// Adds `amount` to the credit, refused when the result would exceed the
    /// maximum credit; the status follows the new credit.
    pub fn add_credit(&mut self, amount: i64) -> (r: DlmsResult<()>)
        requires
            i64::MIN <= old(self)@.current_credit + amount <= i64::MAX,
        ensures
            r is Ok <==> old(self)@.current_credit + amount <= old(self)@.maximum_credit,
            r is Ok ==> final(self)@ == old(self)@.with_credit((old(self)@.current_credit + amount) as i64),
            r is Err ==> invalid(r) && final(self)@ == old(self)@,
    {
        let new_credit = self.current_credit + amount;
        if new_credit > self.maximum_credit {
            return Err(invalid_data("Credit exceeds maximum"));
        }
        self.current_credit = new_credit;
        self.update_status();
        Ok(())
    }

    /// Takes `amount` from the credit, refused when the result would fall
    /// below the credit threshold; the status follows the new credit.
    pub fn consume_credit(&mut self, amount: i64) -> (r: DlmsResult<()>)
        requires
            i64::MIN <= old(self)@.current_credit - amount <= i64::MAX,
        ensures
            r is Ok <==> old(self)@.current_credit - amount >= old(self)@.credit_threshold,
            r is Ok ==> final(self)@ == old(self)@.with_credit((old(self)@.current_credit - amount) as i64),
            r is Err ==> invalid(r) && final(self)@ == old(self)@,
    {
        let new_credit = self.current_credit - amount;
        if new_credit < self.credit_threshold {
            return Err(invalid_data("Insufficient credit"));
        }
        self.current_credit = new_credit;
        self.update_status();
        Ok(())
    }

    fn update_status(&mut self)
        ensures
            final(self)@ == old(self)@.with_credit(old(self)@.current_credit),
    {
        let status = if self.current_credit < self.credit_threshold {
            CreditStatus::Disabled
        } else if self.current_credit < self.low_credit_threshold {
            CreditStatus::LowCredit
        } else {
            CreditStatus::Enabled
        };
        self.credit_status = status;
    }

    pub fn credit_status(&self) -> (r: CreditStatus)
        ensures
            r == self@.credit_status,
    {
        self.credit_status
    }

    pub fn credit_threshold(&self) -> (r: i64)
        ensures
            r == self@.credit_threshold,
    {
        self.credit_threshold
    }

    /// Sets the credit threshold; the status follows it.
    pub fn set_credit_threshold(&mut self, threshold: i64)
        ensures
            final(self)@ == (AccountView { credit_threshold: threshold, ..old(self)@ }).with_credit(
                old(self)@.current_credit,
            ),
    {
        self.credit_threshold = threshold;
        self.update_status();
    }

    pub fn currency(&self) -> (r: String)
        ensures
            r@ == self@.currency,
    {
        copy_string(&self.currency)
    }

    pub fn set_currency(&mut self, currency: String)
        ensures
            final(self)@ == (AccountView { currency: currency@, ..old(self)@ }),
    {
        self.currency = currency;
    }

    pub fn low_credit_threshold(&self) -> (r: i64)
        ensures
            r == self@.low_credit_threshold,
    {
        self.low_credit_threshold
    }

    /// Sets the low-credit threshold; the status is left as it is.
    pub fn set_low_credit_threshold(&mut self, threshold: i64)
        ensures
            final(self)@ == (AccountView { low_credit_threshold: threshold, ..old(self)@ }),
    {
        self.low_credit_threshold = threshold;
    }

    pub fn maximum_credit(&self) -> (r: i64)
        ensures
            r == self@.maximum_credit,
    {
        self.maximum_credit
    }

    pub fn set_maximum_credit(&mut self, max: i64)
        ensures
            final(self)@ == (AccountView { maximum_credit: max, ..old(self)@ }),
    {
        self.maximum_credit = max;
    }

    pub fn is_service_enabled(&self) -> (r: bool)
        ensures
            r == (self@.credit_status != CreditStatus::Disabled),
    {
        self.credit_status.is_enabled()
    }

    pub fn is_low_credit(&self) -> (r: bool)
        ensures
            r == (self@.credit_status == CreditStatus::LowCredit || self@.credit_status
                == CreditStatus::EmergencyCredit),
    {
        self.credit_status.is_low_credit()
    }
}

impl CosemObject for Account {
    fn class_id(&self) -> (r: u16)
        ensures
            r == 60,
    {
        Self::CLASS_ID
    }

    fn obis_code(&self) -> (r: ObisCode)
        ensures
            r == self@.logical_name,
    {
        self.logical_name
    }

    fn get_attribute(
        &self,
        attribute_id: u8,
        selective_access: Option<&SelectiveAccessDescriptor>,
    ) -> (r: DlmsResult<DataObject>)
        ensures
            match attribute_id {
                1 => ok_octets(r, self@.logical_name.spec_bytes()),
                2 => ok_octets(r, encode_utf8(self@.account_id)),
                3 => yields(r, DataObject::Integer64(self@.current_credit)),
                4 => yields(r, DataObject::Enumerate(self@.credit_status.spec_to_u8())),
                5 => yields(r, DataObject::Integer64(self@.credit_threshold)),
                6 => ok_octets(r, encode_utf8(self@.currency)),
                7 => yields(r, DataObject::Integer64(self@.low_credit_threshold)),
                8 => yields(r, DataObject::Integer64(self@.maximum_credit)),
                _ => invalid(r),
            },
    {
        match attribute_id {
            1 => Ok(DataObject::OctetString(self.logical_name.to_bytes())),
            2 => Ok(DataObject::OctetString(string_bytes(&self.account_id))),
            3 => Ok(DataObject::Integer64(self.current_credit)),
            4 => Ok(DataObject::Enumerate(self.credit_status.to_u8())),
            5 => Ok(DataObject::Integer64(self.credit_threshold)),
            6 => Ok(DataObject::OctetString(string_bytes(&self.currency))),
            7 => Ok(DataObject::Integer64(self.low_credit_threshold)),
            8 => Ok(DataObject::Integer64(self.maximum_credit)),
            _ => Err(invalid_data_number("Account has no attribute ", attribute_id as u64)),
        }
    }

    fn set_attribute(
        &mut self,
        attribute_id: u8,
        value: DataObject,
        selective_access: Option<&SelectiveAccessDescriptor>,
    ) -> (r: DlmsResult<()>)
        ensures
            r is Err ==> final(self)@ == old(self)@,
            match attribute_id {
                1 => denied(r),
                2 => match value {
                    DataObject::OctetString(b) => r is Ok && final(self)@ == (AccountView {
                        account_id: spec_utf8_lossy(b@),
                        ..old(self)@
                    }),
                    _ => invalid(r),
                },
                3 => match value {
                    DataObject::Integer64(v) => r is Ok && final(self)@ == old(self)@.with_credit(v),
                    _ => invalid(r),
                },
                4 => match value {
                    DataObject::Enumerate(v) => r is Ok && final(self)@ == (AccountView {
                        credit_status: CreditStatus::spec_from_u8(v),
                        ..old(self)@
                    }),
                    _ => invalid(r),
                },
                5 => match value {
                    DataObject::Integer64(v) => r is Ok && final(self)@ == (AccountView {
                        credit_threshold: v,
                        ..old(self)@
                    }).with_credit(old(self)@.current_credit),
                    _ => invalid(r),
                },
                6 => match value {
                    DataObject::OctetString(b) => r is Ok && final(self)@ == (AccountView {
                        currency: spec_utf8_lossy(b@),
                        ..old(self)@
                    }),
                    _ => invalid(r),
                },
                7 => match value {
                    DataObject::Integer64(v) => r is Ok && final(self)@ == (AccountView {
                        low_credit_threshold: v,
                        ..old(self)@
                    }),
                    _ => invalid(r),
                },
                8 => match value {
                    DataObject::Integer64(v) => r is Ok && final(self)@ == (AccountView {
                        maximum_credit: v,
                        ..old(self)@
                    }),
                    _ => invalid(r),
                },
                _ => invalid(r),
            },
    {
        match attribute_id {
            1 => Err(access_denied("Attribute 1 (logical_name) is read-only")),
            2 => match value {
                DataObject::OctetString(bytes) => {
                    self.set_account_id(string_from_bytes_lossy(bytes.as_slice()));
                    Ok(())
                }
                _ => Err(invalid_data("Expected OctetString for account_id")),
            },
            3 => match value {
                DataObject::Integer64(credit) => {
                    self.set_current_credit(credit);
                    Ok(())
                }
                _ => Err(invalid_data("Expected Integer64 for current_credit")),
            },
            4 => match value {
                DataObject::Enumerate(status) => {
                    self.credit_status = CreditStatus::from_u8(status);
                    Ok(())
                }
                _ => Err(invalid_data("Expected Enumerate for credit_status")),
            },
            5 => match value {
                DataObject::Integer64(threshold) => {
                    self.set_credit_threshold(threshold);
                    Ok(())
                }
                _ => Err(invalid_data("Expected Integer64 for credit_threshold")),
            },
            6 => match value {
                DataObject::OctetString(bytes) => {
                    self.set_currency(string_from_bytes_lossy(bytes.as_slice()));
                    Ok(())
                }
                _ => Err(invalid_data("Expected OctetString for currency")),
            },
            7 => match value {
                DataObject::Integer64(threshold) => {
                    self.set_low_credit_threshold(threshold);
                    Ok(())
                }
                _ => Err(invalid_data("Expected Integer64 for low_credit_threshold")),
            },
            8 => match value {
                DataObject::Integer64(max) => {
                    self.set_maximum_credit(max);
                    Ok(())
                }
                _ => Err(invalid_data("Expected Integer64 for maximum_credit")),
            },
            _ => Err(invalid_data_number("Account has no attribute ", attribute_id as u64)),
        }
    }

    fn invoke_method(
        &mut self,
        method_id: u8,
        parameters: Option<DataObject>,
        selective_access: Option<&SelectiveAccessDescriptor>,
    ) -> (r: DlmsResult<Option<DataObject>>)
        ensures
            invalid(r),
            final(self)@ == old(self)@,
    {
        Err(invalid_data_number("Account has no method ", method_id as u64))
    }
}

/// Whatever the credit is set to, it is held as given and the status
/// follows it: service is off exactly below the credit threshold; at or
/// above it, low credit is shown exactly below the low-credit threshold;
/// the status is never emergency credit.
pub proof fn lemma_account_status_follows_credit(v: AccountView, credit: i64)
    ensures
        v.with_credit(credit).current_credit == credit,
        (v.with_credit(credit).credit_status == CreditStatus::Disabled) <==> credit < v.credit_threshold,
        (v.with_credit(credit).credit_status == CreditStatus::LowCredit) <==> (v.credit_threshold <= credit
            && credit < v.low_credit_threshold),
        (v.with_credit(credit).credit_status == CreditStatus::Enabled) <==> (credit >= v.credit_threshold
            && credit >= v.low_credit_threshold),
        v.with_credit(credit).credit_status != CreditStatus::EmergencyCredit,
{
}

} // verus!
