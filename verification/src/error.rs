use vstd::prelude::*;
use vstd::string::StringExecFns;

verus! {

/// Errors returned by the interface classes.
#[derive(Debug, Clone, PartialEq, Eq)]
pub enum DlmsError {
    /// The value, parameter or identifier does not fit the object.
    InvalidData(String),
    /// The operation is not permitted on this attribute or in this association.
    AccessDenied(String),
}

/// Result type of the interface classes.
pub type DlmsResult<T> = Result<T, DlmsError>;

/// An `InvalidData` error carrying `text`.
pub fn invalid_data(text: &str) -> (e: DlmsError)
    ensures
        e matches DlmsError::InvalidData(m) && m@ == text@,
{
    DlmsError::InvalidData(text.to_owned())
}

/// An `AccessDenied` error carrying `text`.
pub fn access_denied(text: &str) -> (e: DlmsError)
    ensures
        e matches DlmsError::AccessDenied(m) && m@ == text@,
{
    DlmsError::AccessDenied(text.to_owned())
}

/// The character of a decimal digit.
pub open spec fn digit_char(d: nat) -> char {
    (48 + d) as char
}

/// The decimal digits of `n`, without leading zeros.
pub open spec fn decimal_digits(n: nat) -> Seq<char>
    decreases n,
{
    if n < 10 {
        seq![digit_char(n)]
    } else {
        decimal_digits(n / 10) + seq![digit_char(n % 10)]
    }
}

/// `text` followed by `number`, built with `format!`: an unsigned integer is
/// displayed as its decimal digits, so the result is the text and then those
/// digits.
#[verifier::external_body]
pub(crate) fn text_with_number(text: &str, number: u64) -> (r: String)
    ensures
        r@ == text@ + decimal_digits(number as nat),
{
    format!("{}{}", text, number)
}

/// An `InvalidData` error whose message names the offending number.
pub fn invalid_data_number(text: &str, number: u64) -> (e: DlmsError)
    ensures
        e matches DlmsError::InvalidData(m) && m@ == text@ + decimal_digits(number as nat),
{
    DlmsError::InvalidData(text_with_number(text, number))
}

/// An `AccessDenied` error whose message names the offending number.
pub fn access_denied_number(text: &str, number: u64) -> (e: DlmsError)
    ensures
        e matches DlmsError::AccessDenied(m) && m@ == text@ + decimal_digits(number as nat),
{
    DlmsError::AccessDenied(text_with_number(text, number))
}

/// The decimal digits of a signed number, after a minus sign when it is
/// negative.
pub open spec fn signed_digits(n: int) -> Seq<char> {
    if n < 0 {
        seq!['-'] + decimal_digits((-n) as nat)
    } else {
        decimal_digits(n as nat)
    }
}

/// The decimal text of `n`.
pub fn number_text(n: u64) -> (r: String)
    ensures
        r@ == decimal_digits(n as nat),
{
    proof {
        reveal_strlit("");
    }
    let r = text_with_number("", n);
    assert(r@ =~= decimal_digits(n as nat));
    r
}

/// The decimal text of a signed `n`.
pub fn signed_text(n: i64) -> (r: String)
    ensures
        r@ == signed_digits(n as int),
{
    if n < 0 {
        proof {
            reveal_strlit("-");
        }
        let magnitude: u64 = (0i128 - n as i128) as u64;
        text_with_number("-", magnitude)
    } else {
        number_text(n as u64)
    }
}

/// `before`, the decimal digits of `n`, then `after`.
pub fn text_around(before: &str, n: u64, after: &str) -> (r: String)
    ensures
        r@ == before@ + decimal_digits(n as nat) + after@,
{
    text_with_number(before, n).concat(after)
}

/// `a`, the digits of `n1`, `b`, the digits of `n2`, then `c`.
pub fn text_around_two(a: &str, n1: u64, b: &str, n2: u64, c: &str) -> (r: String)
    ensures
        r@ == a@ + decimal_digits(n1 as nat) + b@ + decimal_digits(n2 as nat) + c@,
{
    let second = text_around(b, n2, c);
    text_with_number(a, n1).concat(second.as_str())
}

/// An `InvalidData` error carrying `text`.
pub fn invalid_data_text(text: String) -> (e: DlmsError)
    ensures
        e matches DlmsError::InvalidData(m) && m@ == text@,
{
    DlmsError::InvalidData(text)
}

/// An `AccessDenied` error carrying `text`.
pub fn access_denied_text(text: String) -> (e: DlmsError)
    ensures
        e matches DlmsError::AccessDenied(m) && m@ == text@,
{
    DlmsError::AccessDenied(text)
}

} // verus!
