use vstd::prelude::*;
use vstd::string::StringExecFns;
use crate::error::{decimal_digits, number_text};

verus! {

/// OBIS code: the six-byte logical name `A-B:C.D.E*F` of a COSEM object.
#[derive(Debug, Clone, Copy, PartialEq, Eq, Structural)]
pub struct ObisCode {
    pub a: u8,
    pub b: u8,
    pub c: u8,
    pub d: u8,
    pub e: u8,
    pub f: u8,
}

impl ObisCode {
    /// The six bytes of the code, in order.
    pub open spec fn spec_bytes(self) -> Seq<u8> {
        seq![self.a, self.b, self.c, self.d, self.e, self.f]
    }

    pub fn new(a: u8, b: u8, c: u8, d: u8, e: u8, f: u8) -> (r: ObisCode)
        ensures
            r == (ObisCode { a, b, c, d, e, f }),
    {
        ObisCode { a, b, c, d, e, f }
    }

    /// The six bytes of the code.
    pub fn to_bytes(&self) -> (r: Vec<u8>)
        ensures
            r@ == self.spec_bytes(),
    {
        let mut v: Vec<u8> = Vec::new();
        v.push(self.a);
        v.push(self.b);
        v.push(self.c);
        v.push(self.d);
        v.push(self.e);
        v.push(self.f);
        assert(v@ =~= self.spec_bytes());
        v
    }
}

impl ObisCode {
    /// The code written `A-B:C.D.E.F` in decimal.
    pub open spec fn spec_text(self) -> Seq<char> {
        decimal_digits(self.a as nat) + seq!['-'] + decimal_digits(self.b as nat) + seq![':'] + decimal_digits(
            self.c as nat,
        ) + seq!['.'] + decimal_digits(self.d as nat) + seq!['.'] + decimal_digits(self.e as nat) + seq!['.']
            + decimal_digits(self.f as nat)
    }

    /// The code written `A-B:C.D.E.F` in decimal.
    pub fn to_text(&self) -> (r: String)
        ensures
            r@ == self.spec_text(),
    {
        proof {
            reveal_strlit("-");
            reveal_strlit(":");
            reveal_strlit(".");
        }
        let t = number_text(self.a as u64).concat("-").concat(number_text(self.b as u64).as_str()).concat(":").concat(
            number_text(self.c as u64).as_str(),
        ).concat(".").concat(number_text(self.d as u64).as_str()).concat(".").concat(
            number_text(self.e as u64).as_str(),
        ).concat(".").concat(number_text(self.f as u64).as_str());
        assert(t@ =~= self.spec_text());
        t
    }
}

} // verus!
