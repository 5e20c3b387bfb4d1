use vstd::prelude::*;
use crate::data_object::{is_octets, DataObject};
use crate::error::{invalid_data, DlmsResult};

verus! {

/// COSEM date: year, month, day of month and day of week, encoded in five
/// bytes (year big-endian, then month, day, day of week). A day of week of
/// 0xFF means "not specified".
#[derive(Debug, Clone, Copy, PartialEq, Eq, Structural)]
pub struct CosemDate {
    pub year: u16,
    pub month: u8,
    pub day: u8,
    pub day_of_week: u8,
}

/// COSEM date-time: a date, the time of day to the hundredth of a second,
/// the deviation from UTC in minutes (0x8000 = not specified) and the clock
/// status byte, encoded in twelve bytes.
#[derive(Debug, Clone, Copy, PartialEq, Eq, Structural)]
pub struct CosemDateTime {
    pub date: CosemDate,
    pub hour: u8,
    pub minute: u8,
    pub second: u8,
    pub hundredths: u8,
    pub deviation: i16,
    pub clock_status: u8,
}

/// Day of week "not specified".
pub const DAY_OF_WEEK_UNSPECIFIED: u8 = 0xFF;

/// Deviation "not specified".
pub const DEVIATION_UNSPECIFIED: i16 = -32768i16;

/// The high byte of a 16-bit value.
pub open spec fn hi_byte(v: u16) -> u8 {
    (v / 256) as u8
}

/// The low byte of a 16-bit value.
pub open spec fn lo_byte(v: u16) -> u8 {
    (v % 256) as u8
}

/// The 16-bit value of two big-endian bytes.
pub open spec fn be_u16(hi: u8, lo: u8) -> u16 {
    (hi * 256 + lo) as u16
}

/// The two big-endian bytes of `v`.
pub fn u16_to_be(v: u16) -> (r: (u8, u8))
    ensures
        r.0 == hi_byte(v),
        r.1 == lo_byte(v),
        be_u16(r.0, r.1) == v,
{
    ((v / 256) as u8, (v % 256) as u8)
}

/// The 16-bit value of two big-endian bytes.
pub fn be_to_u16(hi: u8, lo: u8) -> (r: u16)
    ensures
        r == be_u16(hi, lo),
        hi_byte(r) == hi,
        lo_byte(r) == lo,
{
    (hi as u16) * 256 + (lo as u16)
}

/// The bits of a signed 16-bit value read as unsigned.
pub open spec fn i16_bits(v: i16) -> u16 {
    if v >= 0 { v as u16 } else { (v + 65536) as u16 }
}

/// The signed 16-bit value of 16 bits.
pub open spec fn bits_i16(v: u16) -> i16 {
    if v < 32768 { v as i16 } else { (v - 65536) as i16 }
}

fn i16_to_bits(v: i16) -> (r: u16)
    ensures
        r == i16_bits(v),
        bits_i16(r) == v,
{
    if v >= 0 { v as u16 } else { (v as i32 + 65536) as u16 }
}

fn bits_to_i16(v: u16) -> (r: i16)
    ensures
        r == bits_i16(v),
        i16_bits(r) == v,
{
    if v < 32768 { v as i16 } else { (v as i32 - 65536) as i16 }
}

/// OR of all the bytes of `s`.
pub open spec fn or_all(s: Seq<u8>) -> u8
    decreases s.len(),
{
    if s.len() == 0 { 0 } else { or_all(s.drop_last()) | s.last() }
}

impl CosemDate {
    /// The five-byte encoding.
    pub open spec fn spec_encode(self) -> Seq<u8> {
        seq![hi_byte(self.year), lo_byte(self.year), self.month, self.day, self.day_of_week]
    }

    /// A calendar date with month 1..=12 and day 1..=31; the day of week is
    /// left unspecified.
    pub fn new(year: u16, month: u8, day: u8) -> (r: DlmsResult<CosemDate>)
        ensures
            (1 <= month <= 12 && 1 <= day <= 31) <==> r is Ok,
            r matches Ok(d) ==> d == (CosemDate { year, month, day, day_of_week: DAY_OF_WEEK_UNSPECIFIED }),
            r matches Err(e) ==> e is InvalidData,
    {
        if month < 1 || month > 12 {
            return Err(invalid_data("Invalid month"));
        }
        if day < 1 || day > 31 {
            return Err(invalid_data("Invalid day"));
        }
        Ok(CosemDate { year, month, day, day_of_week: DAY_OF_WEEK_UNSPECIFIED })
    }

    /// The five-byte encoding.
    pub fn encode(&self) -> (r: Vec<u8>)
        ensures
            r@ == self.spec_encode(),
    {
        let (hi, lo) = u16_to_be(self.year);
        let mut v: Vec<u8> = Vec::new();
        v.push(hi);
        v.push(lo);
        v.push(self.month);
        v.push(self.day);
        v.push(self.day_of_week);
        assert(v@ =~= self.spec_encode());
        v
    }

    /// The date held by the first five bytes.
    pub open spec fn spec_decode(bytes: Seq<u8>) -> CosemDate {
        CosemDate {
            year: be_u16(bytes[0], bytes[1]),
            month: bytes[2],
            day: bytes[3],
            day_of_week: bytes[4],
        }
    }

    /// Reads a date from the first five bytes; fails on fewer.
    pub fn decode(bytes: &[u8]) -> (r: DlmsResult<CosemDate>)
        ensures
            bytes@.len() >= 5 <==> r is Ok,
            r matches Ok(d) ==> d == CosemDate::spec_decode(bytes@),
            r matches Err(e) ==> e is InvalidData,
    {
        if bytes.len() < 5 {
            return Err(invalid_data("Insufficient bytes for CosemDate"));
        }
        Ok(CosemDate {
            year: be_to_u16(bytes[0], bytes[1]),
            month: bytes[2],
            day: bytes[3],
            day_of_week: bytes[4],
        })
    }
}

impl CosemDateTime {
    /// The twelve-byte encoding.
    pub open spec fn spec_encode(self) -> Seq<u8> {
        self.date.spec_encode() + seq![
            self.hour,
            self.minute,
            self.second,
            self.hundredths,
            hi_byte(i16_bits(self.deviation)),
            lo_byte(i16_bits(self.deviation)),
            self.clock_status,
        ]
    }

    /// A date-time from calendar fields; the hour must be below 24, the minute
    /// and second below 60 and the hundredths below 100. The clock status is
    /// the OR of the given status bits and the deviation is left unspecified.
    pub fn new(
        year: u16,
        month: u8,
        day: u8,
        hour: u8,
        minute: u8,
        second: u8,
        hundredths: u8,
        status: &[u8],
    ) -> (r: DlmsResult<CosemDateTime>)
        ensures
            (1 <= month <= 12 && 1 <= day <= 31 && hour < 24 && minute < 60 && second < 60
                && hundredths < 100) <==> r is Ok,
            r matches Ok(dt) ==> dt == (CosemDateTime {
                date: CosemDate { year, month, day, day_of_week: DAY_OF_WEEK_UNSPECIFIED },
                hour,
                minute,
                second,
                hundredths,
                deviation: DEVIATION_UNSPECIFIED,
                clock_status: or_all(status@),
            }),
            r matches Err(e) ==> e is InvalidData,
    {
        let date = match CosemDate::new(year, month, day) {
            Ok(d) => d,
            Err(e) => return Err(e),
        };
        if hour >= 24 || minute >= 60 || second >= 60 || hundredths >= 100 {
            return Err(invalid_data("Invalid time of day"));
        }
        let mut clock_status: u8 = 0;
        let mut i: usize = 0;
        while i < status.len()
            invariant
                i <= status@.len(),
                clock_status == or_all(status@.subrange(0, i as int)),
            decreases status@.len() - i,
        {
            assert(status@.subrange(0, i + 1).drop_last() =~= status@.subrange(0, i as int));
            clock_status = clock_status | status[i];
            i = i + 1;
        }
        assert(status@.subrange(0, status@.len() as int) =~= status@);
        Ok(CosemDateTime {
            date,
            hour,
            minute,
            second,
            hundredths,
            deviation: DEVIATION_UNSPECIFIED,
            clock_status,
        })
    }

    /// The twelve-byte encoding.
    pub fn encode(&self) -> (r: Vec<u8>)
        ensures
            r@ == self.spec_encode(),
    {
        let mut v = self.date.encode();
        v.push(self.hour);
        v.push(self.minute);
        v.push(self.second);
        v.push(self.hundredths);
        let (hi, lo) = u16_to_be(i16_to_bits(self.deviation));
        v.push(hi);
        v.push(lo);
        v.push(self.clock_status);
        assert(v@ =~= self.spec_encode());
        v
    }

    /// The date-time held by the first twelve bytes.
    pub open spec fn spec_decode(bytes: Seq<u8>) -> CosemDateTime {
        CosemDateTime {
            date: CosemDate::spec_decode(bytes),
            hour: bytes[5],
            minute: bytes[6],
            second: bytes[7],
            hundredths: bytes[8],
            deviation: bits_i16(be_u16(bytes[9], bytes[10])),
            clock_status: bytes[11],
        }
    }

    /// Reads a date-time from the first twelve bytes; fails on fewer.
    pub fn decode(bytes: &[u8]) -> (r: DlmsResult<CosemDateTime>)
        ensures
            bytes@.len() >= 12 <==> r is Ok,
            r matches Ok(d) ==> d == CosemDateTime::spec_decode(bytes@),
            r matches Err(e) ==> e is InvalidData,
    {
        if bytes.len() < 12 {
            return Err(invalid_data("Insufficient bytes for CosemDateTime"));
        }
        let date = CosemDate {
            year: be_to_u16(bytes[0], bytes[1]),
            month: bytes[2],
            day: bytes[3],
            day_of_week: bytes[4],
        };
        Ok(CosemDateTime {
            date,
            hour: bytes[5],
            minute: bytes[6],
            second: bytes[7],
            hundredths: bytes[8],
            deviation: bits_to_i16(be_to_u16(bytes[9], bytes[10])),
            clock_status: bytes[11],
        })
    }
}

/// Decoding the encoding of a date gives the date back.
pub proof fn lemma_date_roundtrip(d: CosemDate)
    ensures
        CosemDate::spec_decode(d.spec_encode()) == d,
{
    assert(be_u16(hi_byte(d.year), lo_byte(d.year)) == d.year);
}

/// Decoding the encoding of a date-time gives the date-time back.
pub proof fn lemma_date_time_roundtrip(dt: CosemDateTime)
    ensures
        dt.spec_encode().len() == 12,
        CosemDateTime::spec_decode(dt.spec_encode()) == dt,
{
    let b = i16_bits(dt.deviation);
    assert(be_u16(hi_byte(b), lo_byte(b)) == b);
    assert(bits_i16(b) == dt.deviation);
    assert(be_u16(hi_byte(dt.date.year), lo_byte(dt.date.year)) == dt.date.year);
}

/// Splitting the 16-bit value of two big-endian bytes gives the bytes back.
proof fn lemma_be_bytes_roundtrip(hi: u8, lo: u8)
    ensures
        hi_byte(be_u16(hi, lo)) == hi,
        lo_byte(be_u16(hi, lo)) == lo,
{
    assert(hi * 256 + lo < 65536) by (nonlinear_arith)
        requires
            hi < 256,
            lo < 256,
    ;
    let v = (hi * 256 + lo) as u16;
    assert(v / 256 == hi && v % 256 == lo) by (nonlinear_arith)
        requires
            v == hi * 256 + lo,
            0 <= lo < 256,
    ;
}

/// Encoding the date read from five bytes gives those five bytes back.
pub proof fn lemma_date_bytes_roundtrip(b: Seq<u8>)
    requires
        b.len() >= 5,
    ensures
        CosemDate::spec_decode(b).spec_encode() == b.subrange(0, 5),
{
    lemma_be_bytes_roundtrip(b[0], b[1]);
    assert(CosemDate::spec_decode(b).spec_encode() =~= b.subrange(0, 5));
}

/// Encoding the date-time read from twelve bytes gives those twelve bytes
/// back.
pub proof fn lemma_date_time_bytes_roundtrip(b: Seq<u8>)
    requires
        b.len() >= 12,
    ensures
        CosemDateTime::spec_decode(b).spec_encode() == b.subrange(0, 12),
{
    lemma_be_bytes_roundtrip(b[0], b[1]);
    lemma_be_bytes_roundtrip(b[9], b[10]);
    let u = be_u16(b[9], b[10]);
    assert(i16_bits(bits_i16(u)) == u);
    assert(CosemDateTime::spec_decode(b).spec_encode() =~= b.subrange(0, 12));
}

/// `d` is `Null` for no date-time and the twelve-byte encoding otherwise.
pub open spec fn is_optional_date_time(d: DataObject, o: Option<CosemDateTime>) -> bool {
    match o {
        None => d == DataObject::Null,
        Some(x) => is_octets(d, x.spec_encode()),
    }
}

/// `Null` for no date-time, the twelve-byte encoding otherwise.
pub fn encode_optional_date_time(o: &Option<CosemDateTime>) -> (r: DataObject)
    ensures
        is_optional_date_time(r, *o),
{
    match o {
        Some(dt) => DataObject::OctetString(dt.encode()),
        None => DataObject::Null,
    }
}

} // verus!
