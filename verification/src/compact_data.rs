//! Compact Data interface class (class id 92): a bounded byte buffer with a
//! capture time, its hexadecimal text form and a run-length encoding.
use vstd::prelude::*;
use vstd::string::StringExecFns;
use crate::cosem_object::{denied, invalid, yields, CosemObject};
use crate::data_object::{copy_bytes, ok_octets, DataObject};
use crate::error::{access_denied, invalid_data, invalid_data_number, invalid_data_text, number_text, text_around_two, DlmsResult};
use crate::obis::ObisCode;
use crate::selective_access::SelectiveAccessDescriptor;
use crate::text::{lemma_lossy_of_encoded, string_from_bytes_lossy};
use crate::time_source::unix_time_now;
use vstd::utf8::{encode_utf8, is_ascii_chars, is_ascii_chars_encode_utf8, is_continuation_byte};

verus! {

/// The lowercase hexadecimal digit of a value below 16.
pub open spec fn hex_digit(v: int) -> char {
    if v < 10 {
        (('0' as int) + v) as char
    } else {
        (('a' as int) + v - 10) as char
    }
}

/// Two lowercase hexadecimal digits per byte, high digit first.
pub open spec fn hex_text(bytes: Seq<u8>) -> Seq<char> {
    Seq::new(
        2 * bytes.len(),
        |i: int| hex_digit(if i % 2 == 0 { bytes[i / 2] / 16 } else { bytes[i / 2] % 16 } as int),
    )
}

/// The value of one hexadecimal digit, in either case.
pub open spec fn hex_value(c: u8) -> Option<u8> {
    if 0x30 <= c <= 0x39 {
        Some((c - 0x30) as u8)
    } else if 0x61 <= c <= 0x66 {
        Some((c - 0x61 + 10) as u8)
    } else if 0x41 <= c <= 0x46 {
        Some((c - 0x41 + 10) as u8)
    } else {
        None
    }
}

/// The byte two text bytes denote as an unsigned hexadecimal number, which
/// may carry a leading `+`.
pub open spec fn pair_value(c0: u8, c1: u8) -> Option<u8> {
    if c0 == 0x2B {
        hex_value(c1)
    } else {
        match (hex_value(c0), hex_value(c1)) {
            (Some(h), Some(l)) => Some((h * 16 + l) as u8),
            _ => None,
        }
    }
}

/// The text without every leading `0x`.
pub open spec fn trim_0x(s: Seq<u8>) -> Seq<u8>
    decreases s.len(),
{
    if s.len() >= 2 && s[0] == 0x30 && s[1] == 0x78 {
        trim_0x(s.skip(2))
    } else {
        s
    }
}

/// The bytes an even-length hexadecimal text denotes, pair by pair; none if
/// the length is odd or a pair is not a number.
pub open spec fn hex_decode(s: Seq<u8>) -> Option<Seq<u8>> {
    if s.len() % 2 != 0 {
        None
    } else if forall|k: int| 0 <= k < s.len() / 2 ==> (#[trigger] pair_value(s[2 * k], s[2 * k + 1])) is Some {
        Some(Seq::new(s.len() / 2, |k: int| pair_value(s[2 * k], s[2 * k + 1])->0))
    } else {
        None
    }
}

/// Every pair of the text starts on a character: cutting the text into
/// two-byte pieces does not split a character.
pub open spec fn pairs_on_char_boundaries(s: Seq<u8>) -> bool {
    forall|k: int| 0 <= k < s.len() / 2 ==> !is_continuation_byte(#[trigger] s[2 * k])
}

/// The bytes a run-length encoding stands for: each pair `(byte, count)`
/// is `count` copies of `byte`; a last odd byte is ignored.
pub open spec fn expand(pairs: Seq<u8>) -> Seq<u8>
    decreases pairs.len(),
{
    if pairs.len() < 2 {
        Seq::empty()
    } else {
        let n = pairs.len();
        expand(pairs.take(n - 2)) + Seq::new(pairs[n - 1] as nat, |i: int| pairs[n - 2])
    }
}

/// A run-length encoding as the compressor writes it: whole pairs, each
/// run of at least one byte, and a run starting only where the byte changes
/// or the run before it is full (255 bytes).
pub open spec fn rle_canonical(pairs: Seq<u8>) -> bool {
    &&& pairs.len() % 2 == 0
    &&& forall|k: int| 0 <= k < pairs.len() / 2 ==> #[trigger] pairs[2 * k + 1] >= 1
    &&& forall|k: int|
        1 <= k < pairs.len() / 2 ==> #[trigger] pairs[2 * k] != pairs[2 * k - 2] || pairs[2 * k - 1] == 255
}

/// `n` copies of `b`.
pub open spec fn run(b: u8, n: nat) -> Seq<u8> {
    Seq::new(n, |i: int| b)
}

/// Expanding one more pair appends its run.
proof fn lemma_expand_push(pairs: Seq<u8>, b: u8, n: u8)
    requires
        pairs.len() % 2 == 0,
    ensures
        expand(pairs.push(b).push(n)) == expand(pairs) + run(b, n as nat),
{
    let p = pairs.push(b).push(n);
    assert(p.take(p.len() - 2) =~= pairs);
    assert(Seq::new(p[p.len() - 1] as nat, |i: int| p[p.len() - 2]) =~= run(b, n as nat));
}

/// The state of a [`CompactData`].
pub struct CompactDataView {
    pub logical_name: ObisCode,
    pub buffer: Seq<u8>,
    pub buffer_size: usize,
    pub capture_time: Option<i64>,
}

/// Compact Data interface class (class id 92).
pub struct CompactData {
    logical_name: ObisCode,
    buffer: Vec<u8>,
    buffer_size: usize,
    capture_time: Option<i64>,
}

impl View for CompactData {
    type V = CompactDataView;

    closed spec fn view(&self) -> CompactDataView {
        CompactDataView {
            logical_name: self.logical_name,
            buffer: self.buffer@,
            buffer_size: self.buffer_size,
            capture_time: self.capture_time,
        }
    }
}

/// The value of a hexadecimal digit byte.
fn hex_value_of(c: u8) -> (r: Option<u8>)
    ensures
        r == hex_value(c),
{
    if 0x30 <= c && c <= 0x39 {
        Some(c - 0x30)
    } else if 0x61 <= c && c <= 0x66 {
        Some(c - 0x61 + 10)
    } else if 0x41 <= c && c <= 0x46 {
        Some(c - 0x41 + 10)
    } else {
        None
    }
}

/// The byte two text bytes denote.
fn pair_value_of(c0: u8, c1: u8) -> (r: Option<u8>)
    ensures
        r == pair_value(c0, c1),
{
    if c0 == 0x2B {
        hex_value_of(c1)
    } else {
        match (hex_value_of(c0), hex_value_of(c1)) {
            (Some(h), Some(l)) => Some(h * 16 + l),
            _ => None,
        }
    }
}

/// The ASCII code of the lowercase hexadecimal digit of `v`.
fn hex_digit_byte(v: u8) -> (r: u8)
    requires
        v < 16,
    ensures
        r == hex_digit(v as int) as u8,
        hex_digit(v as int) <= '\u{7f}',
{
    if v < 10 {
        0x30 + v
    } else {
        0x61 + v - 10
    }
}

impl CompactData {
    pub const CLASS_ID: u16 = 92;
    pub const ATTR_LOGICAL_NAME: u8 = 1;
    pub const ATTR_BUFFER: u8 = 2;
    pub const ATTR_BUFFER_SIZE: u8 = 3;
    pub const ATTR_CAPTURE_TIME: u8 = 4;

    /// Default OBIS code 0-0:92.0.0.255.
    pub fn default_obis() -> (r: ObisCode)
        ensures
            r == (ObisCode { a: 0, b: 0, c: 92, d: 0, e: 0, f: 255 }),
    {
        ObisCode::new(0, 0, 92, 0, 0, 255)
    }

    /// An empty buffer of at most 1024 bytes and no capture time.
    pub fn new(logical_name: ObisCode) -> (r: CompactData)
        ensures
            r@ == (CompactDataView { logical_name, buffer: Seq::empty(), buffer_size: 1024, capture_time: None }),
    {
        CompactData { logical_name, buffer: Vec::new(), buffer_size: 1024, capture_time: None }
    }

    pub fn with_default_obis() -> (r: CompactData)
        ensures
            r@ == (CompactDataView {
                logical_name: ObisCode { a: 0, b: 0, c: 92, d: 0, e: 0, f: 255 },
                buffer: Seq::empty(),
                buffer_size: 1024,
                capture_time: None,
            }),
    {
        Self::new(Self::default_obis())
    }

    pub fn with_buffer_size(logical_name: ObisCode, buffer_size: usize) -> (r: CompactData)
        ensures
            r@ == (CompactDataView { logical_name, buffer: Seq::empty(), buffer_size, capture_time: None }),
    {
        CompactData { logical_name, buffer: Vec::new(), buffer_size, capture_time: None }
    }

    pub fn buffer(&self) -> (r: Vec<u8>)
        ensures
            r@ == self@.buffer,
    {
        copy_bytes(&self.buffer)
    }

    /// Replaces the buffer; fails, changing nothing, on more bytes than the
    /// buffer size.
    pub fn set_buffer(&mut self, data: Vec<u8>) -> (r: DlmsResult<()>)
        ensures
            r is Ok <==> data@.len() <= old(self)@.buffer_size,
            r is Ok ==> final(self)@ == (CompactDataView { buffer: data@, ..old(self)@ }),
            r is Err ==> invalid(r) && final(self)@ == old(self)@,
    {
        if data.len() > self.buffer_size {
            return Err(invalid_data_text(text_around_two("Buffer size ", data.len() as u64, " exceeds maximum ", self.buffer_size as u64, "")));
        }
        self.buffer = data;
        Ok(())
    }

    pub fn buffer_size(&self) -> (r: usize)
        ensures
            r == self@.buffer_size,
    {
        self.buffer_size
    }

    /// Sets the size; the current bytes are kept even where there are more.
    pub fn set_buffer_size(&mut self, size: usize)
        ensures
            final(self)@ == (CompactDataView { buffer_size: size, ..old(self)@ }),
    {
        self.buffer_size = size;
    }

    pub fn len(&self) -> (r: usize)
        ensures
            r == self@.buffer.len(),
    {
        self.buffer.len()
    }

    pub fn is_empty(&self) -> (r: bool)
        ensures
            r == (self@.buffer.len() == 0),
    {
        self.buffer.len() == 0
    }

    pub fn capture_time(&self) -> (r: Option<i64>)
        ensures
            r == self@.capture_time,
    {
        self.capture_time
    }

    pub fn set_capture_time(&mut self, time: Option<i64>)
        ensures
            final(self)@ == (CompactDataView { capture_time: time, ..old(self)@ }),
    {
        self.capture_time = time;
    }

    pub fn clear(&mut self)
        ensures
            final(self)@ == (CompactDataView { buffer: Seq::empty(), ..old(self)@ }),
    {
        self.buffer = Vec::new();
    }

    /// Appends bytes; fails, changing nothing, when they would not fit.
    pub fn append(&mut self, data: &[u8]) -> (r: DlmsResult<()>)
        ensures
            r is Ok <==> old(self)@.buffer.len() + data@.len() <= old(self)@.buffer_size,
            r is Ok ==> final(self)@ == (CompactDataView { buffer: old(self)@.buffer + data@, ..old(self)@ }),
            r is Err ==> invalid(r) && final(self)@ == old(self)@,
    {
        if data.len() > self.buffer_size || self.buffer.len() > self.buffer_size - data.len() {
            return Err(invalid_data_number("Append would exceed buffer size ", self.buffer_size as u64));
        }
        let mut i: usize = 0;
        let ghost start = self.buffer@;
        while i < data.len()
            invariant
                i <= data@.len(),
                self.buffer@ == start + data@.take(i as int),
                start == old(self).buffer@,
                self.logical_name == old(self).logical_name,
                self.buffer_size == old(self).buffer_size,
                self.capture_time == old(self).capture_time,
            decreases data@.len() - i,
        {
            self.buffer.push(data[i]);
            i = i + 1;
            assert(self.buffer@ =~= start + data@.take(i as int));
        }
        assert(data@.take(data@.len() as int) =~= data@);
        Ok(())
    }

    /// How many more bytes fit, zero at or over the size.
    pub fn remaining_capacity(&self) -> (r: usize)
        ensures
            r == (if self@.buffer_size >= self@.buffer.len() { self@.buffer_size - self@.buffer.len() } else { 0 }),
    {
        self.buffer_size.saturating_sub(self.buffer.len())
    }

    /// The byte at `index`; fails past the end.
    pub fn get(&self, index: usize) -> (r: DlmsResult<u8>)
        ensures
            r is Ok <==> index < self@.buffer.len(),
            r matches Ok(b) ==> b == self@.buffer[index as int],
            r is Err ==> invalid(r),
    {
        if index >= self.buffer.len() {
            return Err(invalid_data_text(text_around_two("Index ", index as u64, " out of bounds (size: ", self.buffer.len() as u64, ")")));
        }
        Ok(self.buffer[index])
    }

    /// Sets the byte at `index`; fails past the end, changing nothing.
    pub fn set(&mut self, index: usize, value: u8) -> (r: DlmsResult<()>)
        ensures
            r is Ok <==> index < old(self)@.buffer.len(),
            r is Ok ==> final(self)@ == (CompactDataView {
                buffer: old(self)@.buffer.update(index as int, value),
                ..old(self)@
            }),
            r is Err ==> invalid(r) && final(self)@ == old(self)@,
    {
        if index >= self.buffer.len() {
            return Err(invalid_data_text(text_around_two("Index ", index as u64, " out of bounds (size: ", self.buffer.len() as u64, ")")));
        }
        self.buffer.set(index, value);
        Ok(())
    }

    /// The bytes `start..end`; fails unless `start <= end <= len`.
    pub fn get_range(&self, start: usize, end: usize) -> (r: DlmsResult<Vec<u8>>)
        ensures
            r is Ok <==> start <= end <= self@.buffer.len(),
            r matches Ok(v) ==> v@ == self@.buffer.subrange(start as int, end as int),
            r is Err ==> invalid(r),
    {
        if start > end || end > self.buffer.len() {
            let text = text_around_two("Invalid range [", start as u64, ", ", end as u64, ") for buffer of size ");
            return Err(invalid_data_text(text.concat(number_text(self.buffer.len() as u64).as_str())));
        }
        let mut v: Vec<u8> = Vec::new();
        let mut i: usize = start;
        while i < end
            invariant
                start <= i <= end <= self.buffer@.len(),
                v@ == self.buffer@.subrange(start as int, i as int),
            decreases end - i,
        {
            v.push(self.buffer[i]);
            i = i + 1;
            assert(v@ =~= self.buffer@.subrange(start as int, i as int));
        }
        Ok(v)
    }

    /// Sets the capture time to the time `now`.
    pub fn update_capture_time_at(&mut self, now: i64)
        ensures
            final(self)@ == (CompactDataView { capture_time: Some(now), ..old(self)@ }),
    {
        self.capture_time = Some(now);
    }

    /// Sets the capture time to now, by the system clock.
    pub fn update_capture_time(&mut self)
        ensures
            final(self)@.capture_time is Some,
            final(self)@ == (CompactDataView { capture_time: final(self)@.capture_time, ..old(self)@ }),
    {
        let now = unix_time_now();
        self.update_capture_time_at(now);
    }

    /// The buffer as lowercase hexadecimal text, two digits per byte.
    pub fn to_hex_string(&self) -> (r: String)
        ensures
            r@ == hex_text(self@.buffer),
    {
        let ghost text = hex_text(self.buffer@);
        let mut ascii: Vec<u8> = Vec::new();
        let mut i: usize = 0;
        while i < self.buffer.len()
            invariant
                i <= self.buffer@.len(),
                text == hex_text(self.buffer@),
                ascii@.len() == 2 * i,
                forall|k: int| 0 <= k < 2 * i ==> #[trigger] ascii@[k] == text[k] as u8 && text[k] <= '\u{7f}',
            decreases self.buffer@.len() - i,
        {
            let b = self.buffer[i];
            let hi = hex_digit_byte(b / 16);
            let lo = hex_digit_byte(b % 16);
            ascii.push(hi);
            ascii.push(lo);
            assert((2 * i) % 2 == 0 && (2 * i) / 2 == i);
            assert((2 * i + 1) % 2 == 1 && (2 * i + 1) / 2 == i);
            i = i + 1;
        }
        proof {
            assert(is_ascii_chars(text));
            is_ascii_chars_encode_utf8(text);
            assert(encode_utf8(text) =~= ascii@);
            lemma_lossy_of_encoded(text);
        }
        string_from_bytes_lossy(ascii.as_slice())
    }

    /// Replaces the buffer by the bytes of a hexadecimal text, after
    /// dropping every leading `0x`; either case is read, and a pair may be
    /// a `+` and one digit. Fails, changing nothing, on an odd number of
    /// text bytes, a pair that is not a number, or more bytes than the
    /// buffer size.
    pub fn from_hex_string(&mut self, hex: &str) -> (r: DlmsResult<()>)
        requires
            trim_0x(encode_utf8(hex@)).len() % 2 == 0 ==> pairs_on_char_boundaries(trim_0x(encode_utf8(hex@))),
        ensures
            r is Ok <==> (hex_decode(trim_0x(encode_utf8(hex@))) matches Some(b) && b.len() <= old(self)@.buffer_size),
            r is Ok ==> final(self)@ == (CompactDataView {
                buffer: hex_decode(trim_0x(encode_utf8(hex@)))->0,
                ..old(self)@
            }),
            r is Err ==> invalid(r) && final(self)@ == old(self)@,
    {
        let text = hex.as_bytes();
        let mut start: usize = 0;
        let ghost all = text@;
        assert(all.skip(0) =~= all);
        while text.len() - start >= 2 && text[start] == 0x30 && text[start + 1] == 0x78
            invariant
                start <= text@.len(),
                all == text@,
                trim_0x(all) == trim_0x(all.skip(start as int)),
            decreases text@.len() - start,
        {
            assert(all.skip(start as int).skip(2) =~= all.skip(start + 2));
            start = start + 2;
        }
        let ghost s = all.skip(start as int);
        assert(trim_0x(all) == s);
        let n = text.len() - start;
        if n % 2 != 0 {
            return Err(invalid_data("Hex string must have even length"));
        }
        let mut bytes: Vec<u8> = Vec::new();
        let mut k: usize = 0;
        let total = text.len();
        while k < n / 2
            invariant
                total == text@.len(),
                n == s.len(),
                n % 2 == 0,
                start + n == text@.len(),
                s == text@.skip(start as int),
                s == trim_0x(encode_utf8(hex@)),
                self@ == old(self)@,
                k <= n / 2,
                bytes@.len() == k,
                forall|j: int| 0 <= j < k ==> #[trigger] pair_value(s[2 * j], s[2 * j + 1]) == Some(bytes@[j]),
            decreases n / 2 - k,
        {
            assert(n == 2 * (n / 2));
            assert(2 * k + 1 < n);
            let c0 = text[start + 2 * k];
            let c1 = text[start + 2 * k + 1];
            assert(c0 == s[2 * k as int] && c1 == s[2 * k + 1]);
            match pair_value_of(c0, c1) {
                Some(b) => bytes.push(b),
                None => {
                    assert(pair_value(s[2 * k as int], s[2 * k + 1]) is None);
                    let mut pair: Vec<u8> = Vec::new();
                    pair.push(c0);
                    pair.push(c1);
                    let shown = string_from_bytes_lossy(pair.as_slice());
                    return Err(invalid_data_text("Invalid hex string: ".to_owned().concat(shown.as_str())));
                },
            }
            k = k + 1;
        }
        assert(forall|j: int| 0 <= j < s.len() / 2 ==> (#[trigger] pair_value(s[2 * j], s[2 * j + 1])) is Some);
        assert(bytes@ =~= Seq::new(s.len() / 2, |j: int| pair_value(s[2 * j], s[2 * j + 1])->0));
        self.set_buffer(bytes)
    }

    /// The buffer holds at least as many bytes as its size.
    pub fn is_full(&self) -> (r: bool)
        ensures
            r == (self@.buffer.len() >= self@.buffer_size),
    {
        self.buffer.len() >= self.buffer_size
    }

    /// The run-length encoding of the buffer: `(byte, count)` pairs, runs of
    /// at most 255 bytes.
    pub fn compress_rle(&self) -> (r: Vec<u8>)
        ensures
            expand(r@) == self@.buffer,
            rle_canonical(r@),
    {
        let mut compressed: Vec<u8> = Vec::new();
        let n = self.buffer.len();
        if n == 0 {
            assert(expand(compressed@) =~= self@.buffer);
            return compressed;
        }
        let mut current = self.buffer[0];
        let mut count: u8 = 1;
        let mut i: usize = 1;
        assert(self.buffer@.take(1) =~= run(current, 1));
        while i < n
            invariant
                n == self.buffer@.len(),
                1 <= i <= n,
                1 <= count,
                expand(compressed@) + run(current, count as nat) == self.buffer@.take(i as int),
                rle_canonical(compressed@),
                compressed@.len() >= 2 ==> (compressed@[compressed@.len() - 2] != current
                    || compressed@[compressed@.len() - 1] == 255),
            decreases n - i,
        {
            let byte = self.buffer[i];
            assert(self.buffer@.take(i + 1) =~= self.buffer@.take(i as int).push(byte));
            if byte == current && count < 255 {
                assert(run(current, count as nat).push(byte) =~= run(current, (count + 1) as nat));
                count = count + 1;
                assert(expand(compressed@) + run(current, count as nat) =~= self.buffer@.take(i + 1));
            } else {
                let ghost before = compressed@;
                proof {
                    lemma_expand_push(before, current, count);
                }
                compressed.push(current);
                compressed.push(count);
                assert(compressed@ =~= before.push(current).push(count));
                assert(rle_canonical(compressed@)) by {
                    let c = compressed@;
                    assert forall|k: int| 0 <= k < c.len() / 2 implies #[trigger] c[2 * k + 1] >= 1 by {
                        if k < before.len() / 2 {
                            assert(c[2 * k + 1] == before[2 * k + 1]);
                        }
                    }
                    assert forall|k: int| 1 <= k < c.len() / 2 implies #[trigger] c[2 * k] != c[2 * k - 2] || c[2
                        * k - 1] == 255 by {
                        if k < before.len() / 2 {
                            assert(c[2 * k] == before[2 * k]);
                            assert(c[2 * k - 2] == before[2 * k - 2]);
                            assert(c[2 * k - 1] == before[2 * k - 1]);
                        } else {
                            assert(2 * k == before.len());
                        }
                    }
                }
                current = byte;
                count = 1;
                assert(run(byte, 1) =~= seq![byte]);
                assert(expand(compressed@) + run(current, count as nat) =~= self.buffer@.take(i + 1));
            }
            i = i + 1;
        }
        let ghost before = compressed@;
        proof {
            lemma_expand_push(before, current, count);
        }
        compressed.push(current);
        compressed.push(count);
        assert(compressed@ =~= before.push(current).push(count));
        assert(self.buffer@.take(n as int) =~= self.buffer@);
        assert(rle_canonical(compressed@)) by {
            let c = compressed@;
            assert forall|k: int| 0 <= k < c.len() / 2 implies #[trigger] c[2 * k + 1] >= 1 by {
                if k < before.len() / 2 {
                    assert(c[2 * k + 1] == before[2 * k + 1]);
                }
            }
            assert forall|k: int| 1 <= k < c.len() / 2 implies #[trigger] c[2 * k] != c[2 * k - 2] || c[2 * k - 1]
                == 255 by {
                if k < before.len() / 2 {
                    assert(c[2 * k] == before[2 * k]);
                    assert(c[2 * k - 2] == before[2 * k - 2]);
                    assert(c[2 * k - 1] == before[2 * k - 1]);
                } else {
                    assert(2 * k == before.len());
                }
            }
        }
        compressed
    }

    /// The bytes a run-length encoding stands for; fails on an odd length.
    pub fn decompress_rle(&self, data: &[u8]) -> (r: DlmsResult<Vec<u8>>)
        ensures
            r is Ok <==> data@.len() % 2 == 0,
            r matches Ok(v) ==> v@ == expand(data@),
            r is Err ==> invalid(r),
    {
        if data.len() % 2 != 0 {
            return Err(invalid_data("RLE data must have even length"));
        }
        let mut out: Vec<u8> = Vec::new();
        let mut k: usize = 0;
        while k < data.len() / 2
            invariant
                data@.len() % 2 == 0,
                k <= data@.len() / 2,
                out@ == expand(data@.take(2 * k)),
            decreases data@.len() / 2 - k,
        {
            let byte = data[2 * k];
            let count = data[2 * k + 1];
            proof {
                lemma_expand_push(data@.take(2 * k), byte, count);
                assert(data@.take(2 * k + 2) =~= data@.take(2 * k).push(byte).push(count));
            }
            let ghost before = out@;
            let mut j: u8 = 0;
            while j < count
                invariant
                    j <= count,
                    out@ == before + run(byte, j as nat),
                decreases count - j,
            {
                out.push(byte);
                j = j + 1;
                assert(out@ =~= before + run(byte, j as nat));
            }
            k = k + 1;
        }
        assert(data@.take(data@.len() as int) =~= data@);
        Ok(out)
    }
}

impl CosemObject for CompactData {
    fn class_id(&self) -> (r: u16)
        ensures
            r == 92,
    {
        Self::CLASS_ID
    }

    fn obis_code(&self) -> (r: ObisCode)
        ensures
            r == self@.logical_name,
    {
        self.logical_name
    }

    /// The size is read as `Unsigned16`, cut to its low 16 bits.
    fn get_attribute(
        &self,
        attribute_id: u8,
        selective_access: Option<&SelectiveAccessDescriptor>,
    ) -> (r: DlmsResult<DataObject>)
        ensures
            match attribute_id {
                1 => ok_octets(r, self@.logical_name.spec_bytes()),
                2 => ok_octets(r, self@.buffer),
                3 => yields(r, DataObject::Unsigned16(self@.buffer_size as u16)),
                4 => match self@.capture_time {
                    Some(t) => yields(r, DataObject::Integer64(t)),
                    None => yields(r, DataObject::Null),
                },
                _ => invalid(r),
            },
    {
        match attribute_id {
            1 => Ok(DataObject::OctetString(self.logical_name.to_bytes())),
            2 => Ok(DataObject::OctetString(copy_bytes(&self.buffer))),
            3 => Ok(DataObject::Unsigned16(self.buffer_size as u16)),
            4 => match self.capture_time {
                Some(t) => Ok(DataObject::Integer64(t)),
                None => Ok(DataObject::Null),
            },
            _ => Err(invalid_data_number("CompactData has no attribute ", attribute_id as u64)),
        }
    }

    fn set_attribute(
        &mut self,
        attribute_id: u8,
        value: DataObject,
        selective_access: Option<&SelectiveAccessDescriptor>,
    ) -> (r: DlmsResult<()>)
        ensures
            r is Err ==> final(self)@ == old(self)@,
            match attribute_id {
                1 => denied(r),
                2 => match value {
                    DataObject::OctetString(b) => (r is Ok <==> b@.len() <= old(self)@.buffer_size) && (r is Ok
                        ==> final(self)@ == (CompactDataView { buffer: b@, ..old(self)@ })) && (r is Err ==> invalid(r)),
                    _ => invalid(r),
                },
                3 => match value {
                    DataObject::Unsigned16(v) => r is Ok && final(self)@ == (CompactDataView {
                        buffer_size: v as usize,
                        ..old(self)@
                    }),
                    DataObject::Unsigned8(v) => r is Ok && final(self)@ == (CompactDataView {
                        buffer_size: v as usize,
                        ..old(self)@
                    }),
                    _ => invalid(r),
                },
                4 => match value {
                    DataObject::Integer64(v) => r is Ok && final(self)@ == (CompactDataView {
                        capture_time: Some(v),
                        ..old(self)@
                    }),
                    DataObject::Null => r is Ok && final(self)@ == (CompactDataView { capture_time: None, ..old(self)@ }),
                    _ => invalid(r),
                },
                _ => invalid(r),
            },
    {
        match attribute_id {
            1 => Err(access_denied("Attribute 1 (logical_name) is read-only")),
            2 => match value {
                DataObject::OctetString(bytes) => self.set_buffer(bytes),
                _ => Err(invalid_data("Expected OctetString for buffer")),
            },
            3 => match value {
                DataObject::Unsigned16(size) => {
                    self.buffer_size = size as usize;
                    Ok(())
                },
                DataObject::Unsigned8(size) => {
                    self.buffer_size = size as usize;
                    Ok(())
                },
                _ => Err(invalid_data("Expected Unsigned16/Unsigned8 for buffer_size")),
            },
            4 => match value {
                DataObject::Integer64(timestamp) => {
                    self.capture_time = Some(timestamp);
                    Ok(())
                },
                DataObject::Null => {
                    self.capture_time = None;
                    Ok(())
                },
                _ => Err(invalid_data("Expected Integer64 or Null for capture_time")),
            },
            _ => Err(invalid_data_number("CompactData has no attribute ", attribute_id as u64)),
        }
    }

    fn invoke_method(
        &mut self,
        method_id: u8,
        parameters: Option<DataObject>,
        selective_access: Option<&SelectiveAccessDescriptor>,
    ) -> (r: DlmsResult<Option<DataObject>>)
        ensures
            invalid(r),
            final(self)@ == old(self)@,
    {
        Err(invalid_data_number("CompactData has no method ", method_id as u64))
    }
}

/// The code of a hexadecimal digit character reads back as its value.
proof fn lemma_hex_digit_value(v: int)
    requires
        0 <= v < 16,
    ensures
        hex_digit(v) <= '\u{7f}',
        hex_value(hex_digit(v) as u8) == Some(v as u8),
        hex_digit(v) as u8 != 0x2B,
        hex_digit(v) as u8 != 0x78,
{
}

/// Reading back the hexadecimal text of a buffer gives the buffer: no
/// leading `0x` is dropped from it, and its digit pairs denote the bytes.
/// The text also meets the requirement of `from_hex_string`.
#[verifier::spinoff_prover]
#[verifier::rlimit(40)]
pub proof fn lemma_hex_round_trip(b: Seq<u8>)
    ensures
        trim_0x(encode_utf8(hex_text(b))) == encode_utf8(hex_text(b)),
        hex_decode(encode_utf8(hex_text(b))) == Some(b),
        pairs_on_char_boundaries(encode_utf8(hex_text(b))),
{
    let t = hex_text(b);
    assert forall|i: int| 0 <= i < t.len() implies '\0' <= #[trigger] t[i] <= '\u{7f}' by {
        let v = if i % 2 == 0 { b[i / 2] / 16 } else { b[i / 2] % 16 } as int;
        lemma_hex_digit_value(v);
    }
    assert(is_ascii_chars(t));
    is_ascii_chars_encode_utf8(t);
    let e = encode_utf8(t);
    if e.len() >= 2 {
        lemma_hex_digit_value((b[0] % 16) as int);
        assert(e[1] == t[1] as u8);
    }
    assert(trim_0x(e) == e);
    assert forall|k: int| 0 <= k < e.len() / 2 implies (#[trigger] pair_value(e[2 * k], e[2 * k + 1])) == Some(b[k]) by {
        lemma_hex_digit_value((b[k] / 16) as int);
        lemma_hex_digit_value((b[k] % 16) as int);
        assert(e[2 * k] == t[2 * k] as u8);
        assert(e[2 * k + 1] == t[2 * k + 1] as u8);
        assert((2 * k) % 2 == 0 && (2 * k) / 2 == k);
        assert((2 * k + 1) % 2 == 1 && (2 * k + 1) / 2 == k);
    }
    assert(Seq::new(e.len() / 2, |k: int| pair_value(e[2 * k], e[2 * k + 1])->0) =~= b);
    assert forall|k: int| 0 <= k < e.len() / 2 implies !is_continuation_byte(#[trigger] e[2 * k]) by {
        lemma_hex_digit_value((b[k] / 16) as int);
        assert(e[2 * k] == t[2 * k] as u8);
        assert((2 * k) % 2 == 0 && (2 * k) / 2 == k);
    }
}

} // verus!
