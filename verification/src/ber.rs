//! Definite-length BER (X.690) elements: a tag byte, a length in short form
//! or in the long forms `0x81 n` and `0x82 hi lo`, and the content.
use vstd::prelude::*;
use crate::datetime::{hi_byte, lo_byte};

verus! {

/// The length field of a content of `n` bytes (`n < 65536`).
pub open spec fn ber_length(n: nat) -> Seq<u8> {
    if n < 128 {
        seq![n as u8]
    } else if n < 256 {
        seq![0x81u8, n as u8]
    } else {
        seq![0x82u8, (n / 256) as u8, (n % 256) as u8]
    }
}

/// The element with the given tag and content.
pub open spec fn ber_tlv(tag: u8, content: Seq<u8>) -> Seq<u8> {
    seq![tag] + ber_length(content.len()) + content
}

/// The length field at the start of `s`: the length and the size of the
/// field. The field is one byte below 0x80, or 0x81 and one byte, or 0x82
/// and two bytes big-endian.
pub open spec fn read_length(s: Seq<u8>) -> Option<(nat, nat)> {
    if s.len() == 0 {
        None
    } else if s[0] < 0x80 {
        Some((s[0] as nat, 1nat))
    } else if s[0] == 0x81 && s.len() >= 2 {
        Some((s[1] as nat, 2nat))
    } else if s[0] == 0x82 && s.len() >= 3 {
        Some(((s[1] * 256 + s[2]) as nat, 3nat))
    } else {
        None
    }
}

/// The element at the start of `s`: its tag, its content and its size in
/// bytes; none where `s` ends before the content does.
pub open spec fn read_tlv(s: Seq<u8>) -> Option<(u8, Seq<u8>, nat)> {
    if s.len() == 0 {
        None
    } else {
        match read_length(s.skip(1)) {
            Some((n, k)) => if 1 + k + n <= s.len() {
                Some((s[0], s.subrange((1 + k) as int, (1 + k + n) as int), (1 + k + n) as nat))
            } else {
                None
            },
            None => None,
        }
    }
}

/// The content of a non-negative INTEGER below 65536 in the fewest bytes of
/// two's complement.
pub open spec fn ber_uint(v: u16) -> Seq<u8> {
    if v < 0x80 {
        seq![v as u8]
    } else if v < 0x8000 {
        seq![hi_byte(v), lo_byte(v)]
    } else {
        seq![0u8, hi_byte(v), lo_byte(v)]
    }
}

/// The low sixteen bits of the two's complement INTEGER with content `c`.
pub open spec fn integer_low16(c: Seq<u8>) -> u16 {
    if c.len() == 1 {
        if c[0] < 0x80 {
            c[0] as u16
        } else {
            (0xFF00 + c[0]) as u16
        }
    } else {
        (c[c.len() - 2] * 256 + c[c.len() - 1]) as u16
    }
}

/// Appends the element with the given tag and content.
pub fn push_tlv(out: &mut Vec<u8>, tag: u8, content: &Vec<u8>)
    requires
        content@.len() < 65536,
    ensures
        final(out)@ == old(out)@ + ber_tlv(tag, content@),
{
    let n = content.len();
    out.push(tag);
    if n < 128 {
        out.push(n as u8);
    } else if n < 256 {
        out.push(0x81);
        out.push(n as u8);
    } else {
        out.push(0x82);
        out.push((n / 256) as u8);
        out.push((n % 256) as u8);
    }
    let ghost header = out@;
    let mut i: usize = 0;
    while i < n
        invariant
            n == content@.len(),
            i <= n,
            out@ == header + content@.take(i as int),
        decreases n - i,
    {
        out.push(content[i]);
        i = i + 1;
        assert(out@ =~= header + content@.take(i as int));
    }
    assert(content@.take(n as int) =~= content@);
    assert(header =~= old(out)@ + seq![tag] + ber_length(n as nat));
    assert(out@ =~= old(out)@ + ber_tlv(tag, content@));
}

/// The content of a non-negative INTEGER below 65536.
pub fn uint_content(v: u16) -> (r: Vec<u8>)
    ensures
        r@ == ber_uint(v),
{
    let mut r: Vec<u8> = Vec::new();
    if v < 0x80 {
        r.push(v as u8);
    } else if v < 0x8000 {
        r.push((v / 256) as u8);
        r.push((v % 256) as u8);
    } else {
        r.push(0);
        r.push((v / 256) as u8);
        r.push((v % 256) as u8);
    }
    assert(r@ =~= ber_uint(v));
    r
}

/// The element at the start of `data[start..end]`: its tag and the bounds
/// of its content within `data`.
pub fn read_tlv_at(data: &[u8], start: usize, end: usize) -> (r: Option<(u8, usize, usize)>)
    requires
        start <= end <= data@.len(),
    ensures
        match r {
            None => read_tlv(data@.subrange(start as int, end as int)) is None,
            Some((tag, cs, ce)) => start < cs <= ce <= end && read_tlv(
                data@.subrange(start as int, end as int),
            ) == Some((tag, data@.subrange(cs as int, ce as int), (ce - start) as nat)),
        },
{
    let ghost s = data@.subrange(start as int, end as int);
    if start >= end {
        return None;
    }
    let tag = data[start];
    let p = start + 1;
    assert(s.skip(1) =~= data@.subrange(p as int, end as int));
    if p >= end {
        return None;
    }
    let first = data[p];
    let (n, k): (usize, usize) = if first < 0x80 {
        (first as usize, 1)
    } else if first == 0x81 && end - p >= 2 {
        (data[p + 1] as usize, 2)
    } else if first == 0x82 && end - p >= 3 {
        ((data[p + 1] as usize) * 256 + (data[p + 2] as usize), 3)
    } else {
        return None;
    };
    assert(read_length(s.skip(1)) == Some((n as nat, k as nat)));
    if end - p < k || end - p - k < n {
        return None;
    }
    let cs = p + k;
    let ce = cs + n;
    assert(s.subrange((1 + k) as int, (1 + k + n) as int) =~= data@.subrange(cs as int, ce as int));
    Some((tag, cs, ce))
}

/// Reading an element written with a content below 65536 bytes gives back
/// its tag and content, and its size, whatever follows it.
pub proof fn lemma_read_tlv_of_encoding(tag: u8, content: Seq<u8>, rest: Seq<u8>)
    requires
        content.len() < 65536,
    ensures
        read_tlv(ber_tlv(tag, content) + rest) == Some((tag, content, ber_tlv(tag, content).len())),
        (ber_tlv(tag, content) + rest).skip(ber_tlv(tag, content).len() as int) == rest,
{
    let s = ber_tlv(tag, content) + rest;
    let l = ber_length(content.len());
    let n = content.len();
    assert(s.skip(1) =~= l + content + rest);
    if n < 128 {
        assert(read_length(s.skip(1)) == Some((n, 1nat)));
    } else if n < 256 {
        assert(read_length(s.skip(1)) == Some((n, 2nat)));
    } else {
        assert((n / 256) as u8 * 256 + (n % 256) as u8 == n);
        assert(read_length(s.skip(1)) == Some((n, 3nat)));
    }
    assert(s.subrange((1 + l.len()) as int, (1 + l.len() + n) as int) =~= content);
    assert(s.skip(ber_tlv(tag, content).len() as int) =~= rest);
}

/// The INTEGER content of a value below 65536 reads back as the value, and
/// its last byte is the value's low byte.
pub proof fn lemma_uint_content_reads_back(v: u16)
    ensures
        1 <= ber_uint(v).len() <= 3,
        integer_low16(ber_uint(v)) == v,
        ber_uint(v).last() == lo_byte(v),
{
    assert(hi_byte(v) * 256 + lo_byte(v) == v);
}

} // verus!
