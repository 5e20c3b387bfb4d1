//! Dotted version numbers such as `"1.2.3"`, read from UTF-8 bytes.
use vstd::prelude::*;

verus! {

/// The byte of `'.'`.
pub const DOT: u8 = 46u8;

/// The parts of `s` between dots: `"1.2"` gives `["1", "2"]`, `""` gives `[""]`.
/// Since a dot is a single byte that never occurs inside a multi-byte UTF-8
/// sequence, splitting the bytes splits the text at its `'.'` characters.
pub open spec fn split_dots(s: Seq<u8>) -> Seq<Seq<u8>>
    decreases s.len(),
{
    if s.len() == 0 {
        seq![Seq::<u8>::empty()]
    } else {
        let prev = split_dots(s.drop_last());
        if s.last() == DOT {
            prev.push(Seq::<u8>::empty())
        } else {
            prev.update(prev.len() - 1, prev.last().push(s.last()))
        }
    }
}

pub proof fn lemma_split_dots_nonempty(s: Seq<u8>)
    ensures
        split_dots(s).len() >= 1,
    decreases s.len(),
{
    if s.len() > 0 {
        lemma_split_dots_nonempty(s.drop_last());
    }
}

pub open spec fn is_digit(b: u8) -> bool {
    48 <= b <= 57
}

/// The decimal value of a sequence of digit bytes.
pub open spec fn decimal_value(s: Seq<u8>) -> int
    decreases s.len(),
{
    if s.len() == 0 {
        0
    } else {
        decimal_value(s.drop_last()) * 10 + (s.last() - 48)
    }
}

/// The bytes after one leading `'+'`, if there is one.
pub open spec fn without_plus(s: Seq<u8>) -> Seq<u8> {
    if s.len() > 0 && s[0] == 43u8 { s.drop_first() } else { s }
}

/// Every byte is an ASCII digit.
pub open spec fn all_digits(d: Seq<u8>) -> bool {
    forall|i: int| 0 <= i < d.len() ==> is_digit(#[trigger] d[i])
}

/// What `str::parse::<u32>` gives for the text with these bytes: an optional
/// leading `'+'` followed by at least one ASCII digit, with a value that fits
/// in 32 bits.
pub open spec fn parse_u32(s: Seq<u8>) -> Option<u32> {
    let d = without_plus(s);
    if d.len() > 0 && all_digits(d) && decimal_value(d) <= u32::MAX {
        Some(decimal_value(d) as u32)
    } else {
        None
    }
}

/// The numbers of the parts that parse, in order (parts that do not parse are skipped).
pub open spec fn parsed_parts(parts: Seq<Seq<u8>>) -> Seq<u32>
    decreases parts.len(),
{
    if parts.len() == 0 {
        Seq::empty()
    } else {
        let prev = parsed_parts(parts.drop_last());
        match parse_u32(parts.last()) {
            Some(v) => prev.push(v),
            None => prev,
        }
    }
}

/// The number of part `k`, or 0 when there is no such part or it does not parse.
pub open spec fn part_or_zero(parts: Seq<Seq<u8>>, k: int) -> u32 {
    if 0 <= k < parts.len() {
        match parse_u32(parts[k]) {
            Some(v) => v,
            None => 0,
        }
    } else {
        0
    }
}

/// Element `i` of `a`, or 0 past its end.
pub open spec fn at_or_zero(a: Seq<u32>, i: int) -> u32 {
    if 0 <= i < a.len() { a[i] } else { 0 }
}

/// Lexicographic comparison from position `i` on, shorter sequences padded with zeros:
/// 1 if `a` is greater, -1 if smaller, 0 if equal.
pub open spec fn compare_padded(a: Seq<u32>, b: Seq<u32>, i: int) -> i8
    decreases (if a.len() > b.len() { a.len() } else { b.len() }) - i,
{
    let n = if a.len() > b.len() { a.len() } else { b.len() };
    if i >= n {
        0i8
    } else if at_or_zero(a, i) > at_or_zero(b, i) {
        1i8
    } else if at_or_zero(a, i) < at_or_zero(b, i) {
        -1i8
    } else {
        compare_padded(a, b, i + 1)
    }
}

/// Splits the bytes at every dot.
pub fn split_on_dots(s: &[u8]) -> (r: Vec<Vec<u8>>)
    ensures
        r@.len() == split_dots(s@).len(),
        forall|k: int| 0 <= k < r@.len() ==> (#[trigger] r@[k])@ == split_dots(s@)[k],
{
    let mut parts: Vec<Vec<u8>> = Vec::new();
    let mut current: Vec<u8> = Vec::new();
    let mut i: usize = 0;
    assert(s@.take(0) =~= Seq::<u8>::empty());
    while i < s.len()
        invariant
            i <= s@.len(),
            parts@.len() + 1 == split_dots(s@.take(i as int)).len(),
            forall|k: int| 0 <= k < parts@.len() ==> (#[trigger] parts@[k])@ == split_dots(s@.take(i as int))[k],
            current@ == split_dots(s@.take(i as int)).last(),
        decreases s@.len() - i,
    {
        proof {
            assert(s@.take(i + 1).drop_last() =~= s@.take(i as int));
            lemma_split_dots_nonempty(s@.take(i as int));
        }
        if s[i] == DOT {
            let done = current;
            parts.push(done);
            current = Vec::new();
        } else {
            current.push(s[i]);
        }
        i = i + 1;
    }
    proof {
        assert(s@.take(s@.len() as int) =~= s@);
        lemma_split_dots_nonempty(s@);
    }
    parts.push(current);
    parts
}

/// What `str::parse::<u32>` gives for the text with these bytes.
pub fn parse_decimal_u32(s: &Vec<u8>) -> (r: Option<u32>)
    ensures
        r == parse_u32(s@),
{
    let start: usize = if s.len() > 0 && s[0] == 43u8 { 1 } else { 0 };
    let ghost d = without_plus(s@);
    if start >= s.len() {
        return None;
    }
    let mut value: u64 = 0;
    let mut i: usize = start;
    while i < s.len()
        invariant
            start <= i <= s@.len(),
            start < s@.len(),
            d == without_plus(s@),
            d == s@.subrange(start as int, s@.len() as int),
            forall|j: int| 0 <= j < i - start ==> is_digit(#[trigger] d[j]),
            value == decimal_value(d.take(i - start)),
            value <= u32::MAX,
        decreases s@.len() - i,
    {
        let b = s[i];
        if b < 48 || b > 57 {
            assert(!is_digit(d[i - start]));
            assert(!all_digits(d));
            return None;
        }
        proof {
            assert(d.take(i - start + 1).drop_last() =~= d.take(i - start));
        }
        value = value * 10 + (b - 48) as u64;
        if value > 4294967295u64 {
            proof {
                if all_digits(d) {
                    lemma_decimal_prefix_bound(d, (i - start + 1) as int);
                }
            }
            return None;
        }
        i = i + 1;
    }
    assert(d.take(d.len() as int) =~= d);
    Some(value as u32)
}

/// The value of an all-digit sequence is at least the value of any of its prefixes.
pub proof fn lemma_decimal_prefix_bound(d: Seq<u8>, k: int)
    requires
        0 <= k <= d.len(),
        forall|j: int| 0 <= j < d.len() ==> is_digit(#[trigger] d[j]),
    ensures
        decimal_value(d) >= decimal_value(d.take(k)),
    decreases d.len() - k,
{
    if k < d.len() {
        lemma_decimal_prefix_bound(d, k + 1);
        assert(d.take(k + 1).drop_last() =~= d.take(k));
        lemma_decimal_nonneg(d.take(k));
        assert(is_digit(d[k]));
    } else {
        assert(d.take(k) =~= d);
    }
}

pub proof fn lemma_decimal_nonneg(d: Seq<u8>)
    requires
        forall|j: int| 0 <= j < d.len() ==> is_digit(#[trigger] d[j]),
    ensures
        decimal_value(d) >= 0,
    decreases d.len(),
{
    if d.len() > 0 {
        lemma_decimal_nonneg(d.drop_last());
    }
}

/// The numbers of the parts that parse, in order.
pub fn parse_parts(parts: &Vec<Vec<u8>>) -> (r: Vec<u32>)
    ensures
        r@ == parsed_parts(parts@.map_values(|p: Vec<u8>| p@)),
{
    let ghost views = parts@.map_values(|p: Vec<u8>| p@);
    let mut out: Vec<u32> = Vec::new();
    let mut i: usize = 0;
    assert(views.take(0) =~= Seq::<Seq<u8>>::empty());
    while i < parts.len()
        invariant
            i <= parts@.len(),
            views == parts@.map_values(|p: Vec<u8>| p@),
            out@ == parsed_parts(views.take(i as int)),
        decreases parts@.len() - i,
    {
        assert(views.take(i + 1).drop_last() =~= views.take(i as int));
        assert(views.take(i + 1).last() == parts@[i as int]@);
        match parse_decimal_u32(&parts[i]) {
            Some(v) => out.push(v),
            None => {},
        }
        i = i + 1;
    }
    assert(views.take(parts@.len() as int) =~= views);
    out
}

/// Lexicographic comparison of two number sequences, shorter ones padded with zeros.
pub fn compare_numbers(a: &Vec<u32>, b: &Vec<u32>) -> (r: i8)
    ensures
        r == compare_padded(a@, b@, 0),
{
    let n = if a.len() > b.len() { a.len() } else { b.len() };
    let mut i: usize = 0;
    while i < n
        invariant
            n == (if a@.len() > b@.len() { a@.len() } else { b@.len() }),
            i <= n,
            compare_padded(a@, b@, 0) == compare_padded(a@, b@, i as int),
        decreases n - i,
    {
        let x: u32 = if i < a.len() { a[i] } else { 0 };
        let y: u32 = if i < b.len() { b[i] } else { 0 };
        if x > y {
            return 1;
        } else if x < y {
            return -1;
        }
        i = i + 1;
    }
    0
}

} // verus!
