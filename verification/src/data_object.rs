use vstd::prelude::*;

verus! {

/// A DLMS data value (the `Data` CHOICE of the xDLMS encoding).
///
/// A copy is made with [`DataObject::deep_copy`], whose contract states that
/// the copy is deeply equal to the original.
#[derive(Debug, PartialEq, Eq)]
pub enum DataObject {
    Null,
    Boolean(bool),
    Integer8(i8),
    Integer16(i16),
    Integer32(i32),
    Integer64(i64),
    Unsigned8(u8),
    Unsigned16(u16),
    Unsigned32(u32),
    Unsigned64(u64),
    Enumerate(u8),
    OctetString(Vec<u8>),
    Utf8String(Vec<u8>),
    Array(Vec<DataObject>),
    Structure(Vec<DataObject>),
}

/// Deep equality of two data values: same variant, same scalar, same bytes,
/// and element-wise deep equality of arrays and structures.
pub open spec fn data_equal(a: DataObject, b: DataObject) -> bool
    decreases a,
{
    match a {
        DataObject::OctetString(x) => b matches DataObject::OctetString(y) && x@ == y@,
        DataObject::Utf8String(x) => b matches DataObject::Utf8String(y) && x@ == y@,
        DataObject::Array(x) => b matches DataObject::Array(y) && x@.len() == y@.len() && (
        forall|i: int| 0 <= i < x@.len() ==> data_equal(#[trigger] x@[i], y@[i])),
        DataObject::Structure(x) => b matches DataObject::Structure(y) && x@.len() == y@.len()
            && (forall|i: int| 0 <= i < x@.len() ==> data_equal(#[trigger] x@[i], y@[i])),
        _ => a == b,
    }
}

/// `d` is the octet string holding exactly `bytes`.
pub open spec fn is_octets(d: DataObject, bytes: Seq<u8>) -> bool {
    d matches DataObject::OctetString(b) && b@ == bytes
}

/// `r` succeeded with the octet string holding exactly `bytes`.
pub open spec fn ok_octets(r: Result<DataObject, crate::error::DlmsError>, bytes: Seq<u8>) -> bool {
    r matches Ok(d) && is_octets(d, bytes)
}

/// `d` is `Null` when `o` is `None`, and the octet string of `o`'s bytes otherwise.
pub open spec fn is_optional_octets(d: DataObject, o: Option<Seq<u8>>) -> bool {
    match o {
        None => d == DataObject::Null,
        Some(s) => is_octets(d, s),
    }
}

/// Deep equality of two data values.
pub fn data_object_eq(a: &DataObject, b: &DataObject) -> (r: bool)
    ensures
        r == data_equal(*a, *b),
    decreases a,
{
    match (a, b) {
        (DataObject::Null, DataObject::Null) => true,
        (DataObject::Boolean(x), DataObject::Boolean(y)) => *x == *y,
        (DataObject::Integer8(x), DataObject::Integer8(y)) => *x == *y,
        (DataObject::Integer16(x), DataObject::Integer16(y)) => *x == *y,
        (DataObject::Integer32(x), DataObject::Integer32(y)) => *x == *y,
        (DataObject::Integer64(x), DataObject::Integer64(y)) => *x == *y,
        (DataObject::Unsigned8(x), DataObject::Unsigned8(y)) => *x == *y,
        (DataObject::Unsigned16(x), DataObject::Unsigned16(y)) => *x == *y,
        (DataObject::Unsigned32(x), DataObject::Unsigned32(y)) => *x == *y,
        (DataObject::Unsigned64(x), DataObject::Unsigned64(y)) => *x == *y,
        (DataObject::Enumerate(x), DataObject::Enumerate(y)) => *x == *y,
        (DataObject::OctetString(x), DataObject::OctetString(y)) => bytes_eq(x, y),
        (DataObject::Utf8String(x), DataObject::Utf8String(y)) => bytes_eq(x, y),
        (DataObject::Array(x), DataObject::Array(y)) => {
            proof {
                assert(decreases_to!(*a => *x));
            }
            items_eq(x, y)
        }
        (DataObject::Structure(x), DataObject::Structure(y)) => items_eq(x, y),
        _ => false,
    }
}

impl DataObject {
    /// A deep copy of the value.
    pub fn deep_copy(&self) -> (r: DataObject)
        ensures
            data_equal(r, *self),
            data_equal(*self, r),
        decreases self,
    {
        match self {
            DataObject::Null => DataObject::Null,
            DataObject::Boolean(x) => DataObject::Boolean(*x),
            DataObject::Integer8(x) => DataObject::Integer8(*x),
            DataObject::Integer16(x) => DataObject::Integer16(*x),
            DataObject::Integer32(x) => DataObject::Integer32(*x),
            DataObject::Integer64(x) => DataObject::Integer64(*x),
            DataObject::Unsigned8(x) => DataObject::Unsigned8(*x),
            DataObject::Unsigned16(x) => DataObject::Unsigned16(*x),
            DataObject::Unsigned32(x) => DataObject::Unsigned32(*x),
            DataObject::Unsigned64(x) => DataObject::Unsigned64(*x),
            DataObject::Enumerate(x) => DataObject::Enumerate(*x),
            DataObject::OctetString(x) => DataObject::OctetString(copy_bytes(x)),
            DataObject::Utf8String(x) => DataObject::Utf8String(copy_bytes(x)),
            DataObject::Array(x) => DataObject::Array(copy_items(x)),
            DataObject::Structure(x) => DataObject::Structure(copy_items(x)),
        }
    }
}

/// A copy of a byte vector.
pub fn copy_bytes(x: &Vec<u8>) -> (r: Vec<u8>)
    ensures
        r@ == x@,
{
    vstd::slice::slice_to_vec(x.as_slice())
}

/// Element-wise deep copy of a vector of data values.
fn copy_items(x: &Vec<DataObject>) -> (r: Vec<DataObject>)
    ensures
        r@.len() == x@.len(),
        forall|i: int| 0 <= i < x@.len() ==> data_equal(#[trigger] r@[i], x@[i]) && data_equal(x@[i], r@[i]),
    decreases x,
{
    let mut r: Vec<DataObject> = Vec::new();
    let mut i: usize = 0;
    while i < x.len()
        invariant
            i <= x@.len(),
            r@.len() == i,
            forall|j: int| 0 <= j < i ==> data_equal(#[trigger] r@[j], x@[j]) && data_equal(x@[j], r@[j]),
        decreases x@.len() - i,
    {
        r.push(x[i].deep_copy());
        i = i + 1;
    }
    r
}

/// Element-wise equality of two byte vectors.
pub fn bytes_eq(x: &Vec<u8>, y: &Vec<u8>) -> (r: bool)
    ensures
        r == (x@ == y@),
{
    if x.len() != y.len() {
        return false;
    }
    let mut i: usize = 0;
    while i < x.len()
        invariant
            x@.len() == y@.len(),
            i <= x@.len(),
            forall|j: int| 0 <= j < i ==> x@[j] == y@[j],
        decreases x@.len() - i,
    {
        if x[i] != y[i] {
            return false;
        }
        i = i + 1;
    }
    assert(x@ =~= y@);
    true
}

/// Element-wise deep equality of two vectors of data values.
fn items_eq(x: &Vec<DataObject>, y: &Vec<DataObject>) -> (r: bool)
    ensures
        r == (x@.len() == y@.len() && forall|i: int|
            0 <= i < x@.len() ==> data_equal(#[trigger] x@[i], y@[i])),
    decreases x,
{
    if x.len() != y.len() {
        return false;
    }
    let mut i: usize = 0;
    while i < x.len()
        invariant
            x@.len() == y@.len(),
            i <= x@.len(),
            forall|j: int| 0 <= j < i ==> data_equal(#[trigger] x@[j], y@[j]),
        decreases x@.len() - i,
    {
        if !data_object_eq(&x[i], &y[i]) {
            return false;
        }
        i = i + 1;
    }
    true
}

/// `out` is what reading `items` one by one with `parse` gives, stopping at
/// the first item that `parse` refuses: every element of `out` is the reading
/// of the item at its index, and the item just after them, if any, is refused.
pub open spec fn parsed_prefix<T>(
    items: Seq<DataObject>,
    parse: spec_fn(DataObject) -> Option<T>,
    out: Seq<T>,
) -> bool {
    &&& out.len() <= items.len()
    &&& forall|i: int| 0 <= i < out.len() ==> parse(#[trigger] items[i]) == Some(out[i])
    &&& out.len() < items.len() ==> parse(items[out.len() as int]) is None
}

/// A copy of a vector of plain values.
pub fn copy_vec<T: Copy>(v: &Vec<T>) -> (r: Vec<T>)
    ensures
        r@ == v@,
{
    let mut r: Vec<T> = Vec::new();
    let mut i: usize = 0;
    while i < v.len()
        invariant
            i <= v@.len(),
            r@ == v@.take(i as int),
        decreases v@.len() - i,
    {
        r.push(v[i]);
        i = i + 1;
        assert(r@ =~= v@.take(i as int));
    }
    assert(v@.take(v@.len() as int) =~= v@);
    r
}

/// The bytes of an optional byte vector.
pub open spec fn opt_bytes(o: Option<Vec<u8>>) -> Option<Seq<u8>> {
    match o {
        Some(v) => Some(v@),
        None => None,
    }
}

/// A copy of an optional byte vector.
pub fn copy_opt_bytes(o: &Option<Vec<u8>>) -> (r: Option<Vec<u8>>)
    ensures
        opt_bytes(r) == opt_bytes(*o),
{
    match o {
        Some(v) => Some(copy_bytes(v)),
        None => None,
    }
}

/// `d` is the array of `Unsigned32` values of `s`, in order.
pub open spec fn is_u32_array(d: DataObject, s: Seq<u32>) -> bool {
    d matches DataObject::Array(items) && items@.len() == s.len()
        && forall|i: int| 0 <= i < s.len() ==> #[trigger] items@[i] == DataObject::Unsigned32(s[i])
}

/// The array of `Unsigned32` values of `v`, in order.
pub fn u32_array(v: &Vec<u32>) -> (r: DataObject)
    ensures
        is_u32_array(r, v@),
{
    let mut items: Vec<DataObject> = Vec::new();
    let mut i: usize = 0;
    while i < v.len()
        invariant
            i <= v@.len(),
            items@.len() == i,
            forall|j: int| 0 <= j < i ==> #[trigger] items@[j] == DataObject::Unsigned32(v@[j]),
        decreases v@.len() - i,
    {
        items.push(DataObject::Unsigned32(v[i]));
        i = i + 1;
    }
    DataObject::Array(items)
}

/// Whether `x` occurs in `v`.
pub fn contains_u32(v: &Vec<u32>, x: u32) -> (r: bool)
    ensures
        r == v@.contains(x),
{
    let mut i: usize = 0;
    while i < v.len()
        invariant
            i <= v@.len(),
            forall|j: int| 0 <= j < i ==> v@[j] != x,
        decreases v@.len() - i,
    {
        if v[i] == x {
            assert(v@[i as int] == x);
            return true;
        }
        i = i + 1;
    }
    false
}

/// What the derived `Debug` of a data value prints, e.g. `Unsigned8(5)`.
pub uninterp spec fn spec_debug_text(d: DataObject) -> Seq<char>;

/// The `Debug` text of `d`, through `format!("{:?}", ..)` on the derived
/// `Debug` impl. The text is only named: the layout of derived `Debug`
/// output is not specified by std.
#[verifier::external_body]
pub(crate) fn debug_text(d: &DataObject) -> (r: String)
    ensures
        r@ == spec_debug_text(*d),
{
    format!("{:?}", d)
}

} // verus!
