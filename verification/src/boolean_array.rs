//! Boolean Array interface class (class id 91): a bounded array of flags,
//! with element access, counting and a packed byte form (bit `i` of the
//! array is bit `i % 8` of byte `i / 8`).
use vstd::prelude::*;
use crate::cosem_object::{denied, invalid, yields, CosemObject};
use crate::data_object::{copy_vec, ok_octets, DataObject};
use crate::error::{access_denied, invalid_data, invalid_data_number, invalid_data_text, text_around_two, DlmsResult};
use crate::obis::ObisCode;
use crate::selective_access::SelectiveAccessDescriptor;

verus! {

/// Number of `true` flags.
pub open spec fn count_true(s: Seq<bool>) -> nat
    decreases s.len(),
{
    if s.len() == 0 {
        0
    } else {
        count_true(s.drop_last()) + if s.last() { 1nat } else { 0nat }
    }
}

/// Number of `false` flags.
pub open spec fn count_false(s: Seq<bool>) -> nat
    decreases s.len(),
{
    if s.len() == 0 {
        0
    } else {
        count_false(s.drop_last()) + if s.last() { 0nat } else { 1nat }
    }
}

/// Every flag negated.
pub open spec fn toggled(s: Seq<bool>) -> Seq<bool> {
    Seq::new(s.len(), |i: int| !s[i])
}

/// Bit `m` (0 for the lowest) of `b`.
pub open spec fn get_bit(b: u8, m: u8) -> bool {
    ((b >> m) & 1u8) == 1u8
}

/// Number of bytes needed for `n` bits.
pub open spec fn byte_count(n: nat) -> nat {
    (n + 7) / 8
}

/// `bytes` packs `bits`: one byte per started group of eight flags, flag
/// `i` in bit `i % 8` of byte `i / 8`, and the bits beyond the flags clear.
pub open spec fn packs(bytes: Seq<u8>, bits: Seq<bool>) -> bool {
    &&& bytes.len() == byte_count(bits.len())
    &&& forall|k: int| 0 <= k < 8 * bytes.len() ==> #[trigger] get_bit(bytes[k / 8], (k % 8) as u8) == (k
        < bits.len() && bits[k])
}

/// The first `count` flags unpacked from `bytes`; flags beyond the bytes
/// are `false`.
pub open spec fn unpacked(bytes: Seq<u8>, count: nat) -> Seq<bool> {
    Seq::new(count, |i: int| i / 8 < bytes.len() && get_bit(bytes[i / 8], (i % 8) as u8))
}

/// The flags of an array of `Boolean` elements; none if any element is not
/// a `Boolean`.
pub open spec fn bools_of(items: Seq<DataObject>) -> Option<Seq<bool>> {
    if forall|i: int| 0 <= i < items.len() ==> (#[trigger] items[i]) is Boolean {
        Some(Seq::new(items.len(), |i: int| items[i]->Boolean_0))
    } else {
        None
    }
}

/// `d` is the array of the flags as `Boolean` elements.
pub open spec fn is_bool_array(d: DataObject, s: Seq<bool>) -> bool {
    d matches DataObject::Array(items) && items@.len() == s.len() && forall|i: int|
        0 <= i < s.len() ==> #[trigger] items@[i] == DataObject::Boolean(s[i])
}

/// The array that reads out the flags is accepted as a write of the same
/// flags.
pub proof fn lemma_bool_array_reads_back(d: DataObject, s: Seq<bool>)
    requires
        is_bool_array(d, s),
    ensures
        d matches DataObject::Array(items) && bools_of(items@) == Some(s),
{
    if let DataObject::Array(items) = d {
        assert forall|i: int| 0 <= i < items@.len() implies (#[trigger] items@[i]) is Boolean by {
            assert(items@[i] == DataObject::Boolean(s[i]));
        }
        assert(Seq::new(items@.len(), |i: int| items@[i]->Boolean_0) =~= s);
    }
}

/// Setting a bit changes that bit only.
proof fn lemma_set_bit(b: u8, j: u8, m: u8)
    requires
        j < 8,
        m < 8,
    ensures
        get_bit(b | (1u8 << j), m) == (m == j || get_bit(b, m)),
{
    assert(((((b | (1u8 << j)) >> m) & 1u8) == 1u8) == (m == j || (((b >> m) & 1u8) == 1u8))) by (bit_vector)
        requires
            j < 8,
            m < 8,
    ;
}

/// No bit of zero is set.
proof fn lemma_zero_bits(m: u8)
    requires
        m < 8,
    ensures
        !get_bit(0u8, m),
{
    assert((((0u8 >> m) & 1u8) == 1u8) == false) by (bit_vector)
        requires
            m < 8,
    ;
}

/// The flags counted true and false add up to the number of flags.
pub proof fn lemma_counts_add_up(s: Seq<bool>)
    ensures
        count_true(s) + count_false(s) == s.len(),
    decreases s.len(),
{
    if s.len() > 0 {
        lemma_counts_add_up(s.drop_last());
    }
}

/// Toggling every flag twice gives the flags back, and swaps the counts.
pub proof fn lemma_toggle_twice(s: Seq<bool>)
    ensures
        toggled(toggled(s)) == s,
        count_true(toggled(s)) == count_false(s),
    decreases s.len(),
{
    assert(toggled(toggled(s)) =~= s);
    if s.len() > 0 {
        lemma_toggle_twice(s.drop_last());
        assert(toggled(s).drop_last() =~= toggled(s.drop_last()));
    }
}

/// Unpacking the packed form of the flags, as many as there are, gives the
/// flags back.
pub proof fn lemma_pack_unpack(bytes: Seq<u8>, bits: Seq<bool>)
    requires
        packs(bytes, bits),
    ensures
        unpacked(bytes, bits.len()) == bits,
{
    assert forall|i: int| 0 <= i < bits.len() implies #[trigger] unpacked(bytes, bits.len())[i] == bits[i] by {
        assert(i / 8 < bytes.len());
        assert(get_bit(bytes[i / 8], (i % 8) as u8) == (i < bits.len() && bits[i]));
    }
    assert(unpacked(bytes, bits.len()) =~= bits);
}

/// The state of a [`BooleanArray`].
pub struct BooleanArrayView {
    pub logical_name: ObisCode,
    pub value: Seq<bool>,
    pub max_size: usize,
}

/// Boolean Array interface class (class id 91).
pub struct BooleanArray {
    logical_name: ObisCode,
    value: Vec<bool>,
    max_size: usize,
}

impl View for BooleanArray {
    type V = BooleanArrayView;

    closed spec fn view(&self) -> BooleanArrayView {
        BooleanArrayView { logical_name: self.logical_name, value: self.value@, max_size: self.max_size }
    }
}

impl BooleanArray {
    pub const CLASS_ID: u16 = 91;
    pub const ATTR_LOGICAL_NAME: u8 = 1;
    pub const ATTR_VALUE: u8 = 2;
    pub const ATTR_MAX_SIZE: u8 = 3;

    /// Default OBIS code 0-0:91.0.0.255.
    pub fn default_obis() -> (r: ObisCode)
        ensures
            r == (ObisCode { a: 0, b: 0, c: 91, d: 0, e: 0, f: 255 }),
    {
        ObisCode::new(0, 0, 91, 0, 0, 255)
    }

    /// No flags, at most 255.
    pub fn new(logical_name: ObisCode) -> (r: BooleanArray)
        ensures
            r@ == (BooleanArrayView { logical_name, value: Seq::empty(), max_size: 255 }),
    {
        BooleanArray { logical_name, value: Vec::new(), max_size: 255 }
    }

    pub fn with_default_obis() -> (r: BooleanArray)
        ensures
            r@ == (BooleanArrayView {
                logical_name: ObisCode { a: 0, b: 0, c: 91, d: 0, e: 0, f: 255 },
                value: Seq::empty(),
                max_size: 255,
            }),
    {
        Self::new(Self::default_obis())
    }

    pub fn with_max_size(logical_name: ObisCode, max_size: usize) -> (r: BooleanArray)
        ensures
            r@ == (BooleanArrayView { logical_name, value: Seq::empty(), max_size }),
    {
        BooleanArray { logical_name, value: Vec::new(), max_size }
    }

    /// The given flags, with a maximum of 255 (not checked against them).
    pub fn with_value(logical_name: ObisCode, initial_value: Vec<bool>) -> (r: BooleanArray)
        ensures
            r@ == (BooleanArrayView { logical_name, value: initial_value@, max_size: 255 }),
    {
        BooleanArray { logical_name, value: initial_value, max_size: 255 }
    }

    pub fn value(&self) -> (r: Vec<bool>)
        ensures
            r@ == self@.value,
    {
        copy_vec(&self.value)
    }

    /// Replaces the flags; fails, changing nothing, when there are more than
    /// the maximum.
    pub fn set_value(&mut self, value: Vec<bool>) -> (r: DlmsResult<()>)
        ensures
            r is Ok <==> value@.len() <= old(self)@.max_size,
            r is Ok ==> final(self)@ == (BooleanArrayView { value: value@, ..old(self)@ }),
            r is Err ==> invalid(r) && final(self)@ == old(self)@,
    {
        if value.len() > self.max_size {
            return Err(invalid_data_text(text_around_two("Boolean array size ", value.len() as u64, " exceeds maximum ", self.max_size as u64, "")));
        }
        self.value = value;
        Ok(())
    }

    pub fn max_size(&self) -> (r: usize)
        ensures
            r == self@.max_size,
    {
        self.max_size
    }

    /// Sets the maximum; the current flags are kept even where there are
    /// more of them.
    pub fn set_max_size(&mut self, max_size: usize)
        ensures
            final(self)@ == (BooleanArrayView { max_size, ..old(self)@ }),
    {
        self.max_size = max_size;
    }

    pub fn len(&self) -> (r: usize)
        ensures
            r == self@.value.len(),
    {
        self.value.len()
    }

    pub fn is_empty(&self) -> (r: bool)
        ensures
            r == (self@.value.len() == 0),
    {
        self.value.len() == 0
    }

    pub fn clear(&mut self)
        ensures
            final(self)@ == (BooleanArrayView { value: Seq::empty(), ..old(self)@ }),
    {
        self.value = Vec::new();
    }

    /// The flag at `index`; fails past the end.
    pub fn get(&self, index: usize) -> (r: DlmsResult<bool>)
        ensures
            r is Ok <==> index < self@.value.len(),
            r matches Ok(b) ==> b == self@.value[index as int],
            r is Err ==> invalid(r),
    {
        if index >= self.value.len() {
            return Err(invalid_data_text(text_around_two("Index ", index as u64, " out of bounds (size: ", self.value.len() as u64, ")")));
        }
        Ok(self.value[index])
    }

    /// Sets the flag at `index`; fails past the end, changing nothing.
    pub fn set(&mut self, index: usize, val: bool) -> (r: DlmsResult<()>)
        ensures
            r is Ok <==> index < old(self)@.value.len(),
            r is Ok ==> final(self)@ == (BooleanArrayView {
                value: old(self)@.value.update(index as int, val),
                ..old(self)@
            }),
            r is Err ==> invalid(r) && final(self)@ == old(self)@,
    {
        if index >= self.value.len() {
            return Err(invalid_data_text(text_around_two("Index ", index as u64, " out of bounds (size: ", self.value.len() as u64, ")")));
        }
        self.value.set(index, val);
        Ok(())
    }

    /// Appends a flag; fails, changing nothing, at the maximum.
    pub fn push(&mut self, val: bool) -> (r: DlmsResult<()>)
        ensures
            r is Ok <==> old(self)@.value.len() < old(self)@.max_size,
            r is Ok ==> final(self)@ == (BooleanArrayView { value: old(self)@.value.push(val), ..old(self)@ }),
            r is Err ==> invalid(r) && final(self)@ == old(self)@,
    {
        if self.value.len() >= self.max_size {
            return Err(invalid_data_number("Cannot push: array is at maximum size ", self.max_size as u64));
        }
        self.value.push(val);
        Ok(())
    }

    /// Removes and returns the last flag; fails on an empty array.
    pub fn pop(&mut self) -> (r: DlmsResult<bool>)
        ensures
            r is Ok <==> old(self)@.value.len() > 0,
            r matches Ok(b) ==> b == old(self)@.value.last() && final(self)@ == (BooleanArrayView {
                value: old(self)@.value.drop_last(),
                ..old(self)@
            }),
            r is Err ==> invalid(r) && final(self)@ == old(self)@,
    {
        match self.value.pop() {
            Some(b) => Ok(b),
            None => Err(invalid_data("Cannot pop: array is empty")),
        }
    }

    /// How many more flags fit, zero when the array is at or over the maximum.
    pub fn remaining_capacity(&self) -> (r: usize)
        ensures
            r == (if self@.max_size >= self@.value.len() { self@.max_size - self@.value.len() } else { 0 }),
    {
        self.max_size.saturating_sub(self.value.len())
    }

    pub fn count_true(&self) -> (r: usize)
        ensures
            r == count_true(self@.value),
    {
        let mut n: usize = 0;
        let mut i: usize = 0;
        while i < self.value.len()
            invariant
                i <= self.value@.len(),
                n == count_true(self.value@.take(i as int)),
                n <= i,
            decreases self.value@.len() - i,
        {
            assert(self.value@.take(i + 1).drop_last() =~= self.value@.take(i as int));
            if self.value[i] {
                n = n + 1;
            }
            i = i + 1;
        }
        assert(self.value@.take(self.value@.len() as int) =~= self.value@);
        n
    }

    pub fn count_false(&self) -> (r: usize)
        ensures
            r == count_false(self@.value),
    {
        let mut n: usize = 0;
        let mut i: usize = 0;
        while i < self.value.len()
            invariant
                i <= self.value@.len(),
                n == count_false(self.value@.take(i as int)),
                n <= i,
            decreases self.value@.len() - i,
        {
            assert(self.value@.take(i + 1).drop_last() =~= self.value@.take(i as int));
            if !self.value[i] {
                n = n + 1;
            }
            i = i + 1;
        }
        assert(self.value@.take(self.value@.len() as int) =~= self.value@);
        n
    }

    /// Every flag is set (true for no flags).
    pub fn all_true(&self) -> (r: bool)
        ensures
            r == (forall|i: int| 0 <= i < self@.value.len() ==> #[trigger] self@.value[i]),
    {
        let mut i: usize = 0;
        while i < self.value.len()
            invariant
                i <= self.value@.len(),
                forall|j: int| 0 <= j < i ==> #[trigger] self.value@[j],
            decreases self.value@.len() - i,
        {
            if !self.value[i] {
                assert(!self@.value[i as int]);
                return false;
            }
            i = i + 1;
        }
        true
    }

    /// No flag is set (true for no flags).
    pub fn all_false(&self) -> (r: bool)
        ensures
            r == (forall|i: int| 0 <= i < self@.value.len() ==> !#[trigger] self@.value[i]),
    {
        let mut i: usize = 0;
        while i < self.value.len()
            invariant
                i <= self.value@.len(),
                forall|j: int| 0 <= j < i ==> !#[trigger] self.value@[j],
            decreases self.value@.len() - i,
        {
            if self.value[i] {
                assert(self@.value[i as int]);
                return false;
            }
            i = i + 1;
        }
        true
    }

    /// Some flag is set.
    pub fn any_true(&self) -> (r: bool)
        ensures
            r == (exists|i: int| 0 <= i < self@.value.len() && #[trigger] self@.value[i]),
    {
        !self.all_false()
    }

    /// Negates every flag.
    pub fn toggle_all(&mut self)
        ensures
            final(self)@ == (BooleanArrayView { value: toggled(old(self)@.value), ..old(self)@ }),
    {
        let ghost before = self.value@;
        let mut i: usize = 0;
        while i < self.value.len()
            invariant
                i <= self.value@.len(),
                self.value@.len() == before.len(),
                forall|j: int| 0 <= j < i ==> #[trigger] self.value@[j] == !before[j],
                forall|j: int| i <= j < before.len() ==> #[trigger] self.value@[j] == before[j],
                self.logical_name == old(self).logical_name,
                self.max_size == old(self).max_size,
                before == old(self).value@,
            decreases self.value@.len() - i,
        {
            let v = self.value[i];
            self.value.set(i, !v);
            i = i + 1;
        }
        assert(self.value@ =~= toggled(before));
    }

    /// Negates the flag at `index`; fails past the end, changing nothing.
    pub fn toggle(&mut self, index: usize) -> (r: DlmsResult<()>)
        ensures
            r is Ok <==> index < old(self)@.value.len(),
            r is Ok ==> final(self)@ == (BooleanArrayView {
                value: old(self)@.value.update(index as int, !old(self)@.value[index as int]),
                ..old(self)@
            }),
            r is Err ==> invalid(r) && final(self)@ == old(self)@,
    {
        if index >= self.value.len() {
            return Err(invalid_data_text(text_around_two("Index ", index as u64, " out of bounds (size: ", self.value.len() as u64, ")")));
        }
        let v = self.value[index];
        self.value.set(index, !v);
        Ok(())
    }

    /// Sets every flag to `val`.
    fn fill(&mut self, val: bool)
        ensures
            final(self)@ == (BooleanArrayView {
                value: Seq::new(old(self)@.value.len(), |i: int| val),
                ..old(self)@
            }),
    {
        let mut i: usize = 0;
        while i < self.value.len()
            invariant
                i <= self.value@.len(),
                self.value@.len() == old(self).value@.len(),
                forall|j: int| 0 <= j < i ==> #[trigger] self.value@[j] == val,
                self.logical_name == old(self).logical_name,
                self.max_size == old(self).max_size,
            decreases self.value@.len() - i,
        {
            self.value.set(i, val);
            i = i + 1;
        }
        assert(self.value@ =~= Seq::new(old(self)@.value.len(), |i: int| val));
    }

    pub fn set_all_true(&mut self)
        ensures
            final(self)@ == (BooleanArrayView {
                value: Seq::new(old(self)@.value.len(), |i: int| true),
                ..old(self)@
            }),
    {
        self.fill(true);
    }

    pub fn set_all_false(&mut self)
        ensures
            final(self)@ == (BooleanArrayView {
                value: Seq::new(old(self)@.value.len(), |i: int| false),
                ..old(self)@
            }),
    {
        self.fill(false);
    }

    /// The packed form of the flags.
    pub fn to_bytes(&self) -> (r: Vec<u8>)
        ensures
            packs(r@, self@.value),
    {
        let n = self.value.len();
        let count = n / 8 + if n % 8 != 0 { 1 } else { 0 };
        assert(count == byte_count(n as nat));
        let mut bytes: Vec<u8> = Vec::new();
        while bytes.len() < count
            invariant
                bytes@.len() <= count,
                forall|k: int| 0 <= k < bytes@.len() ==> #[trigger] bytes@[k] == 0u8,
            decreases count - bytes@.len(),
        {
            bytes.push(0);
        }
        assert forall|k: int| 0 <= k < 8 * count implies !#[trigger] get_bit(bytes@[k / 8], (k % 8) as u8) by {
            lemma_zero_bits((k % 8) as u8);
        }
        let mut i: usize = 0;
        while i < n
            invariant
                n == self.value@.len(),
                count == byte_count(n as nat),
                i <= n,
                bytes@.len() == count,
                forall|k: int| 0 <= k < 8 * count ==> #[trigger] get_bit(bytes@[k / 8], (k % 8) as u8) == (k < i
                    && self.value@[k]),
            decreases n - i,
        {
            if self.value[i] {
                let idx = i / 8;
                let shift = (i % 8) as u8;
                let b = bytes[idx] | (1u8 << shift);
                let ghost before = bytes@;
                bytes.set(idx, b);
                assert forall|k: int| 0 <= k < 8 * count implies #[trigger] get_bit(bytes@[k / 8], (k % 8) as u8) == (k
                    < i + 1 && self.value@[k]) by {
                    if k / 8 == idx as int {
                        lemma_set_bit(before[idx as int], shift, (k % 8) as u8);
                        assert(get_bit(before[k / 8], (k % 8) as u8) == (k < i && self.value@[k]));
                    } else {
                        assert(bytes@[k / 8] == before[k / 8]);
                        assert(get_bit(before[k / 8], (k % 8) as u8) == (k < i && self.value@[k]));
                    }
                }
            } else {
                assert forall|k: int| 0 <= k < 8 * count implies #[trigger] get_bit(bytes@[k / 8], (k % 8) as u8) == (k
                    < i + 1 && self.value@[k]) by {
                    assert(get_bit(bytes@[k / 8], (k % 8) as u8) == (k < i && self.value@[k]));
                }
            }
            i = i + 1;
        }
        bytes
    }

    /// Replaces the flags by the first `bit_count` flags unpacked from
    /// `bytes` (flags beyond the bytes are `false`); fails, changing nothing,
    /// when `bit_count` is above the maximum.
    pub fn from_bytes(&mut self, bytes: &[u8], bit_count: usize) -> (r: DlmsResult<()>)
        ensures
            r is Ok <==> bit_count <= old(self)@.max_size,
            r is Ok ==> final(self)@ == (BooleanArrayView {
                value: unpacked(bytes@, bit_count as nat),
                ..old(self)@
            }),
            r is Err ==> invalid(r) && final(self)@ == old(self)@,
    {
        if bit_count > self.max_size {
            return Err(invalid_data_text(text_around_two("Bit count ", bit_count as u64, " exceeds maximum ", self.max_size as u64, "")));
        }
        let mut value: Vec<bool> = Vec::new();
        let mut i: usize = 0;
        while i < bit_count
            invariant
                i <= bit_count,
                value@ == unpacked(bytes@, bit_count as nat).take(i as int),
            decreases bit_count - i,
        {
            let byte_index = i / 8;
            let bit_index = (i % 8) as u8;
            let bit = if byte_index < bytes.len() {
                (bytes[byte_index] >> bit_index) & 1 == 1
            } else {
                false
            };
            value.push(bit);
            i = i + 1;
            assert(value@ =~= unpacked(bytes@, bit_count as nat).take(i as int));
        }
        assert(unpacked(bytes@, bit_count as nat).take(bit_count as int) =~= unpacked(bytes@, bit_count as nat));
        self.set_value(value)
    }
}

/// Reads the flags of an array of `Boolean` elements.
fn read_bools(items: &Vec<DataObject>) -> (r: Option<Vec<bool>>)
    ensures
        match r {
            Some(v) => bools_of(items@) == Some(v@),
            None => bools_of(items@) is None,
        },
{
    let mut out: Vec<bool> = Vec::new();
    let mut i: usize = 0;
    while i < items.len()
        invariant
            i <= items@.len(),
            out@.len() == i,
            forall|j: int| 0 <= j < i ==> (#[trigger] items@[j]) == DataObject::Boolean(out@[j]),
        decreases items@.len() - i,
    {
        match &items[i] {
            DataObject::Boolean(b) => out.push(*b),
            _ => {
                assert(!(items@[i as int] is Boolean));
                return None;
            },
        }
        i = i + 1;
    }
    assert(forall|j: int| 0 <= j < items@.len() ==> (#[trigger] items@[j]) is Boolean);
    assert(out@ =~= Seq::new(items@.len(), |j: int| items@[j]->Boolean_0));
    Some(out)
}

fn encode_bools(value: &Vec<bool>) -> (r: DataObject)
    ensures
        is_bool_array(r, value@),
{
    let mut items: Vec<DataObject> = Vec::new();
    let mut i: usize = 0;
    while i < value.len()
        invariant
            i <= value@.len(),
            items@.len() == i,
            forall|j: int| 0 <= j < i ==> #[trigger] items@[j] == DataObject::Boolean(value@[j]),
        decreases value@.len() - i,
    {
        items.push(DataObject::Boolean(value[i]));
        i = i + 1;
    }
    DataObject::Array(items)
}

impl CosemObject for BooleanArray {
    fn class_id(&self) -> (r: u16)
        ensures
            r == 91,
    {
        Self::CLASS_ID
    }

    fn obis_code(&self) -> (r: ObisCode)
        ensures
            r == self@.logical_name,
    {
        self.logical_name
    }

    /// The maximum is read as `Unsigned16`, cut to its low 16 bits.
    fn get_attribute(
        &self,
        attribute_id: u8,
        selective_access: Option<&SelectiveAccessDescriptor>,
    ) -> (r: DlmsResult<DataObject>)
        ensures
            match attribute_id {
                1 => ok_octets(r, self@.logical_name.spec_bytes()),
                2 => r matches Ok(d) && is_bool_array(d, self@.value),
                3 => yields(r, DataObject::Unsigned16(self@.max_size as u16)),
                _ => invalid(r),
            },
    {
        match attribute_id {
            1 => Ok(DataObject::OctetString(self.logical_name.to_bytes())),
            2 => Ok(encode_bools(&self.value)),
            3 => Ok(DataObject::Unsigned16(self.max_size as u16)),
            _ => Err(invalid_data_number("BooleanArray has no attribute ", attribute_id as u64)),
        }
    }

    /// The flags are written from an array of `Boolean` elements, at most
    /// the maximum; the maximum from an `Unsigned16` or `Unsigned8`.
    fn set_attribute(
        &mut self,
        attribute_id: u8,
        value: DataObject,
        selective_access: Option<&SelectiveAccessDescriptor>,
    ) -> (r: DlmsResult<()>)
        ensures
            r is Err ==> final(self)@ == old(self)@,
            match attribute_id {
                1 => denied(r),
                2 => match value {
                    DataObject::Array(items) => match bools_of(items@) {
                        Some(s) => (r is Ok <==> s.len() <= old(self)@.max_size) && (r is Ok ==> final(self)@
                            == (BooleanArrayView { value: s, ..old(self)@ })) && (r is Err ==> invalid(r)),
                        None => invalid(r),
                    },
                    _ => invalid(r),
                },
                3 => match value {
                    DataObject::Unsigned16(v) => r is Ok && final(self)@ == (BooleanArrayView {
                        max_size: v as usize,
                        ..old(self)@
                    }),
                    DataObject::Unsigned8(v) => r is Ok && final(self)@ == (BooleanArrayView {
                        max_size: v as usize,
                        ..old(self)@
                    }),
                    _ => invalid(r),
                },
                _ => invalid(r),
            },
    {
        match attribute_id {
            1 => Err(access_denied("Attribute 1 (logical_name) is read-only")),
            2 => match value {
                DataObject::Array(items) => match read_bools(&items) {
                    Some(flags) => self.set_value(flags),
                    None => Err(invalid_data("Expected Boolean values in array")),
                },
                _ => Err(invalid_data("Expected Array for value")),
            },
            3 => match value {
                DataObject::Unsigned16(max_size) => {
                    self.max_size = max_size as usize;
                    Ok(())
                },
                DataObject::Unsigned8(max_size) => {
                    self.max_size = max_size as usize;
                    Ok(())
                },
                _ => Err(invalid_data("Expected Unsigned16/Unsigned8 for max_size")),
            },
            _ => Err(invalid_data_number("BooleanArray has no attribute ", attribute_id as u64)),
        }
    }

    fn invoke_method(
        &mut self,
        method_id: u8,
        parameters: Option<DataObject>,
        selective_access: Option<&SelectiveAccessDescriptor>,
    ) -> (r: DlmsResult<Option<DataObject>>)
        ensures
            invalid(r),
            final(self)@ == old(self)@,
    {
        Err(invalid_data_number("BooleanArray has no method ", method_id as u64))
    }
}

} // verus!
