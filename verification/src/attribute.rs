//! Attribute access rights, attribute metadata, value validation against the
//! metadata, and a registry of the metadata of an object's attributes.
use vstd::prelude::*;
use vstd::string::StringExecFns;
use crate::cosem_object::{denied, invalid};
use crate::data_object::{data_equal, data_object_eq, debug_text, DataObject};
use crate::error::{access_denied_number, invalid_data_text, number_text, signed_digits, signed_text, text_around, DlmsResult};
use crate::lists::{first_index, lemma_first_index_at, lemma_first_index_none, lemma_first_index_props, retained, lemma_retained_step};

verus! {

/// Access rights of an attribute.
#[derive(Debug, Clone, Copy, PartialEq, Eq, Structural)]
pub enum AttributeAccess {
    NoAccess,
    ReadOnly,
    WriteOnly,
    ReadWrite,
}

impl Default for AttributeAccess {
    /// No access.
    fn default() -> (r: AttributeAccess)
        ensures
            r == AttributeAccess::NoAccess,
    {
        AttributeAccess::NoAccess
    }
}

impl AttributeAccess {
    pub open spec fn spec_can_read(self) -> bool {
        self == AttributeAccess::ReadOnly || self == AttributeAccess::ReadWrite
    }

    pub open spec fn spec_can_write(self) -> bool {
        self == AttributeAccess::WriteOnly || self == AttributeAccess::ReadWrite
    }

    pub fn can_read(&self) -> (r: bool)
        ensures
            r == self.spec_can_read(),
    {
        matches!(self, AttributeAccess::ReadOnly | AttributeAccess::ReadWrite)
    }

    pub fn can_write(&self) -> (r: bool)
        ensures
            r == self.spec_can_write(),
    {
        matches!(self, AttributeAccess::WriteOnly | AttributeAccess::ReadWrite)
    }

    pub fn read_only() -> (r: AttributeAccess)
        ensures
            r == AttributeAccess::ReadOnly,
    {
        AttributeAccess::ReadOnly
    }

    pub fn write_only() -> (r: AttributeAccess)
        ensures
            r == AttributeAccess::WriteOnly,
    {
        AttributeAccess::WriteOnly
    }

    pub fn read_write() -> (r: AttributeAccess)
        ensures
            r == AttributeAccess::ReadWrite,
    {
        AttributeAccess::ReadWrite
    }
}

/// What is known of an attribute: identifier, name, access, whether it is
/// mandatory and selectable, and the limits and allowed values of its value.
#[derive(Debug)]
pub struct AttributeMetadata {
    pub id: u8,
    pub name: String,
    pub access: AttributeAccess,
    pub mandatory: bool,
    pub selectable: bool,
    pub min_value: Option<DataObject>,
    pub max_value: Option<DataObject>,
    pub allowed_values: Option<Vec<DataObject>>,
}

/// The state of an [`AttributeMetadata`].
pub struct MetaView {
    pub id: u8,
    pub name: Seq<char>,
    pub access: AttributeAccess,
    pub mandatory: bool,
    pub selectable: bool,
    pub min_value: Option<DataObject>,
    pub max_value: Option<DataObject>,
    pub allowed_values: Option<Seq<DataObject>>,
}

/// The elements of an optional vector.
pub open spec fn opt_items(o: Option<Vec<DataObject>>) -> Option<Seq<DataObject>> {
    match o {
        Some(v) => Some(v@),
        None => None,
    }
}

impl View for AttributeMetadata {
    type V = MetaView;

    open spec fn view(&self) -> MetaView {
        MetaView {
            id: self.id,
            name: self.name@,
            access: self.access,
            mandatory: self.mandatory,
            selectable: self.selectable,
            min_value: self.min_value,
            max_value: self.max_value,
            allowed_values: opt_items(self.allowed_values),
        }
    }
}

/// Two optional values are both absent or deeply equal.
pub open spec fn opt_data_equal(a: Option<DataObject>, b: Option<DataObject>) -> bool {
    match (a, b) {
        (None, None) => true,
        (Some(x), Some(y)) => data_equal(x, y),
        _ => false,
    }
}

/// Two optional lists are both absent or deeply equal element by element.
pub open spec fn opt_list_equal(a: Option<Seq<DataObject>>, b: Option<Seq<DataObject>>) -> bool {
    match (a, b) {
        (None, None) => true,
        (Some(x), Some(y)) => x.len() == y.len() && forall|i: int| 0 <= i < x.len() ==> data_equal(#[trigger] x[i], y[i]),
        _ => false,
    }
}

/// Two metadata states are equal, their values deeply.
pub open spec fn meta_equal(a: MetaView, b: MetaView) -> bool {
    &&& a.id == b.id
    &&& a.name == b.name
    &&& a.access == b.access
    &&& a.mandatory == b.mandatory
    &&& a.selectable == b.selectable
    &&& opt_data_equal(a.min_value, b.min_value)
    &&& opt_data_equal(a.max_value, b.max_value)
    &&& opt_list_equal(a.allowed_values, b.allowed_values)
}

fn copy_opt_data(o: &Option<DataObject>) -> (r: Option<DataObject>)
    ensures
        opt_data_equal(r, *o),
{
    match o {
        Some(d) => Some(d.deep_copy()),
        None => None,
    }
}

fn copy_opt_list(o: &Option<Vec<DataObject>>) -> (r: Option<Vec<DataObject>>)
    ensures
        opt_list_equal(opt_items(r), opt_items(*o)),
{
    match o {
        Some(v) => {
            let mut out: Vec<DataObject> = Vec::new();
            let mut i: usize = 0;
            while i < v.len()
                invariant
                    i <= v@.len(),
                    out@.len() == i,
                    forall|j: int| 0 <= j < i ==> data_equal(#[trigger] out@[j], v@[j]),
                decreases v@.len() - i,
            {
                out.push(v[i].deep_copy());
                i = i + 1;
            }
            Some(out)
        },
        None => None,
    }
}

impl AttributeMetadata {
    /// Metadata with no access, neither mandatory nor selectable, and no
    /// limits or allowed values.
    pub fn new(id: u8, name: &str) -> (r: AttributeMetadata)
        ensures
            r@ == (MetaView {
                id,
                name: name@,
                access: AttributeAccess::NoAccess,
                mandatory: false,
                selectable: false,
                min_value: None,
                max_value: None,
                allowed_values: None,
            }),
    {
        AttributeMetadata {
            id,
            name: name.to_owned(),
            access: AttributeAccess::NoAccess,
            mandatory: false,
            selectable: false,
            min_value: None,
            max_value: None,
            allowed_values: None,
        }
    }

    pub fn with_access(self, access: AttributeAccess) -> (r: AttributeMetadata)
        ensures
            r@ == (MetaView { access, ..self@ }),
    {
        AttributeMetadata { access, ..self }
    }

    pub fn with_mandatory(self, mandatory: bool) -> (r: AttributeMetadata)
        ensures
            r@ == (MetaView { mandatory, ..self@ }),
    {
        AttributeMetadata { mandatory, ..self }
    }

    pub fn with_selectable(self, selectable: bool) -> (r: AttributeMetadata)
        ensures
            r@ == (MetaView { selectable, ..self@ }),
    {
        AttributeMetadata { selectable, ..self }
    }

    pub fn with_min_value(self, value: DataObject) -> (r: AttributeMetadata)
        ensures
            r@ == (MetaView { min_value: Some(value), ..self@ }),
    {
        AttributeMetadata { min_value: Some(value), ..self }
    }

    pub fn with_max_value(self, value: DataObject) -> (r: AttributeMetadata)
        ensures
            r@ == (MetaView { max_value: Some(value), ..self@ }),
    {
        AttributeMetadata { max_value: Some(value), ..self }
    }

    pub fn with_allowed_values(self, values: Vec<DataObject>) -> (r: AttributeMetadata)
        ensures
            r@ == (MetaView { allowed_values: Some(values@), ..self@ }),
    {
        AttributeMetadata { allowed_values: Some(values), ..self }
    }

    pub fn read_only(id: u8, name: &str) -> (r: AttributeMetadata)
        ensures
            r@ == (MetaView {
                id,
                name: name@,
                access: AttributeAccess::ReadOnly,
                mandatory: false,
                selectable: false,
                min_value: None,
                max_value: None,
                allowed_values: None,
            }),
    {
        Self::new(id, name).with_access(AttributeAccess::ReadOnly)
    }

    pub fn read_write(id: u8, name: &str) -> (r: AttributeMetadata)
        ensures
            r@ == (MetaView {
                id,
                name: name@,
                access: AttributeAccess::ReadWrite,
                mandatory: false,
                selectable: false,
                min_value: None,
                max_value: None,
                allowed_values: None,
            }),
    {
        Self::new(id, name).with_access(AttributeAccess::ReadWrite)
    }

    pub fn write_only(id: u8, name: &str) -> (r: AttributeMetadata)
        ensures
            r@ == (MetaView {
                id,
                name: name@,
                access: AttributeAccess::WriteOnly,
                mandatory: false,
                selectable: false,
                min_value: None,
                max_value: None,
                allowed_values: None,
            }),
    {
        Self::new(id, name).with_access(AttributeAccess::WriteOnly)
    }

    /// A copy, values copied deeply.
    pub fn deep_copy(&self) -> (r: AttributeMetadata)
        ensures
            meta_equal(r@, self@),
    {
        AttributeMetadata {
            id: self.id,
            name: crate::text::copy_string(&self.name),
            access: self.access,
            mandatory: self.mandatory,
            selectable: self.selectable,
            min_value: copy_opt_data(&self.min_value),
            max_value: copy_opt_data(&self.max_value),
            allowed_values: copy_opt_list(&self.allowed_values),
        }
    }
}

/// `value` is within `limit`: at least the limit when `check_min`, at most
/// it otherwise, for two numbers of the same kind; values of different
/// kinds, or not numbers, are not compared and pass.
pub open spec fn within_limit(value: DataObject, limit: DataObject, check_min: bool) -> bool {
    match (value, limit) {
        (DataObject::Unsigned8(v), DataObject::Unsigned8(l)) => if check_min { v >= l } else { v <= l },
        (DataObject::Unsigned16(v), DataObject::Unsigned16(l)) => if check_min { v >= l } else { v <= l },
        (DataObject::Unsigned32(v), DataObject::Unsigned32(l)) => if check_min { v >= l } else { v <= l },
        (DataObject::Unsigned64(v), DataObject::Unsigned64(l)) => if check_min { v >= l } else { v <= l },
        (DataObject::Integer8(v), DataObject::Integer8(l)) => if check_min { v >= l } else { v <= l },
        (DataObject::Integer16(v), DataObject::Integer16(l)) => if check_min { v >= l } else { v <= l },
        (DataObject::Integer32(v), DataObject::Integer32(l)) => if check_min { v >= l } else { v <= l },
        (DataObject::Integer64(v), DataObject::Integer64(l)) => if check_min { v >= l } else { v <= l },
        _ => true,
    }
}

/// Compares a value with a limit: see [`within_limit`].
fn compare_values(value: &DataObject, limit: &DataObject, check_min: bool) -> (r: bool)
    ensures
        r == within_limit(*value, *limit, check_min),
{
    match (value, limit) {
        (DataObject::Unsigned8(v), DataObject::Unsigned8(l)) => if check_min { *v >= *l } else { *v <= *l },
        (DataObject::Unsigned16(v), DataObject::Unsigned16(l)) => if check_min { *v >= *l } else { *v <= *l },
        (DataObject::Unsigned32(v), DataObject::Unsigned32(l)) => if check_min { *v >= *l } else { *v <= *l },
        (DataObject::Unsigned64(v), DataObject::Unsigned64(l)) => if check_min { *v >= *l } else { *v <= *l },
        (DataObject::Integer8(v), DataObject::Integer8(l)) => if check_min { *v >= *l } else { *v <= *l },
        (DataObject::Integer16(v), DataObject::Integer16(l)) => if check_min { *v >= *l } else { *v <= *l },
        (DataObject::Integer32(v), DataObject::Integer32(l)) => if check_min { *v >= *l } else { *v <= *l },
        (DataObject::Integer64(v), DataObject::Integer64(l)) => if check_min { *v >= *l } else { *v <= *l },
        _ => true,
    }
}

/// The two numbers a limit check compares, when they are of the same kind.
pub open spec fn limit_pair(value: DataObject, limit: DataObject) -> Option<(int, int)> {
    match (value, limit) {
        (DataObject::Unsigned8(v), DataObject::Unsigned8(l)) => Some((v as int, l as int)),
        (DataObject::Unsigned16(v), DataObject::Unsigned16(l)) => Some((v as int, l as int)),
        (DataObject::Unsigned32(v), DataObject::Unsigned32(l)) => Some((v as int, l as int)),
        (DataObject::Unsigned64(v), DataObject::Unsigned64(l)) => Some((v as int, l as int)),
        (DataObject::Integer8(v), DataObject::Integer8(l)) => Some((v as int, l as int)),
        (DataObject::Integer16(v), DataObject::Integer16(l)) => Some((v as int, l as int)),
        (DataObject::Integer32(v), DataObject::Integer32(l)) => Some((v as int, l as int)),
        (DataObject::Integer64(v), DataObject::Integer64(l)) => Some((v as int, l as int)),
        _ => None,
    }
}

/// The text of a failed limit check: `v < l` below a minimum, `v > l` above
/// a maximum; empty for values that are not compared.
pub open spec fn limit_failure_text(value: DataObject, limit: DataObject, check_min: bool) -> Seq<char> {
    match limit_pair(value, limit) {
        Some((v, l)) => signed_digits(v) + (if check_min {
            seq![' ', '<', ' ']
        } else {
            seq![' ', '>', ' ']
        }) + signed_digits(l),
        None => Seq::empty(),
    }
}

/// The decimal text of an unsigned number, as a signed one.
fn unsigned_text(n: u64) -> (r: String)
    ensures
        r@ == signed_digits(n as int),
{
    number_text(n)
}

/// The text of a failed limit check: see [`limit_failure_text`].
fn limit_failure_message(value: &DataObject, limit: &DataObject, check_min: bool) -> (r: String)
    ensures
        r@ == limit_failure_text(*value, *limit, check_min),
{
    let (v, l) = match (value, limit) {
        (DataObject::Unsigned8(v), DataObject::Unsigned8(l)) => (unsigned_text(*v as u64), unsigned_text(*l as u64)),
        (DataObject::Unsigned16(v), DataObject::Unsigned16(l)) => (unsigned_text(*v as u64), unsigned_text(*l as u64)),
        (DataObject::Unsigned32(v), DataObject::Unsigned32(l)) => (unsigned_text(*v as u64), unsigned_text(*l as u64)),
        (DataObject::Unsigned64(v), DataObject::Unsigned64(l)) => (unsigned_text(*v), unsigned_text(*l)),
        (DataObject::Integer8(v), DataObject::Integer8(l)) => (signed_text(*v as i64), signed_text(*l as i64)),
        (DataObject::Integer16(v), DataObject::Integer16(l)) => (signed_text(*v as i64), signed_text(*l as i64)),
        (DataObject::Integer32(v), DataObject::Integer32(l)) => (signed_text(*v as i64), signed_text(*l as i64)),
        (DataObject::Integer64(v), DataObject::Integer64(l)) => (signed_text(*v), signed_text(*l)),
        _ => return String::new(),
    };
    proof {
        reveal_strlit(" < ");
        reveal_strlit(" > ");
    }
    let op = if check_min { " < " } else { " > " };
    let r = v.concat(op).concat(l.as_str());
    assert(r@ =~= limit_failure_text(*value, *limit, check_min));
    r
}

/// Some element of `list` is deeply equal to `value`.
pub open spec fn contains_deep(list: Seq<DataObject>, value: DataObject) -> bool {
    exists|i: int| 0 <= i < list.len() && data_equal(#[trigger] list[i], value)
}

/// The value is admitted by the metadata: one of the allowed values, if
/// they are given, and within the minimum and maximum, if given.
pub open spec fn admitted(m: MetaView, value: DataObject) -> bool {
    &&& match m.allowed_values {
        Some(list) => contains_deep(list, value),
        None => true,
    }
    &&& match m.min_value {
        Some(x) => within_limit(value, x, true),
        None => true,
    }
    &&& match m.max_value {
        Some(x) => within_limit(value, x, false),
        None => true,
    }
}

/// The metadata is for attribute `id`.
pub open spec fn meta_for(id: u8) -> spec_fn(MetaView) -> bool {
    |m: MetaView| m.id == id
}

/// The metadata of attribute `id` in the list.
pub open spec fn meta_lookup(list: Seq<MetaView>, id: u8) -> Option<MetaView> {
    match first_index(list, meta_for(id)) {
        Some(i) => Some(list[i]),
        None => None,
    }
}

/// The list after recording `m`: it replaces the metadata of the same
/// attribute in place, or is appended.
pub open spec fn meta_insert(list: Seq<MetaView>, m: MetaView) -> Seq<MetaView> {
    match first_index(list, meta_for(m.id)) {
        Some(i) => list.update(i, m),
        None => list.push(m),
    }
}

/// The states of a list of metadata.
pub open spec fn meta_views(s: Seq<AttributeMetadata>) -> Seq<MetaView> {
    s.map_values(|m: AttributeMetadata| m@)
}

/// No two entries of the list are for the same attribute.
pub open spec fn ids_unique(list: Seq<MetaView>) -> bool {
    forall|i: int, j: int| 0 <= i < j < list.len() ==> #[trigger] list[i].id != #[trigger] list[j].id
}

/// Recording metadata keeps the entries one per attribute.
pub proof fn lemma_insert_keeps_ids_unique(list: Seq<MetaView>, m: MetaView)
    requires
        ids_unique(list),
    ensures
        ids_unique(meta_insert(list, m)),
{
    lemma_first_index_props(list, meta_for(m.id));
    let after = meta_insert(list, m);
    match first_index(list, meta_for(m.id)) {
        Some(k) => {
            assert forall|i: int, j: int| 0 <= i < j < after.len() implies #[trigger] after[i].id
                != #[trigger] after[j].id by {
                assert(after[i].id == list[i].id);
                assert(after[j].id == list[j].id);
            }
        },
        None => {
            assert forall|i: int, j: int| 0 <= i < j < after.len() implies #[trigger] after[i].id
                != #[trigger] after[j].id by {
                if j == list.len() {
                    assert(!meta_for(m.id)(list[i]));
                } else {
                    assert(after[i] == list[i] && after[j] == list[j]);
                }
            }
        },
    }
}

/// Recording several metadata in turn keeps the entries one per attribute.
pub proof fn lemma_inserts_keep_ids_unique(list: Seq<MetaView>, s: Seq<MetaView>)
    requires
        ids_unique(list),
    ensures
        ids_unique(meta_inserts(list, s)),
    decreases s.len(),
{
    if s.len() > 0 {
        lemma_inserts_keep_ids_unique(list, s.drop_last());
        lemma_insert_keeps_ids_unique(meta_inserts(list, s.drop_last()), s.last());
    }
}

/// Checks a value offered for an attribute.
pub trait AttributeValidator {
    /// `r` is what validating `value` for `attribute_id` gives.
    spec fn spec_validates(&self, attribute_id: u8, value: DataObject, r: DlmsResult<()>) -> bool;

    fn validate(&self, attribute_id: u8, value: &DataObject) -> (r: DlmsResult<()>)
        ensures
            self.spec_validates(attribute_id, *value, r);
}

/// A validator that checks values against attribute metadata.
#[derive(Debug)]
pub struct MetadataValidator {
    metadata: Vec<AttributeMetadata>,
}

impl MetadataValidator {
    /// The validator keeps one entry per attribute.
    #[verifier::type_invariant]
    spec fn entries_unique(self) -> bool {
        ids_unique(meta_views(self.metadata@))
    }
}

impl View for MetadataValidator {
    type V = Seq<MetaView>;

    closed spec fn view(&self) -> Seq<MetaView> {
        meta_views(self.metadata@)
    }
}

/// The index of the metadata of attribute `id`.
fn position_of_meta(list: &Vec<AttributeMetadata>, id: u8) -> (r: Option<usize>)
    ensures
        match r {
            Some(i) => i < list@.len() && first_index(meta_views(list@), meta_for(id)) == Some(i as int),
            None => first_index(meta_views(list@), meta_for(id)) is None,
        },
{
    let ghost views = meta_views(list@);
    let mut i: usize = 0;
    while i < list.len()
        invariant
            i <= list@.len(),
            views == meta_views(list@),
            forall|j: int| 0 <= j < i ==> !meta_for(id)(#[trigger] views[j]),
        decreases list@.len() - i,
    {
        if list[i].id == id {
            proof {
                lemma_first_index_at(views, meta_for(id), i as int);
            }
            return Some(i);
        }
        i = i + 1;
    }
    proof {
        lemma_first_index_none(views, meta_for(id));
    }
    None
}

/// Records `m` in the list: see [`meta_insert`].
fn insert_meta(list: &mut Vec<AttributeMetadata>, m: AttributeMetadata)
    ensures
        meta_views(final(list)@) == meta_insert(meta_views(old(list)@), m@),
{
    match position_of_meta(list, m.id) {
        Some(i) => {
            let ghost before = list@;
            list.set(i, m);
            assert(meta_views(list@) =~= meta_views(before).update(i as int, m@));
        },
        None => {
            let ghost before = list@;
            list.push(m);
            assert(meta_views(list@) =~= meta_views(before).push(m@));
        },
    }
}

/// Whether `value` is one of `list`, deeply.
fn list_contains(list: &Vec<DataObject>, value: &DataObject) -> (r: bool)
    ensures
        r == contains_deep(list@, *value),
{
    let mut i: usize = 0;
    while i < list.len()
        invariant
            i <= list@.len(),
            forall|j: int| 0 <= j < i ==> !data_equal(#[trigger] list@[j], *value),
        decreases list@.len() - i,
    {
        if data_object_eq(&list[i], value) {
            return true;
        }
        i = i + 1;
    }
    false
}

/// The list built by recording each metadata of `s` in turn.
pub open spec fn meta_list_of(s: Seq<MetaView>) -> Seq<MetaView>
    decreases s.len(),
{
    if s.len() == 0 {
        Seq::empty()
    } else {
        meta_insert(meta_list_of(s.drop_last()), s.last())
    }
}

/// Records the metadata of `metadata` in turn into `list`.
fn insert_all(list: &mut Vec<AttributeMetadata>, metadata: Vec<AttributeMetadata>)
    ensures
        meta_views(final(list)@) == meta_inserts(meta_views(old(list)@), meta_views(metadata@)),
{
    let mut source = metadata;
    let ghost orig = source@;
    let ghost start = meta_views(list@);
    let mut k: usize = 0;
    let total = source.len();
    while source.len() > 0
        invariant
            total == orig.len(),
            k <= orig.len(),
            source@ == orig.skip(k as int),
            meta_views(list@) == meta_inserts(start, meta_views(orig).take(k as int)),
        decreases source@.len(),
    {
        let m = source.remove(0);
        proof {
            assert(m == orig[k as int]);
            let vs = meta_views(orig);
            assert(vs.take(k + 1).drop_last() =~= vs.take(k as int));
            assert(vs.take(k + 1).last() == m@);
        }
        insert_meta(list, m);
        k = k + 1;
        assert(source@ =~= orig.skip(k as int));
    }
    assert(meta_views(orig).take(k as int) =~= meta_views(orig));
}

/// The list after recording each metadata of `s` in turn into `list`.
pub open spec fn meta_inserts(list: Seq<MetaView>, s: Seq<MetaView>) -> Seq<MetaView>
    decreases s.len(),
{
    if s.len() == 0 {
        list
    } else {
        meta_insert(meta_inserts(list, s.drop_last()), s.last())
    }
}

impl MetadataValidator {
    /// A validator holding the metadata in order; a later entry for an
    /// attribute replaces an earlier one in place.
    pub fn new(metadata: Vec<AttributeMetadata>) -> (r: MetadataValidator)
        ensures
            r@ == meta_inserts(Seq::empty(), meta_views(metadata@)),
            ids_unique(r@),
    {
        let mut list: Vec<AttributeMetadata> = Vec::new();
        assert(meta_views(list@) =~= Seq::<MetaView>::empty());
        insert_all(&mut list, metadata);
        proof {
            lemma_inserts_keep_ids_unique(Seq::empty(), meta_views(metadata@));
        }
        MetadataValidator { metadata: list }
    }

    /// Records metadata, replacing that of the same attribute.
    pub fn add_metadata(&mut self, metadata: AttributeMetadata)
        ensures
            final(self)@ == meta_insert(old(self)@, metadata@),
            ids_unique(final(self)@),
    {
        proof {
            use_type_invariant(&*self);
            lemma_insert_keeps_ids_unique(self@, metadata@);
        }
        let mut list: Vec<AttributeMetadata> = Vec::new();
        std::mem::swap(&mut list, &mut self.metadata);
        insert_meta(&mut list, metadata);
        self.metadata = list;
    }

    /// The metadata of the attribute, if recorded.
    pub fn get_metadata(&self, attribute_id: u8) -> (r: Option<&AttributeMetadata>)
        ensures
            match r {
                Some(m) => meta_lookup(self@, attribute_id) == Some(m@),
                None => meta_lookup(self@, attribute_id) is None,
            },
    {
        match position_of_meta(&self.metadata, attribute_id) {
            Some(i) => Some(&self.metadata[i]),
            None => None,
        }
    }
}

/// What validating `value` for `attribute_id` against the metadata gives:
/// `AccessDenied` for an attribute without metadata, `InvalidData` for a
/// value the metadata does not admit.
pub open spec fn validation_result(list: Seq<MetaView>, attribute_id: u8, value: DataObject, r: DlmsResult<()>) -> bool {
    match meta_lookup(list, attribute_id) {
        None => denied(r),
        Some(m) => (r is Ok <==> admitted(m, value)) && (r is Err ==> invalid(r)),
    }
}

impl AttributeValidator for MetadataValidator {
    /// Validation against the recorded metadata.
    open spec fn spec_validates(&self, attribute_id: u8, value: DataObject, r: DlmsResult<()>) -> bool {
        validation_result(self@, attribute_id, value, r)
    }

    fn validate(&self, attribute_id: u8, value: &DataObject) -> (r: DlmsResult<()>) {
        let meta = match self.get_metadata(attribute_id) {
            Some(m) => m,
            None => return Err(access_denied_number("Unknown attribute: ", attribute_id as u64)),
        };
        if let Some(allowed) = &meta.allowed_values {
            if !list_contains(allowed, value) {
                let text = debug_text(value).concat(text_around(" not in allowed list for attribute ", attribute_id as u64, "").as_str());
                return Err(invalid_data_text("Value ".to_owned().concat(text.as_str())));
            }
        }
        if let Some(min) = &meta.min_value {
            if !compare_values(value, min, true) {
                let text = debug_text(value).concat(" below minimum ").concat(debug_text(min).as_str()).concat(
                    text_around(" for attribute ", attribute_id as u64, ": ").as_str(),
                ).concat(limit_failure_message(value, min, true).as_str());
                return Err(invalid_data_text("Value ".to_owned().concat(text.as_str())));
            }
        }
        if let Some(max) = &meta.max_value {
            if !compare_values(value, max, false) {
                let text = debug_text(value).concat(" above maximum ").concat(debug_text(max).as_str()).concat(
                    text_around(" for attribute ", attribute_id as u64, ": ").as_str(),
                ).concat(limit_failure_message(value, max, false).as_str());
                return Err(invalid_data_text("Value ".to_owned().concat(text.as_str())));
            }
        }
        Ok(())
    }
}

/// Access to an object's attribute metadata, with checks derived from it.
pub trait AttributeAccessor {
    /// The metadata the object keeps for the attribute, if any.
    spec fn spec_attribute_metadata(&self, attribute_id: u8) -> Option<MetaView>;

    /// A copy of the attribute's metadata, if the object keeps any.
    fn get_attribute_metadata(&self, attribute_id: u8) -> (r: Option<AttributeMetadata>)
        ensures
            match r {
                Some(m) => self.spec_attribute_metadata(attribute_id) matches Some(x) && meta_equal(m@, x),
                None => self.spec_attribute_metadata(attribute_id) is None,
            };

    fn get_all_metadata(&self) -> Vec<AttributeMetadata>;

    /// The attribute has metadata that allows reading.
    fn can_read_attribute(&self, attribute_id: u8) -> (r: bool)
        ensures
            r == match self.spec_attribute_metadata(attribute_id) {
                Some(m) => m.access.spec_can_read(),
                None => false,
            },
    {
        match self.get_attribute_metadata(attribute_id) {
            Some(m) => m.access.can_read(),
            None => false,
        }
    }

    /// The attribute has metadata that allows writing.
    fn can_write_attribute(&self, attribute_id: u8) -> (r: bool)
        ensures
            r == match self.spec_attribute_metadata(attribute_id) {
                Some(m) => m.access.spec_can_write(),
                None => false,
            },
    {
        match self.get_attribute_metadata(attribute_id) {
            Some(m) => m.access.can_write(),
            None => false,
        }
    }

    /// Checks a value for the attribute; by default every value passes.
    fn validate_attribute_value(&self, attribute_id: u8, value: &DataObject) -> (r: DlmsResult<()>)
        default_ensures
            r is Ok,
    {
        Ok(())
    }
}

/// The state of an [`AttributeRegistry`].
pub struct RegistryView<V> {
    pub metadata: Seq<MetaView>,
    pub validator: Option<V>,
}

/// The metadata of an object's attributes, one entry per attribute in the
/// order of first registration, and an optional validator of any kind
/// (by default a [`MetadataValidator`]).
pub struct AttributeRegistry<V: AttributeValidator = MetadataValidator> {
    metadata: Vec<AttributeMetadata>,
    validator: Option<V>,
}

impl<V: AttributeValidator> AttributeRegistry<V> {
    /// The registry keeps one entry per attribute.
    #[verifier::type_invariant]
    spec fn entries_unique(self) -> bool {
        ids_unique(meta_views(self.metadata@))
    }
}

impl<V: AttributeValidator> View for AttributeRegistry<V> {
    type V = RegistryView<V>;

    closed spec fn view(&self) -> RegistryView<V> {
        RegistryView { metadata: meta_views(self.metadata@), validator: self.validator }
    }
}

impl Default for AttributeRegistry {
    /// An empty registry without validator.
    fn default() -> (r: AttributeRegistry)
        ensures
            r@ == (RegistryView::<MetadataValidator> { metadata: Seq::empty(), validator: None }),
    {
        AttributeRegistry::new()
    }
}

/// The attribute has metadata whose access satisfies `allows`.
pub open spec fn registry_allows(list: Seq<MetaView>, attribute_id: u8, read: bool) -> bool {
    match meta_lookup(list, attribute_id) {
        Some(m) => if read { m.access.spec_can_read() } else { m.access.spec_can_write() },
        None => false,
    }
}

/// The metadata is mandatory.
pub open spec fn is_mandatory() -> spec_fn(MetaView) -> bool {
    |m: MetaView| m.mandatory
}

/// The metadata is selectable.
pub open spec fn is_selectable() -> spec_fn(MetaView) -> bool {
    |m: MetaView| m.selectable
}

/// The states behind a list of references.
pub open spec fn ref_views(s: Seq<&AttributeMetadata>) -> Seq<MetaView> {
    s.map_values(|m: &AttributeMetadata| m@)
}

/// References to the metadata that `keep` accepts, in order.
fn select_metadata(list: &Vec<AttributeMetadata>, mandatory: bool) -> (r: Vec<&AttributeMetadata>)
    ensures
        ref_views(r@) == retained(meta_views(list@), if mandatory { is_mandatory() } else { is_selectable() }),
{
    let ghost views = meta_views(list@);
    let ghost keep = if mandatory { is_mandatory() } else { is_selectable() };
    let mut out: Vec<&AttributeMetadata> = Vec::new();
    let mut i: usize = 0;
    while i < list.len()
        invariant
            i <= list@.len(),
            views == meta_views(list@),
            keep == (if mandatory { is_mandatory() } else { is_selectable() }),
            ref_views(out@) == retained(views.take(i as int), keep),
        decreases list@.len() - i,
    {
        proof {
            lemma_retained_step(views, keep, i as int);
        }
        let m = &list[i];
        let chosen = if mandatory { m.mandatory } else { m.selectable };
        if chosen {
            let ghost before = out@;
            out.push(m);
            assert(ref_views(out@) =~= ref_views(before).push(views[i as int]));
        }
        i = i + 1;
    }
    assert(views.take(list@.len() as int) =~= views);
    out
}

impl AttributeRegistry {
    /// An empty registry for a [`MetadataValidator`].
    pub fn new() -> (r: AttributeRegistry)
        ensures
            r@ == (RegistryView::<MetadataValidator> { metadata: Seq::empty(), validator: None }),
    {
        AttributeRegistry::empty()
    }
}

impl<V: AttributeValidator> AttributeRegistry<V> {
    /// An empty registry for a validator of type `V`.
    pub fn empty() -> (r: AttributeRegistry<V>)
        ensures
            r@ == (RegistryView::<V> { metadata: Seq::empty(), validator: None }),
    {
        let r = AttributeRegistry { metadata: Vec::new(), validator: None };
        assert(r@.metadata =~= Seq::<MetaView>::empty());
        r
    }

    /// Records metadata, replacing that of the same attribute in place.
    pub fn register(&mut self, metadata: AttributeMetadata)
        ensures
            final(self)@ == (RegistryView { metadata: meta_insert(old(self)@.metadata, metadata@), ..old(self)@ }),
            ids_unique(final(self)@.metadata),
    {
        proof {
            use_type_invariant(&*self);
            lemma_insert_keeps_ids_unique(self@.metadata, metadata@);
        }
        let mut list: Vec<AttributeMetadata> = Vec::new();
        std::mem::swap(&mut list, &mut self.metadata);
        insert_meta(&mut list, metadata);
        self.metadata = list;
    }

    /// Records each metadata in turn.
    pub fn register_all(&mut self, metadata: Vec<AttributeMetadata>)
        ensures
            final(self)@ == (RegistryView {
                metadata: meta_inserts(old(self)@.metadata, meta_views(metadata@)),
                ..old(self)@
            }),
            ids_unique(final(self)@.metadata),
    {
        proof {
            use_type_invariant(&*self);
            lemma_inserts_keep_ids_unique(self@.metadata, meta_views(metadata@));
        }
        let mut list: Vec<AttributeMetadata> = Vec::new();
        std::mem::swap(&mut list, &mut self.metadata);
        insert_all(&mut list, metadata);
        self.metadata = list;
    }

    /// Installs the validator used by [`AttributeRegistry::validate`].
    pub fn set_validator(&mut self, validator: V)
        ensures
            final(self)@ == (RegistryView { validator: Some(validator), ..old(self)@ }),
    {
        proof {
            use_type_invariant(&*self);
        }
        self.validator = Some(validator);
    }

    /// The metadata of the attribute, if registered.
    pub fn get(&self, attribute_id: u8) -> (r: Option<&AttributeMetadata>)
        ensures
            match r {
                Some(m) => meta_lookup(self@.metadata, attribute_id) == Some(m@),
                None => meta_lookup(self@.metadata, attribute_id) is None,
            },
    {
        match position_of_meta(&self.metadata, attribute_id) {
            Some(i) => Some(&self.metadata[i]),
            None => None,
        }
    }

    /// Copies of all the metadata, in order.
    pub fn get_all(&self) -> (r: Vec<AttributeMetadata>)
        ensures
            r@.len() == self@.metadata.len(),
            forall|i: int| 0 <= i < r@.len() ==> meta_equal(#[trigger] r@[i]@, self@.metadata[i]),
    {
        let mut out: Vec<AttributeMetadata> = Vec::new();
        let mut i: usize = 0;
        while i < self.metadata.len()
            invariant
                i <= self.metadata@.len(),
                out@.len() == i,
                forall|j: int| 0 <= j < i ==> meta_equal(#[trigger] out@[j]@, self.metadata@[j]@),
            decreases self.metadata@.len() - i,
        {
            out.push(self.metadata[i].deep_copy());
            i = i + 1;
        }
        out
    }

    /// The attribute is registered with an access that allows reading.
    pub fn can_read(&self, attribute_id: u8) -> (r: bool)
        ensures
            r == registry_allows(self@.metadata, attribute_id, true),
    {
        match self.get(attribute_id) {
            Some(m) => m.access.can_read(),
            None => false,
        }
    }

    /// The attribute is registered with an access that allows writing.
    pub fn can_write(&self, attribute_id: u8) -> (r: bool)
        ensures
            r == registry_allows(self@.metadata, attribute_id, false),
    {
        match self.get(attribute_id) {
            Some(m) => m.access.can_write(),
            None => false,
        }
    }

    /// Checks the value with the validator; every value passes without one.
    pub fn validate(&self, attribute_id: u8, value: &DataObject) -> (r: DlmsResult<()>)
        ensures
            match self@.validator {
                None => r is Ok,
                Some(v) => v.spec_validates(attribute_id, *value, r),
            },
    {
        match &self.validator {
            Some(v) => v.validate(attribute_id, value),
            None => Ok(()),
        }
    }

    /// The mandatory attributes' metadata, in order.
    pub fn get_mandatory(&self) -> (r: Vec<&AttributeMetadata>)
        ensures
            ref_views(r@) == retained(self@.metadata, is_mandatory()),
    {
        select_metadata(&self.metadata, true)
    }

    /// The selectable attributes' metadata, in order.
    pub fn get_selectable(&self) -> (r: Vec<&AttributeMetadata>)
        ensures
            ref_views(r@) == retained(self@.metadata, is_selectable()),
    {
        select_metadata(&self.metadata, false)
    }
}

impl<V: AttributeValidator> AttributeAccessor for AttributeRegistry<V> {
    /// The registered metadata of the attribute.
    open spec fn spec_attribute_metadata(&self, attribute_id: u8) -> Option<MetaView> {
        meta_lookup(self@.metadata, attribute_id)
    }

    fn get_attribute_metadata(&self, attribute_id: u8) -> (r: Option<AttributeMetadata>) {
        match self.get(attribute_id) {
            Some(m) => Some(m.deep_copy()),
            None => None,
        }
    }

    fn get_all_metadata(&self) -> (r: Vec<AttributeMetadata>)
        ensures
            r@.len() == self@.metadata.len(),
            forall|i: int| 0 <= i < r@.len() ==> meta_equal(#[trigger] r@[i]@, self@.metadata[i]),
    {
        self.get_all()
    }

    fn validate_attribute_value(&self, attribute_id: u8, value: &DataObject) -> (r: DlmsResult<()>)
        ensures
            match self@.validator {
                None => r is Ok,
                Some(v) => v.spec_validates(attribute_id, *value, r),
            },
    {
        self.validate(attribute_id, value)
    }
}

/// An object that keeps an attribute registry, with checks taken from it.
pub trait WithAttributes {
    /// The kind of validator the registry holds.
    type Validator: AttributeValidator;

    /// The state of the registry the object keeps.
    spec fn spec_registry(&self) -> RegistryView<Self::Validator>;

    /// The registry the object keeps.
    fn attributes(&self) -> (r: &AttributeRegistry<Self::Validator>)
        ensures
            r@ == self.spec_registry();

    /// The registry allows reading the attribute.
    fn can_read_attribute(&self, attribute_id: u8) -> (r: bool)
        ensures
            r == registry_allows(self.spec_registry().metadata, attribute_id, true),
    {
        self.attributes().can_read(attribute_id)
    }

    /// The registry allows writing the attribute.
    fn can_write_attribute(&self, attribute_id: u8) -> (r: bool)
        ensures
            r == registry_allows(self.spec_registry().metadata, attribute_id, false),
    {
        self.attributes().can_write(attribute_id)
    }

    /// The registry's validator admits the value; every value passes
    /// without a validator.
    fn validate_attribute(&self, attribute_id: u8, value: &DataObject) -> (r: DlmsResult<()>)
        ensures
            match self.spec_registry().validator {
                None => r is Ok,
                Some(v) => v.spec_validates(attribute_id, *value, r),
            },
    {
        self.attributes().validate(attribute_id, value)
    }

    /// A copy of the attribute's metadata, if registered.
    fn get_attribute_info(&self, attribute_id: u8) -> (r: Option<AttributeMetadata>)
        ensures
            match r {
                Some(m) => meta_lookup(self.spec_registry().metadata, attribute_id) matches Some(x) && meta_equal(m@, x),
                None => meta_lookup(self.spec_registry().metadata, attribute_id) is None,
            },
    {
        match self.attributes().get(attribute_id) {
            Some(m) => Some(m.deep_copy()),
            None => None,
        }
    }
}

/// After recording metadata, looking its attribute up gives exactly it, and
/// the other attributes keep theirs.
pub proof fn lemma_lookup_after_insert(list: Seq<MetaView>, m: MetaView, other: u8)
    requires
        other != m.id,
    ensures
        meta_lookup(meta_insert(list, m), m.id) == Some(m),
        meta_lookup(meta_insert(list, m), other) == meta_lookup(list, other),
{
    lemma_first_index_props(list, meta_for(m.id));
    lemma_first_index_props(list, meta_for(other));
    let after = meta_insert(list, m);
    match first_index(list, meta_for(m.id)) {
        Some(i) => {
            assert forall|j: int| 0 <= j < i implies !meta_for(m.id)(#[trigger] after[j]) by {
                assert(after[j] == list[j]);
            }
            lemma_first_index_at(after, meta_for(m.id), i);
            match first_index(list, meta_for(other)) {
                Some(k) => {
                    assert(k != i);
                    assert forall|j: int| 0 <= j < k implies !meta_for(other)(#[trigger] after[j]) by {
                        if j != i {
                            assert(after[j] == list[j]);
                        }
                    }
                    assert(after[k] == list[k]);
                    lemma_first_index_at(after, meta_for(other), k);
                },
                None => {
                    assert forall|j: int| 0 <= j < after.len() implies !meta_for(other)(#[trigger] after[j]) by {
                        if j != i {
                            assert(after[j] == list[j]);
                        }
                    }
                    lemma_first_index_none(after, meta_for(other));
                },
            }
        },
        None => {
            assert forall|j: int| 0 <= j < list.len() implies !meta_for(m.id)(#[trigger] after[j]) by {
                assert(after[j] == list[j]);
            }
            lemma_first_index_at(after, meta_for(m.id), list.len() as int);
            match first_index(list, meta_for(other)) {
                Some(k) => {
                    assert forall|j: int| 0 <= j < k implies !meta_for(other)(#[trigger] after[j]) by {
                        assert(after[j] == list[j]);
                    }
                    assert(after[k] == list[k]);
                    lemma_first_index_at(after, meta_for(other), k);
                },
                None => {
                    assert forall|j: int| 0 <= j < after.len() implies !meta_for(other)(#[trigger] after[j]) by {
                        if j < list.len() {
                            assert(after[j] == list[j]);
                        }
                    }
                    lemma_first_index_none(after, meta_for(other));
                },
            }
        },
    }
}


/// Limits compare numbers of the same kind by their value, for every
/// numeric kind: a value passes a minimum exactly when it is not below it,
/// and a maximum exactly when it is not above it.
pub proof fn lemma_limits_compare_numbers()
    ensures
        forall|v: u8, l: u8| #[trigger] within_limit(DataObject::Unsigned8(v), DataObject::Unsigned8(l), true) <==> l <= v,
        forall|v: u8, l: u8| #[trigger] within_limit(DataObject::Unsigned8(v), DataObject::Unsigned8(l), false) <==> v <= l,
        forall|v: u16, l: u16| #[trigger] within_limit(DataObject::Unsigned16(v), DataObject::Unsigned16(l), true) <==> l <= v,
        forall|v: u16, l: u16| #[trigger] within_limit(DataObject::Unsigned16(v), DataObject::Unsigned16(l), false) <==> v <= l,
        forall|v: u32, l: u32| #[trigger] within_limit(DataObject::Unsigned32(v), DataObject::Unsigned32(l), true) <==> l <= v,
        forall|v: u32, l: u32| #[trigger] within_limit(DataObject::Unsigned32(v), DataObject::Unsigned32(l), false) <==> v <= l,
        forall|v: u64, l: u64| #[trigger] within_limit(DataObject::Unsigned64(v), DataObject::Unsigned64(l), true) <==> l <= v,
        forall|v: u64, l: u64| #[trigger] within_limit(DataObject::Unsigned64(v), DataObject::Unsigned64(l), false) <==> v <= l,
        forall|v: i8, l: i8| #[trigger] within_limit(DataObject::Integer8(v), DataObject::Integer8(l), true) <==> l <= v,
        forall|v: i8, l: i8| #[trigger] within_limit(DataObject::Integer8(v), DataObject::Integer8(l), false) <==> v <= l,
        forall|v: i16, l: i16| #[trigger] within_limit(DataObject::Integer16(v), DataObject::Integer16(l), true) <==> l <= v,
        forall|v: i16, l: i16| #[trigger] within_limit(DataObject::Integer16(v), DataObject::Integer16(l), false) <==> v <= l,
        forall|v: i32, l: i32| #[trigger] within_limit(DataObject::Integer32(v), DataObject::Integer32(l), true) <==> l <= v,
        forall|v: i32, l: i32| #[trigger] within_limit(DataObject::Integer32(v), DataObject::Integer32(l), false) <==> v <= l,
        forall|v: i64, l: i64| #[trigger] within_limit(DataObject::Integer64(v), DataObject::Integer64(l), true) <==> l <= v,
        forall|v: i64, l: i64| #[trigger] within_limit(DataObject::Integer64(v), DataObject::Integer64(l), false) <==> v <= l,
{
}

/// A value admitted by metadata lies within its minimum and maximum
/// whenever the limit is a number of the value's own kind; a value of such
/// a kind that is within both limits, with no list of allowed values, is
/// admitted.
pub proof fn lemma_admitted_within_limits(m: MetaView, value: DataObject)
    ensures
        admitted(m, value) ==> match m.min_value {
            Some(x) => match limit_pair(value, x) {
                Some((v, l)) => l <= v,
                None => true,
            },
            None => true,
        },
        admitted(m, value) ==> match m.max_value {
            Some(x) => match limit_pair(value, x) {
                Some((v, l)) => v <= l,
                None => true,
            },
            None => true,
        },
        (m.allowed_values is None && match m.min_value {
            Some(x) => match limit_pair(value, x) {
                Some((v, l)) => l <= v,
                None => false,
            },
            None => true,
        } && match m.max_value {
            Some(x) => match limit_pair(value, x) {
                Some((v, l)) => v <= l,
                None => false,
            },
            None => true,
        }) ==> admitted(m, value),
{
}

} // verus!
