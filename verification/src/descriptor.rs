//! Descriptors of COSEM objects, attributes and methods, access modes and
//! rights, users, capture objects and sort methods, with their byte
//! encodings.
use vstd::prelude::*;
use crate::ber::{
    ber_tlv, ber_uint, integer_low16, lemma_read_tlv_of_encoding, lemma_uint_content_reads_back,
    push_tlv, read_tlv, read_tlv_at, uint_content,
};
use crate::cosem_object::invalid;
use crate::data_object::{copy_opt_bytes, copy_vec, opt_bytes};
use crate::datetime::{be_to_u16, be_u16, hi_byte, lo_byte, u16_to_be};
use crate::error::{invalid_data, invalid_data_number, DlmsResult};
use crate::obis::ObisCode;
use crate::text::{copy_opt_string, opt_chars};

verus! {

/// Access mode of an attribute or method.
#[derive(Debug, Clone, Copy, PartialEq, Eq, Structural)]
pub enum AccessMode {
    NoAccess,
    ReadOnly,
    WriteOnly,
    ReadWrite,
    AuthReadOnly,
    AuthWriteOnly,
    AuthReadWrite,
}

impl AccessMode {
    pub open spec fn spec_value(self) -> u8 {
        match self {
            AccessMode::NoAccess => 0,
            AccessMode::ReadOnly => 1,
            AccessMode::WriteOnly => 2,
            AccessMode::ReadWrite => 3,
            AccessMode::AuthReadOnly => 4,
            AccessMode::AuthWriteOnly => 5,
            AccessMode::AuthReadWrite => 6,
        }
    }

    /// The mode of a code 0..=6.
    pub open spec fn spec_from_value(value: u8) -> Option<AccessMode> {
        match value {
            0 => Some(AccessMode::NoAccess),
            1 => Some(AccessMode::ReadOnly),
            2 => Some(AccessMode::WriteOnly),
            3 => Some(AccessMode::ReadWrite),
            4 => Some(AccessMode::AuthReadOnly),
            5 => Some(AccessMode::AuthWriteOnly),
            6 => Some(AccessMode::AuthReadWrite),
            _ => None,
        }
    }

    pub open spec fn spec_can_read(self) -> bool {
        self == AccessMode::ReadOnly || self == AccessMode::ReadWrite || self
            == AccessMode::AuthReadOnly || self == AccessMode::AuthReadWrite
    }

    pub open spec fn spec_can_write(self) -> bool {
        self == AccessMode::WriteOnly || self == AccessMode::ReadWrite || self
            == AccessMode::AuthWriteOnly || self == AccessMode::AuthReadWrite
    }

    pub open spec fn spec_requires_auth(self) -> bool {
        self == AccessMode::AuthReadOnly || self == AccessMode::AuthWriteOnly || self
            == AccessMode::AuthReadWrite
    }

    /// The mode of a code; fails on a code above 6.
    pub fn from_value(value: u8) -> (r: DlmsResult<AccessMode>)
        ensures
            r is Ok <==> AccessMode::spec_from_value(value) is Some,
            r matches Ok(m) ==> AccessMode::spec_from_value(value) == Some(m),
            r is Err ==> invalid(r),
    {
        match value {
            0 => Ok(AccessMode::NoAccess),
            1 => Ok(AccessMode::ReadOnly),
            2 => Ok(AccessMode::WriteOnly),
            3 => Ok(AccessMode::ReadWrite),
            4 => Ok(AccessMode::AuthReadOnly),
            5 => Ok(AccessMode::AuthWriteOnly),
            6 => Ok(AccessMode::AuthReadWrite),
            _ => Err(invalid_data_number("Invalid access mode: ", value as u64)),
        }
    }

    /// The code of the mode.
    pub fn value(&self) -> (r: u8)
        ensures
            r == self.spec_value(),
    {
        match self {
            AccessMode::NoAccess => 0,
            AccessMode::ReadOnly => 1,
            AccessMode::WriteOnly => 2,
            AccessMode::ReadWrite => 3,
            AccessMode::AuthReadOnly => 4,
            AccessMode::AuthWriteOnly => 5,
            AccessMode::AuthReadWrite => 6,
        }
    }

    /// Reading is allowed: read-only or read-write, with or without
    /// authentication.
    pub fn can_read(&self) -> (r: bool)
        ensures
            r == self.spec_can_read(),
    {
        matches!(
            self,
            AccessMode::ReadOnly | AccessMode::ReadWrite | AccessMode::AuthReadOnly
                | AccessMode::AuthReadWrite
        )
    }

    /// Writing is allowed: write-only or read-write, with or without
    /// authentication.
    pub fn can_write(&self) -> (r: bool)
        ensures
            r == self.spec_can_write(),
    {
        matches!(
            self,
            AccessMode::WriteOnly | AccessMode::ReadWrite | AccessMode::AuthWriteOnly
                | AccessMode::AuthReadWrite
        )
    }

    /// One of the three authenticated modes.
    pub fn requires_auth(&self) -> (r: bool)
        ensures
            r == self.spec_requires_auth(),
    {
        matches!(
            self,
            AccessMode::AuthReadOnly | AccessMode::AuthWriteOnly | AccessMode::AuthReadWrite
        )
    }
}

/// Every mode survives the trip through its code, and the codes are exactly
/// 0..=6.
pub proof fn lemma_access_mode_codes(m: AccessMode, value: u8)
    ensures
        AccessMode::spec_from_value(m.spec_value()) == Some(m),
        AccessMode::spec_from_value(value) is Some <==> value <= 6,
        AccessMode::spec_from_value(value) matches Some(x) ==> x.spec_value() == value,
{
}

/// Sort method of a profile buffer.
#[derive(Debug, Clone, Copy, PartialEq, Eq, Structural)]
pub enum SortMethod {
    NotSorted,
    Fifo,
    ByCaptureObject,
}

impl SortMethod {
    pub open spec fn spec_value(self) -> u8 {
        match self {
            SortMethod::NotSorted => 0,
            SortMethod::Fifo => 1,
            SortMethod::ByCaptureObject => 2,
        }
    }

    pub open spec fn spec_from_value(value: u8) -> Option<SortMethod> {
        match value {
            0 => Some(SortMethod::NotSorted),
            1 => Some(SortMethod::Fifo),
            2 => Some(SortMethod::ByCaptureObject),
            _ => None,
        }
    }

    /// The sort method of a code; fails on a code above 2.
    pub fn from_value(value: u8) -> (r: DlmsResult<SortMethod>)
        ensures
            r is Ok <==> SortMethod::spec_from_value(value) is Some,
            r matches Ok(m) ==> SortMethod::spec_from_value(value) == Some(m),
            r is Err ==> invalid(r),
    {
        match value {
            0 => Ok(SortMethod::NotSorted),
            1 => Ok(SortMethod::Fifo),
            2 => Ok(SortMethod::ByCaptureObject),
            _ => Err(invalid_data_number("Invalid sort method: ", value as u64)),
        }
    }

    pub fn value(&self) -> (r: u8)
        ensures
            r == self.spec_value(),
    {
        match self {
            SortMethod::NotSorted => 0,
            SortMethod::Fifo => 1,
            SortMethod::ByCaptureObject => 2,
        }
    }
}

/// Every sort method survives the trip through its code.
pub proof fn lemma_sort_method_codes(m: SortMethod)
    ensures
        SortMethod::spec_from_value(m.spec_value()) == Some(m),
{
}

/// The OBIS code held by the first six bytes.
pub open spec fn obis_of(b: Seq<u8>) -> ObisCode {
    ObisCode { a: b[0], b: b[1], c: b[2], d: b[3], e: b[4], f: b[5] }
}

/// Conversion of raw bytes to an OBIS code.
pub trait ObisCodeExt: Sized {
    fn from_bytes(bytes: &[u8]) -> DlmsResult<Self>;
}

impl ObisCodeExt for ObisCode {
    /// The code held by the first six bytes; fails on fewer.
    fn from_bytes(bytes: &[u8]) -> (r: DlmsResult<ObisCode>)
        ensures
            r is Ok <==> bytes@.len() >= 6,
            r matches Ok(o) ==> o == obis_of(bytes@),
            r is Err ==> invalid(r),
    {
        if bytes.len() < 6 {
            return Err(invalid_data("Insufficient bytes for ObisCode"));
        }
        Ok(ObisCode::new(bytes[0], bytes[1], bytes[2], bytes[3], bytes[4], bytes[5]))
    }
}

/// Reading the bytes of a code gives the code back.
pub proof fn lemma_obis_bytes_roundtrip(o: ObisCode)
    ensures
        obis_of(o.spec_bytes()) == o,
{
}

/// Nine bytes: the class id big-endian, the six bytes of the logical name
/// and one more byte.
pub open spec fn nine_byte_encoding(class_id: u16, logical_name: ObisCode, last: u8) -> Seq<u8> {
    seq![hi_byte(class_id), lo_byte(class_id)] + logical_name.spec_bytes() + seq![last]
}

fn push_class_and_name(out: &mut Vec<u8>, class_id: u16, logical_name: ObisCode)
    ensures
        final(out)@ == old(out)@ + seq![hi_byte(class_id), lo_byte(class_id)] + logical_name.spec_bytes(),
{
    let (hi, lo) = u16_to_be(class_id);
    out.push(hi);
    out.push(lo);
    out.push(logical_name.a);
    out.push(logical_name.b);
    out.push(logical_name.c);
    out.push(logical_name.d);
    out.push(logical_name.e);
    out.push(logical_name.f);
    assert(final(out)@ =~= old(out)@ + seq![hi_byte(class_id), lo_byte(class_id)] + logical_name.spec_bytes()) by {
        assert(out@ =~= old(out)@ + seq![hi_byte(class_id), lo_byte(class_id)] + logical_name.spec_bytes());
    }
}

/// The class id big-endian in the first two bytes and the code in the next six.
pub open spec fn class_of(b: Seq<u8>) -> u16 {
    be_u16(b[0], b[1])
}

/// The OBIS code in bytes 2..8.
pub open spec fn name_of(b: Seq<u8>) -> ObisCode {
    obis_of(b.subrange(2, 8))
}

fn read_class_and_name(data: &[u8]) -> (r: (u16, ObisCode))
    requires
        data@.len() >= 8,
    ensures
        r.0 == class_of(data@),
        r.1 == name_of(data@),
{
    let class_id = be_to_u16(data[0], data[1]);
    let logical_name = ObisCode::new(data[2], data[3], data[4], data[5], data[6], data[7]);
    (class_id, logical_name)
}

/// Reading the first eight bytes of an encoding gives the class id and name.
proof fn lemma_class_and_name(class_id: u16, logical_name: ObisCode, tail: Seq<u8>)
    ensures
        class_of(seq![hi_byte(class_id), lo_byte(class_id)] + logical_name.spec_bytes() + tail) == class_id,
        name_of(seq![hi_byte(class_id), lo_byte(class_id)] + logical_name.spec_bytes() + tail) == logical_name,
{
    let b = seq![hi_byte(class_id), lo_byte(class_id)] + logical_name.spec_bytes() + tail;
    assert(be_u16(hi_byte(class_id), lo_byte(class_id)) == class_id);
    assert(b.subrange(2, 8) =~= logical_name.spec_bytes());
}

/// An attribute of a COSEM object.
#[derive(Debug, Clone, Copy, PartialEq, Eq, Structural)]
pub struct AttributeDescriptor {
    pub class_id: u16,
    pub logical_name: ObisCode,
    pub attribute_id: u8,
}

impl AttributeDescriptor {
    pub fn new(class_id: u16, logical_name: ObisCode, attribute_id: u8) -> (r: AttributeDescriptor)
        ensures
            r == (AttributeDescriptor { class_id, logical_name, attribute_id }),
    {
        AttributeDescriptor { class_id, logical_name, attribute_id }
    }

    pub open spec fn spec_encode(self) -> Seq<u8> {
        nine_byte_encoding(self.class_id, self.logical_name, self.attribute_id)
    }

    /// The nine-byte encoding; never fails.
    pub fn encode(&self) -> (r: DlmsResult<Vec<u8>>)
        ensures
            r matches Ok(v) && v@ == self.spec_encode(),
    {
        let mut out: Vec<u8> = Vec::new();
        push_class_and_name(&mut out, self.class_id, self.logical_name);
        out.push(self.attribute_id);
        assert(out@ =~= self.spec_encode());
        Ok(out)
    }

    /// Reads a descriptor from the first nine bytes; fails on fewer.
    pub fn decode(data: &[u8]) -> (r: DlmsResult<AttributeDescriptor>)
        ensures
            r is Ok <==> data@.len() >= 9,
            r matches Ok(d) ==> d == (AttributeDescriptor {
                class_id: class_of(data@),
                logical_name: name_of(data@),
                attribute_id: data@[8],
            }),
            r is Err ==> invalid(r),
    {
        if data.len() < 9 {
            return Err(invalid_data("Insufficient data for AttributeDescriptor"));
        }
        let (class_id, logical_name) = read_class_and_name(data);
        Ok(AttributeDescriptor { class_id, logical_name, attribute_id: data[8] })
    }
}

/// A method of a COSEM object.
#[derive(Debug, Clone, Copy, PartialEq, Eq, Structural)]
pub struct MethodDescriptor {
    pub class_id: u16,
    pub logical_name: ObisCode,
    pub method_id: u8,
}

impl MethodDescriptor {
    pub fn new(class_id: u16, logical_name: ObisCode, method_id: u8) -> (r: MethodDescriptor)
        ensures
            r == (MethodDescriptor { class_id, logical_name, method_id }),
    {
        MethodDescriptor { class_id, logical_name, method_id }
    }

    pub open spec fn spec_encode(self) -> Seq<u8> {
        nine_byte_encoding(self.class_id, self.logical_name, self.method_id)
    }

    /// The nine-byte encoding; never fails.
    pub fn encode(&self) -> (r: DlmsResult<Vec<u8>>)
        ensures
            r matches Ok(v) && v@ == self.spec_encode(),
    {
        let mut out: Vec<u8> = Vec::new();
        push_class_and_name(&mut out, self.class_id, self.logical_name);
        out.push(self.method_id);
        assert(out@ =~= self.spec_encode());
        Ok(out)
    }

    /// Reads a descriptor from the first nine bytes; fails on fewer.
    pub fn decode(data: &[u8]) -> (r: DlmsResult<MethodDescriptor>)
        ensures
            r is Ok <==> data@.len() >= 9,
            r matches Ok(d) ==> d == (MethodDescriptor {
                class_id: class_of(data@),
                logical_name: name_of(data@),
                method_id: data@[8],
            }),
            r is Err ==> invalid(r),
    {
        if data.len() < 9 {
            return Err(invalid_data("Insufficient data for MethodDescriptor"));
        }
        let (class_id, logical_name) = read_class_and_name(data);
        Ok(MethodDescriptor { class_id, logical_name, method_id: data[8] })
    }
}

/// An object, attribute and optional element captured by a profile.
#[derive(Debug, Clone, Copy, PartialEq, Eq, Structural)]
pub struct CaptureObjectDefinition {
    pub class_id: u16,
    pub logical_name: ObisCode,
    pub attribute_index: u8,
    pub data_index: Option<u8>,
}

impl CaptureObjectDefinition {
    pub fn new(class_id: u16, logical_name: ObisCode, attribute_index: u8) -> (r: CaptureObjectDefinition)
        ensures
            r == (CaptureObjectDefinition { class_id, logical_name, attribute_index, data_index: None }),
    {
        CaptureObjectDefinition { class_id, logical_name, attribute_index, data_index: None }
    }

    pub fn with_data_index(self, index: u8) -> (r: CaptureObjectDefinition)
        ensures
            r == (CaptureObjectDefinition { data_index: Some(index), ..self }),
    {
        CaptureObjectDefinition { data_index: Some(index), ..self }
    }

    /// Ten bytes: class id, logical name, attribute index, and the data index
    /// or 0xFF for none.
    pub open spec fn spec_encode(self) -> Seq<u8> {
        nine_byte_encoding(self.class_id, self.logical_name, self.attribute_index) + seq![
            match self.data_index {
                Some(i) => i,
                None => 0xFFu8,
            },
        ]
    }

    /// The ten-byte encoding; never fails.
    pub fn encode(&self) -> (r: DlmsResult<Vec<u8>>)
        ensures
            r matches Ok(v) && v@ == self.spec_encode(),
    {
        let mut out: Vec<u8> = Vec::new();
        push_class_and_name(&mut out, self.class_id, self.logical_name);
        out.push(self.attribute_index);
        let last: u8 = match self.data_index {
            Some(i) => i,
            None => 0xFF,
        };
        out.push(last);
        assert(out@ =~= self.spec_encode());
        Ok(out)
    }

    /// Reads a definition from the first ten bytes; a data index byte of
    /// 0xFF means none. Fails on fewer than ten bytes.
    pub fn decode(data: &[u8]) -> (r: DlmsResult<CaptureObjectDefinition>)
        ensures
            r is Ok <==> data@.len() >= 10,
            r matches Ok(d) ==> d == (CaptureObjectDefinition {
                class_id: class_of(data@),
                logical_name: name_of(data@),
                attribute_index: data@[8],
                data_index: if data@[9] == 0xFF { None } else { Some(data@[9]) },
            }),
            r is Err ==> invalid(r),
    {
        if data.len() < 10 {
            return Err(invalid_data("Insufficient data for CaptureObjectDefinition"));
        }
        let (class_id, logical_name) = read_class_and_name(data);
        let data_index = if data[9] == 0xFF {
            None
        } else {
            Some(data[9])
        };
        Ok(CaptureObjectDefinition { class_id, logical_name, attribute_index: data[8], data_index })
    }
}

/// Decoding the encoding of an attribute or method descriptor gives it back;
/// so does decoding that of a capture definition whose data index is not
/// 0xFF (an index of 0xFF is written as "none").
pub proof fn lemma_descriptor_encodings_roundtrip(
    a: AttributeDescriptor,
    m: MethodDescriptor,
    c: CaptureObjectDefinition,
)
    ensures
        a.spec_encode().len() == 9,
        class_of(a.spec_encode()) == a.class_id,
        name_of(a.spec_encode()) == a.logical_name,
        a.spec_encode()[8] == a.attribute_id,
        m.spec_encode().len() == 9,
        class_of(m.spec_encode()) == m.class_id,
        name_of(m.spec_encode()) == m.logical_name,
        m.spec_encode()[8] == m.method_id,
        c.spec_encode().len() == 10,
        class_of(c.spec_encode()) == c.class_id,
        name_of(c.spec_encode()) == c.logical_name,
        c.spec_encode()[8] == c.attribute_index,
        c.data_index != Some(0xFFu8) ==> (if c.spec_encode()[9] == 0xFF {
            None
        } else {
            Some(c.spec_encode()[9])
        }) == c.data_index,
{
    lemma_class_and_name(a.class_id, a.logical_name, seq![a.attribute_id]);
    lemma_class_and_name(m.class_id, m.logical_name, seq![m.method_id]);
    let last: u8 = match c.data_index {
        Some(i) => i,
        None => 0xFFu8,
    };
    assert(c.spec_encode() =~= seq![hi_byte(c.class_id), lo_byte(c.class_id)] + c.logical_name.spec_bytes() + seq![c.attribute_index, last]);
    lemma_class_and_name(c.class_id, c.logical_name, seq![c.attribute_index, last]);
}

/// The mode of the first entry for `id`, if any.
pub open spec fn first_mode(rights: Seq<(u8, AccessMode)>, id: u8) -> Option<AccessMode>
    decreases rights.len(),
{
    if rights.len() == 0 {
        None
    } else if rights[0].0 == id {
        Some(rights[0].1)
    } else {
        first_mode(rights.drop_first(), id)
    }
}

/// The mode of the first entry for `id`, if any.
pub fn find_mode(rights: &Vec<(u8, AccessMode)>, id: u8) -> (r: Option<AccessMode>)
    ensures
        r == first_mode(rights@, id),
{
    let mut i: usize = 0;
    assert(rights@.skip(0) =~= rights@);
    while i < rights.len()
        invariant
            i <= rights@.len(),
            first_mode(rights@, id) == first_mode(rights@.skip(i as int), id),
        decreases rights@.len() - i,
    {
        assert(rights@.skip(i as int).drop_first() =~= rights@.skip(i + 1));
        if rights[i].0 == id {
            return Some(rights[i].1);
        }
        i = i + 1;
    }
    None
}

/// What a right `held` grants to a request for `requested`: read-only asks
/// for reading, write-only for writing, read-write for both, and any other
/// request asks for exactly that mode.
pub open spec fn grants(held: AccessMode, requested: AccessMode) -> bool {
    match requested {
        AccessMode::ReadOnly => held.spec_can_read(),
        AccessMode::WriteOnly => held.spec_can_write(),
        AccessMode::ReadWrite => held.spec_can_read() && held.spec_can_write(),
        _ => held == requested,
    }
}

/// The access rights of one user.
#[derive(Debug, Clone, PartialEq, Eq)]
pub struct AccessRight {
    pub user_id: u8,
    pub attribute_rights: Vec<(u8, AccessMode)>,
    pub method_rights: Vec<(u8, AccessMode)>,
}

/// The state of an [`AccessRight`].
pub struct AccessRightView {
    pub user_id: u8,
    pub attribute_rights: Seq<(u8, AccessMode)>,
    pub method_rights: Seq<(u8, AccessMode)>,
}

impl View for AccessRight {
    type V = AccessRightView;

    open spec fn view(&self) -> AccessRightView {
        AccessRightView {
            user_id: self.user_id,
            attribute_rights: self.attribute_rights@,
            method_rights: self.method_rights@,
        }
    }
}

impl AccessRight {
    pub fn new(user_id: u8) -> (r: AccessRight)
        ensures
            r.user_id == user_id,
            r.attribute_rights@ == Seq::<(u8, AccessMode)>::empty(),
            r.method_rights@ == Seq::<(u8, AccessMode)>::empty(),
    {
        AccessRight { user_id, attribute_rights: Vec::new(), method_rights: Vec::new() }
    }

    /// Appends an attribute right; an earlier entry for the same attribute
    /// keeps deciding.
    pub fn add_attribute_right(&mut self, attribute_id: u8, mode: AccessMode)
        ensures
            final(self).user_id == old(self).user_id,
            final(self).attribute_rights@ == old(self).attribute_rights@.push((attribute_id, mode)),
            final(self).method_rights@ == old(self).method_rights@,
    {
        self.attribute_rights.push((attribute_id, mode));
    }

    /// Appends a method right.
    pub fn add_method_right(&mut self, method_id: u8, mode: AccessMode)
        ensures
            final(self).user_id == old(self).user_id,
            final(self).attribute_rights@ == old(self).attribute_rights@,
            final(self).method_rights@ == old(self).method_rights@.push((method_id, mode)),
    {
        self.method_rights.push((method_id, mode));
    }

    /// The first entry for the attribute decides, through [`grants`]; an
    /// attribute without an entry is refused.
    pub fn can_access_attribute(&self, attribute_id: u8, mode: AccessMode) -> (r: bool)
        ensures
            r == match first_mode(self.attribute_rights@, attribute_id) {
                Some(held) => grants(held, mode),
                None => false,
            },
    {
        match find_mode(&self.attribute_rights, attribute_id) {
            Some(held) => match mode {
                AccessMode::ReadOnly => held.can_read(),
                AccessMode::WriteOnly => held.can_write(),
                AccessMode::ReadWrite => held.can_read() && held.can_write(),
                _ => held == mode,
            },
            None => false,
        }
    }

    /// Some entry names the method, whatever its mode.
    pub fn can_access_method(&self, method_id: u8) -> (r: bool)
        ensures
            r == (exists|i: int| 0 <= i < self.method_rights@.len() && (#[trigger] self.method_rights@[i]).0 == method_id),
    {
        let mut i: usize = 0;
        while i < self.method_rights.len()
            invariant
                i <= self.method_rights@.len(),
                forall|j: int| 0 <= j < i ==> (#[trigger] self.method_rights@[j]).0 != method_id,
            decreases self.method_rights@.len() - i,
        {
            if self.method_rights[i].0 == method_id {
                return true;
            }
            i = i + 1;
        }
        false
    }

    /// A copy of the entry.
    pub fn copy(&self) -> (r: AccessRight)
        ensures
            r@ == self@,
    {
        AccessRight {
            user_id: self.user_id,
            attribute_rights: copy_vec(&self.attribute_rights),
            method_rights: copy_vec(&self.method_rights),
        }
    }
}

/// A user of an association: identifier 1..=16, optional name, key and
/// password.
#[derive(Debug, Clone, PartialEq, Eq)]
pub struct UserInfo {
    pub user_id: u8,
    pub user_name: Option<String>,
    pub auth_key: Option<Vec<u8>>,
    pub password: Option<Vec<u8>>,
}

/// The state of a [`UserInfo`].
pub struct UserInfoView {
    pub user_id: u8,
    pub user_name: Option<Seq<char>>,
    pub auth_key: Option<Seq<u8>>,
    pub password: Option<Seq<u8>>,
}

impl View for UserInfo {
    type V = UserInfoView;

    open spec fn view(&self) -> UserInfoView {
        UserInfoView {
            user_id: self.user_id,
            user_name: opt_chars(self.user_name),
            auth_key: opt_bytes(self.auth_key),
            password: opt_bytes(self.password),
        }
    }
}

impl UserInfo {
    pub fn new(user_id: u8) -> (r: UserInfo)
        ensures
            r@ == (UserInfoView { user_id, user_name: None, auth_key: None, password: None }),
    {
        UserInfo { user_id, user_name: None, auth_key: None, password: None }
    }

    pub fn with_name(self, name: String) -> (r: UserInfo)
        ensures
            r@ == (UserInfoView { user_name: Some(name@), ..self@ }),
    {
        UserInfo { user_name: Some(name), ..self }
    }

    pub fn with_auth_key(self, key: Vec<u8>) -> (r: UserInfo)
        ensures
            r@ == (UserInfoView { auth_key: Some(key@), ..self@ }),
    {
        UserInfo { auth_key: Some(key), ..self }
    }

    pub fn with_password(self, password: Vec<u8>) -> (r: UserInfo)
        ensures
            r@ == (UserInfoView { password: Some(password@), ..self@ }),
    {
        UserInfo { password: Some(password), ..self }
    }

    /// Fails unless the identifier is 1..=16.
    pub fn validate_user_id(&self) -> (r: DlmsResult<()>)
        ensures
            r is Ok <==> 1 <= self.user_id <= 16,
            r is Err ==> invalid(r),
    {
        if self.user_id == 0 || self.user_id > 16 {
            return Err(invalid_data("User ID must be between 1 and 16"));
        }
        Ok(())
    }

    /// A copy of the user.
    pub fn copy(&self) -> (r: UserInfo)
        ensures
            r@ == self@,
    {
        UserInfo {
            user_id: self.user_id,
            user_name: copy_opt_string(&self.user_name),
            auth_key: copy_opt_bytes(&self.auth_key),
            password: copy_opt_bytes(&self.password),
        }
    }
}

/// A COSEM object: class id, logical name and interface version.
#[derive(Debug, Clone, Copy, PartialEq, Eq, Structural)]
pub struct CosemObjectDescriptor {
    pub class_id: u16,
    pub logical_name: ObisCode,
    pub version: u8,
}

/// An INTEGER content of one to eight bytes.
pub open spec fn integer_content_ok(c: Seq<u8>) -> bool {
    1 <= c.len() <= 8
}

impl CosemObjectDescriptor {
    pub fn new(class_id: u16, logical_name: ObisCode, version: u8) -> (r: CosemObjectDescriptor)
        ensures
            r == (CosemObjectDescriptor { class_id, logical_name, version }),
    {
        CosemObjectDescriptor { class_id, logical_name, version }
    }

    /// The BER SEQUENCE of the class id as INTEGER, the logical name as
    /// OCTET STRING and the version as INTEGER.
    pub open spec fn spec_encode(self) -> Seq<u8> {
        ber_tlv(
            0x30,
            ber_tlv(0x02, ber_uint(self.class_id)) + ber_tlv(0x04, self.logical_name.spec_bytes())
                + ber_tlv(0x02, ber_uint(self.version as u16)),
        )
    }

    /// What `decode` reads: a SEQUENCE whose content starts with an INTEGER
    /// of one to eight bytes, an OCTET STRING of at least six bytes and
    /// another INTEGER of one to eight bytes. The class id is the low sixteen
    /// bits of the first INTEGER, the version the low eight bits of the
    /// second, the name the first six bytes of the string; whatever follows
    /// is ignored.
    pub open spec fn spec_decode(data: Seq<u8>) -> Option<CosemObjectDescriptor> {
        match read_tlv(data) {
            Some((t0, body, _)) => if t0 != 0x30 {
                None
            } else {
                match read_tlv(body) {
                    Some((t1, ci, n1)) => if t1 != 0x02 || !integer_content_ok(ci) {
                        None
                    } else {
                        let rest1 = body.skip(n1 as int);
                        match read_tlv(rest1) {
                            Some((t2, ln, n2)) => if t2 != 0x04 || ln.len() < 6 {
                                None
                            } else {
                                let rest2 = rest1.skip(n2 as int);
                                match read_tlv(rest2) {
                                    Some((t3, vi, _)) => if t3 != 0x02 || !integer_content_ok(vi) {
                                        None
                                    } else {
                                        Some(
                                            CosemObjectDescriptor {
                                                class_id: integer_low16(ci),
                                                logical_name: obis_of(ln),
                                                version: vi.last(),
                                            },
                                        )
                                    },
                                    None => None,
                                }
                            },
                            None => None,
                        }
                    },
                    None => None,
                }
            },
            None => None,
        }
    }

    /// The BER encoding; never fails.
    pub fn encode(&self) -> (r: DlmsResult<Vec<u8>>)
        ensures
            r matches Ok(v) && v@ == self.spec_encode(),
    {
        let mut content: Vec<u8> = Vec::new();
        let class_bytes = uint_content(self.class_id);
        push_tlv(&mut content, 0x02, &class_bytes);
        let name_bytes = self.logical_name.to_bytes();
        push_tlv(&mut content, 0x04, &name_bytes);
        let version_bytes = uint_content(self.version as u16);
        push_tlv(&mut content, 0x02, &version_bytes);
        assert(content@ =~= ber_tlv(0x02, ber_uint(self.class_id)) + ber_tlv(0x04, self.logical_name.spec_bytes())
            + ber_tlv(0x02, ber_uint(self.version as u16)));
        let mut out: Vec<u8> = Vec::new();
        push_tlv(&mut out, 0x30, &content);
        assert(out@ =~= self.spec_encode());
        Ok(out)
    }

    /// Reads a descriptor from its BER encoding.
    pub fn decode(data: &[u8]) -> (r: DlmsResult<CosemObjectDescriptor>)
        ensures
            r is Ok <==> CosemObjectDescriptor::spec_decode(data@) is Some,
            r matches Ok(d) ==> CosemObjectDescriptor::spec_decode(data@) == Some(d),
            r is Err ==> invalid(r),
    {
        assert(data@.subrange(0, data@.len() as int) =~= data@);
        let (t0, bs, be) = match read_tlv_at(data, 0, data.len()) {
            Some(x) => x,
            None => return Err(invalid_data("Expected a BER sequence")),
        };
        if t0 != 0x30 {
            return Err(invalid_data("Expected a BER sequence"));
        }
        let ghost body = data@.subrange(bs as int, be as int);
        let (t1, cs, ce) = match read_tlv_at(data, bs, be) {
            Some(x) => x,
            None => return Err(invalid_data("Expected an integer class id")),
        };
        if t1 != 0x02 || ce - cs < 1 || ce - cs > 8 {
            return Err(invalid_data("Expected an integer class id"));
        }
        let class_id = read_integer_low16(data, cs, ce);
        assert(body.skip((ce - bs) as int) =~= data@.subrange(ce as int, be as int));
        let ghost rest1 = data@.subrange(ce as int, be as int);
        let (t2, ls, le) = match read_tlv_at(data, ce, be) {
            Some(x) => x,
            None => return Err(invalid_data("Expected an octet string logical name")),
        };
        if t2 != 0x04 || le - ls < 6 {
            return Err(invalid_data("Expected an octet string logical name"));
        }
        let logical_name = ObisCode::new(data[ls], data[ls + 1], data[ls + 2], data[ls + 3], data[ls + 4], data[ls + 5]);
        assert(logical_name == obis_of(data@.subrange(ls as int, le as int)));
        assert(rest1.skip((le - ce) as int) =~= data@.subrange(le as int, be as int));
        let (t3, vs, ve) = match read_tlv_at(data, le, be) {
            Some(x) => x,
            None => return Err(invalid_data("Expected an integer version")),
        };
        if t3 != 0x02 || ve - vs < 1 || ve - vs > 8 {
            return Err(invalid_data("Expected an integer version"));
        }
        let version = data[ve - 1];
        assert(version == data@.subrange(vs as int, ve as int).last());
        Ok(CosemObjectDescriptor { class_id, logical_name, version })
    }
}

/// The low sixteen bits of the INTEGER whose content is `data[cs..ce]`.
fn read_integer_low16(data: &[u8], cs: usize, ce: usize) -> (r: u16)
    requires
        cs < ce <= data@.len(),
    ensures
        r == integer_low16(data@.subrange(cs as int, ce as int)),
{
    let ghost c = data@.subrange(cs as int, ce as int);
    if ce - cs == 1 {
        let b = data[cs];
        if b < 0x80 {
            b as u16
        } else {
            0xFF00u16 + b as u16
        }
    } else {
        assert(c[c.len() - 2] == data@[ce - 2]);
        assert(c[c.len() - 1] == data@[ce - 1]);
        (data[ce - 2] as u16) * 256 + (data[ce - 1] as u16)
    }
}

/// Decoding the BER encoding of a descriptor gives the descriptor back.
#[verifier::rlimit(40)]
pub proof fn lemma_object_descriptor_roundtrip(d: CosemObjectDescriptor)
    ensures
        CosemObjectDescriptor::spec_decode(d.spec_encode()) == Some(d),
{
    let ci = ber_uint(d.class_id);
    let nm = d.logical_name.spec_bytes();
    let vi = ber_uint(d.version as u16);
    let a = ber_tlv(0x02, ci);
    let b = ber_tlv(0x04, nm);
    let c = ber_tlv(0x02, vi);
    let bc = b + c;
    let body = a + bc;
    let e = d.spec_encode();
    lemma_uint_content_reads_back(d.class_id);
    lemma_uint_content_reads_back(d.version as u16);
    assert(body =~= a + b + c);
    assert(e == ber_tlv(0x30, body));
    lemma_read_tlv_of_encoding(0x30, body, Seq::empty());
    assert(e + Seq::<u8>::empty() =~= e);
    assert(read_tlv(e) == Some((0x30u8, body, e.len())));
    lemma_read_tlv_of_encoding(0x02, ci, bc);
    assert(read_tlv(body) == Some((0x02u8, ci, a.len())));
    assert(body.skip(a.len() as int) == bc);
    lemma_read_tlv_of_encoding(0x04, nm, c);
    assert(read_tlv(bc) == Some((0x04u8, nm, b.len())));
    assert(bc.skip(b.len() as int) == c);
    lemma_read_tlv_of_encoding(0x02, vi, Seq::empty());
    assert(c + Seq::<u8>::empty() =~= c);
    assert(read_tlv(c) == Some((0x02u8, vi, c.len())));
    assert(obis_of(nm) == d.logical_name);
    assert(lo_byte(d.version as u16) == d.version);
}


/// The mode without its authentication requirement.
pub open spec fn without_auth(m: AccessMode) -> AccessMode {
    match m {
        AccessMode::AuthReadOnly => AccessMode::ReadOnly,
        AccessMode::AuthWriteOnly => AccessMode::WriteOnly,
        AccessMode::AuthReadWrite => AccessMode::ReadWrite,
        _ => m,
    }
}

/// An authenticated mode grants the same reading and writing as the plain
/// mode it is built on, and only the authenticated modes differ from their
/// plain mode; among the plain modes, read-only reads and does not write,
/// write-only writes and does not read, read-write does both and no access
/// does neither.
pub proof fn lemma_access_rights(m: AccessMode)
    ensures
        m.spec_can_read() == without_auth(m).spec_can_read(),
        m.spec_can_write() == without_auth(m).spec_can_write(),
        m.spec_requires_auth() <==> without_auth(m) != m,
        !without_auth(m).spec_requires_auth(),
        AccessMode::ReadOnly.spec_can_read() && !AccessMode::ReadOnly.spec_can_write(),
        !AccessMode::WriteOnly.spec_can_read() && AccessMode::WriteOnly.spec_can_write(),
        AccessMode::ReadWrite.spec_can_read() && AccessMode::ReadWrite.spec_can_write(),
        !AccessMode::NoAccess.spec_can_read() && !AccessMode::NoAccess.spec_can_write(),
{
}

} // verus!
