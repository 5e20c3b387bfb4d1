//! Association LN interface class (class id 15): the objects visible in an
//! association addressed by logical names, the access rights and users, and
//! the security settings.
use vstd::prelude::*;
use crate::association_lists::{
    check_password, encode_access_rights, encode_users, find_access_right, find_user,
    is_rights_table, is_users_table, password_matches, replace_access_right, replace_user,
    right_lookup, right_views, user_lookup, user_views, with_right, with_user,
};
use crate::cosem_object::{denied, invalid, CosemObject};
use crate::data_object::{copy_bytes, copy_opt_bytes, copy_vec, is_octets, ok_octets, opt_bytes, DataObject};
use crate::descriptor::{
    first_mode, grants, AccessMode, AccessRight, AccessRightView, CosemObjectDescriptor, UserInfo,
    UserInfoView,
};
use crate::error::{access_denied_text, invalid_data, invalid_data_number, text_around, DlmsResult};
use crate::lists::{first_index, lemma_first_index_at, lemma_first_index_none, lemma_first_index_props};
use crate::obis::ObisCode;
use crate::selective_access::SelectiveAccessDescriptor;

verus! {

/// The descriptor names the object `(class_id, logical_name)`.
pub open spec fn same_object(class_id: u16, logical_name: ObisCode) -> spec_fn(CosemObjectDescriptor) -> bool {
    |d: CosemObjectDescriptor| d.class_id == class_id && d.logical_name == logical_name
}

/// Some descriptor of the list names the object.
pub open spec fn lists_object(list: Seq<CosemObjectDescriptor>, class_id: u16, logical_name: ObisCode) -> bool {
    exists|i: int| 0 <= i < list.len() && same_object(class_id, logical_name)(#[trigger] list[i])
}

/// The rights of `user_id` grant `mode` on the attribute: the user's entry
/// exists and its first right for the attribute grants the mode.
pub open spec fn user_grants(rights: Seq<AccessRightView>, user_id: u8, attribute_id: u8, mode: AccessMode) -> bool {
    match right_lookup(rights, user_id) {
        Some(a) => match first_mode(a.attribute_rights, attribute_id) {
            Some(held) => grants(held, mode),
            None => false,
        },
        None => false,
    }
}

/// `d` is `Structure[Unsigned16(class id), OctetString(name), Unsigned8(version)]`.
pub open spec fn is_object_encoding(d: DataObject, o: CosemObjectDescriptor) -> bool {
    d matches DataObject::Structure(f) && f@.len() == 3 && f@[0] == DataObject::Unsigned16(o.class_id)
        && is_octets(f@[1], o.logical_name.spec_bytes()) && f@[2] == DataObject::Unsigned8(o.version)
}

/// `d` is the array of the encodings of the objects, in order.
pub open spec fn is_object_table(d: DataObject, os: Seq<CosemObjectDescriptor>) -> bool {
    d matches DataObject::Array(items) && items@.len() == os.len() && forall|i: int|
        0 <= i < os.len() ==> is_object_encoding(#[trigger] items@[i], os[i])
}

/// The bytes of an optional byte string, none for no string.
pub open spec fn bytes_or_empty(o: Option<Seq<u8>>) -> Seq<u8> {
    match o {
        Some(b) => b,
        None => Seq::empty(),
    }
}

/// An empty byte string stands for no value.
pub open spec fn none_if_empty(b: Seq<u8>) -> Option<Seq<u8>> {
    if b.len() == 0 {
        None
    } else {
        Some(b)
    }
}

/// The state of an [`AssociationLn`].
pub struct AssociationLnView {
    pub logical_name: ObisCode,
    pub object_list: Seq<CosemObjectDescriptor>,
    pub access_rights_list: Seq<AccessRightView>,
    pub security_setup_reference: ObisCode,
    pub user_list: Seq<UserInfoView>,
    pub xdlms_context_info: Seq<u8>,
    pub authentication_mechanism_name: Option<Seq<u8>>,
    pub secret: Option<Seq<u8>>,
}

/// A fresh association: empty lists, security setup 0-0:64.0.0.255, no
/// context, mechanism or secret.
pub open spec fn association_ln_defaults(logical_name: ObisCode) -> AssociationLnView {
    AssociationLnView {
        logical_name,
        object_list: Seq::empty(),
        access_rights_list: Seq::empty(),
        security_setup_reference: ObisCode { a: 0, b: 0, c: 64, d: 0, e: 0, f: 255 },
        user_list: Seq::empty(),
        xdlms_context_info: Seq::empty(),
        authentication_mechanism_name: None,
        secret: None,
    }
}

/// Association LN interface class (class id 15).
pub struct AssociationLn {
    logical_name: ObisCode,
    object_list: Vec<CosemObjectDescriptor>,
    access_rights_list: Vec<AccessRight>,
    security_setup_reference: ObisCode,
    user_list: Vec<UserInfo>,
    xdlms_context_info: Vec<u8>,
    authentication_mechanism_name: Option<Vec<u8>>,
    secret: Option<Vec<u8>>,
}

impl View for AssociationLn {
    type V = AssociationLnView;

    closed spec fn view(&self) -> AssociationLnView {
        AssociationLnView {
            logical_name: self.logical_name,
            object_list: self.object_list@,
            access_rights_list: right_views(self.access_rights_list@),
            security_setup_reference: self.security_setup_reference,
            user_list: user_views(self.user_list@),
            xdlms_context_info: self.xdlms_context_info@,
            authentication_mechanism_name: opt_bytes(self.authentication_mechanism_name),
            secret: opt_bytes(self.secret),
        }
    }
}

/// The index of the first descriptor naming the object.
fn position_of_object(list: &Vec<CosemObjectDescriptor>, class_id: u16, logical_name: ObisCode) -> (r: Option<usize>)
    ensures
        match r {
            Some(i) => first_index(list@, same_object(class_id, logical_name)) == Some(i as int),
            None => first_index(list@, same_object(class_id, logical_name)) is None,
        },
        r is Some <==> lists_object(list@, class_id, logical_name),
        r matches Some(i) ==> i < list@.len(),
{
    let mut i: usize = 0;
    while i < list.len()
        invariant
            i <= list@.len(),
            forall|j: int| 0 <= j < i ==> !same_object(class_id, logical_name)(#[trigger] list@[j]),
        decreases list@.len() - i,
    {
        if list[i].class_id == class_id && list[i].logical_name == logical_name {
            proof {
                lemma_first_index_at(list@, same_object(class_id, logical_name), i as int);
            }
            return Some(i);
        }
        i = i + 1;
    }
    proof {
        lemma_first_index_none(list@, same_object(class_id, logical_name));
    }
    None
}

fn encode_object_list(list: &Vec<CosemObjectDescriptor>) -> (r: DataObject)
    ensures
        is_object_table(r, list@),
{
    let mut items: Vec<DataObject> = Vec::new();
    let mut i: usize = 0;
    while i < list.len()
        invariant
            i <= list@.len(),
            items@.len() == i,
            forall|j: int| 0 <= j < i ==> is_object_encoding(#[trigger] items@[j], list@[j]),
        decreases list@.len() - i,
    {
        let d = list[i];
        let mut fields: Vec<DataObject> = Vec::new();
        fields.push(DataObject::Unsigned16(d.class_id));
        fields.push(DataObject::OctetString(d.logical_name.to_bytes()));
        fields.push(DataObject::Unsigned8(d.version));
        items.push(DataObject::Structure(fields));
        i = i + 1;
    }
    DataObject::Array(items)
}

fn bytes_or_empty_of(o: &Option<Vec<u8>>) -> (r: Vec<u8>)
    ensures
        r@ == bytes_or_empty(opt_bytes(*o)),
{
    match o {
        Some(b) => copy_bytes(b),
        None => Vec::new(),
    }
}

fn none_if_empty_of(b: Vec<u8>) -> (r: Option<Vec<u8>>)
    ensures
        opt_bytes(r) == none_if_empty(b@),
{
    if b.len() == 0 {
        None
    } else {
        Some(b)
    }
}

impl AssociationLn {
    pub const CLASS_ID: u16 = 15;
    pub const ATTR_LOGICAL_NAME: u8 = 1;
    pub const ATTR_OBJECT_LIST: u8 = 2;
    pub const ATTR_ACCESS_RIGHTS_LIST: u8 = 3;
    pub const ATTR_SECURITY_SETUP_REFERENCE: u8 = 4;
    pub const ATTR_USER_LIST: u8 = 5;
    pub const ATTR_XDLMS_CONTEXT_INFO: u8 = 6;
    pub const ATTR_AUTHENTICATION_MECHANISM_NAME: u8 = 7;
    pub const ATTR_SECRET: u8 = 8;

    /// Default OBIS code 0-0:40.0.0.255.
    pub fn default_obis() -> (r: ObisCode)
        ensures
            r == (ObisCode { a: 0, b: 0, c: 40, d: 0, e: 0, f: 255 }),
    {
        ObisCode::new(0, 0, 40, 0, 0, 255)
    }

    pub fn new(logical_name: ObisCode) -> (r: AssociationLn)
        ensures
            r@ == association_ln_defaults(logical_name),
    {
        let r = AssociationLn {
            logical_name,
            object_list: Vec::new(),
            access_rights_list: Vec::new(),
            security_setup_reference: ObisCode::new(0, 0, 64, 0, 0, 255),
            user_list: Vec::new(),
            xdlms_context_info: Vec::new(),
            authentication_mechanism_name: None,
            secret: None,
        };
        assert(r@.access_rights_list =~= Seq::<AccessRightView>::empty());
        assert(r@.user_list =~= Seq::<UserInfoView>::empty());
        r
    }

    pub fn with_default_obis() -> (r: AssociationLn)
        ensures
            r@ == association_ln_defaults(ObisCode { a: 0, b: 0, c: 40, d: 0, e: 0, f: 255 }),
    {
        Self::new(Self::default_obis())
    }

    /// Appends the object unless an object with the same class id and
    /// logical name is listed already.
    pub fn add_object(&mut self, descriptor: CosemObjectDescriptor)
        ensures
            final(self)@ == (AssociationLnView {
                object_list: if lists_object(old(self)@.object_list, descriptor.class_id, descriptor.logical_name) {
                    old(self)@.object_list
                } else {
                    old(self)@.object_list.push(descriptor)
                },
                ..old(self)@
            }),
    {
        match position_of_object(&self.object_list, descriptor.class_id, descriptor.logical_name) {
            Some(_) => {},
            None => self.object_list.push(descriptor),
        }
    }

    /// Removes the first listed object with this class id and logical name;
    /// tells whether there was one.
    pub fn remove_object(&mut self, class_id: u16, logical_name: ObisCode) -> (r: bool)
        ensures
            r == lists_object(old(self)@.object_list, class_id, logical_name),
            final(self)@ == (AssociationLnView {
                object_list: match first_index(old(self)@.object_list, same_object(class_id, logical_name)) {
                    Some(i) => old(self)@.object_list.remove(i),
                    None => old(self)@.object_list,
                },
                ..old(self)@
            }),
    {
        match position_of_object(&self.object_list, class_id, logical_name) {
            Some(i) => {
                self.object_list.remove(i);
                true
            },
            None => false,
        }
    }

    pub fn get_objects(&self) -> (r: Vec<CosemObjectDescriptor>)
        ensures
            r@ == self@.object_list,
    {
        copy_vec(&self.object_list)
    }

    pub fn has_object(&self, class_id: u16, logical_name: ObisCode) -> (r: bool)
        ensures
            r == lists_object(self@.object_list, class_id, logical_name),
    {
        position_of_object(&self.object_list, class_id, logical_name).is_some()
    }

    /// Replaces the rights of the entry's user with the entry.
    pub fn add_access_right(&mut self, access_right: AccessRight)
        ensures
            final(self)@ == (AssociationLnView {
                access_rights_list: with_right(old(self)@.access_rights_list, access_right@),
                ..old(self)@
            }),
    {
        replace_access_right(&mut self.access_rights_list, access_right);
    }

    /// The rights of the user, if any.
    pub fn get_access_rights(&self, user_id: u8) -> (r: Option<AccessRight>)
        ensures
            match r {
                Some(a) => right_lookup(self@.access_rights_list, user_id) == Some(a@),
                None => right_lookup(self@.access_rights_list, user_id) is None,
            },
    {
        find_access_right(&self.access_rights_list, user_id)
    }

    /// The user's rights grant `mode` on the attribute (of any object).
    pub fn can_access_attribute(
        &self,
        user_id: u8,
        class_id: u16,
        logical_name: ObisCode,
        attribute_id: u8,
        mode: AccessMode,
    ) -> (r: bool)
        ensures
            r == user_grants(self@.access_rights_list, user_id, attribute_id, mode),
    {
        match find_access_right(&self.access_rights_list, user_id) {
            Some(rights) => rights.can_access_attribute(attribute_id, mode),
            None => false,
        }
    }

    /// Adds the user, replacing a user with the same identifier; fails,
    /// changing nothing, unless the identifier is 1..=16.
    pub fn add_user(&mut self, user: UserInfo) -> (r: DlmsResult<()>)
        ensures
            r is Ok <==> 1 <= user.user_id <= 16,
            r is Ok ==> final(self)@ == (AssociationLnView {
                user_list: with_user(old(self)@.user_list, user@),
                ..old(self)@
            }),
            r is Err ==> invalid(r) && final(self)@ == old(self)@,
    {
        match user.validate_user_id() {
            Ok(()) => {},
            Err(e) => return Err(e),
        }
        replace_user(&mut self.user_list, user);
        Ok(())
    }

    /// The user with this identifier, if any.
    pub fn get_user(&self, user_id: u8) -> (r: Option<UserInfo>)
        ensures
            match r {
                Some(u) => user_lookup(self@.user_list, user_id) == Some(u@),
                None => user_lookup(self@.user_list, user_id) is None,
            },
    {
        find_user(&self.user_list, user_id)
    }

    pub fn set_security_setup_reference(&mut self, reference: ObisCode)
        ensures
            final(self)@ == (AssociationLnView { security_setup_reference: reference, ..old(self)@ }),
    {
        self.security_setup_reference = reference;
    }

    pub fn set_xdlms_context_info(&mut self, info: Vec<u8>)
        ensures
            final(self)@ == (AssociationLnView { xdlms_context_info: info@, ..old(self)@ }),
    {
        self.xdlms_context_info = info;
    }

    pub fn set_authentication_mechanism_name(&mut self, name: Option<Vec<u8>>)
        ensures
            final(self)@ == (AssociationLnView { authentication_mechanism_name: opt_bytes(name), ..old(self)@ }),
    {
        self.authentication_mechanism_name = name;
    }

    pub fn set_secret(&mut self, secret: Option<Vec<u8>>)
        ensures
            final(self)@ == (AssociationLnView { secret: opt_bytes(secret), ..old(self)@ }),
    {
        self.secret = secret;
    }

    pub fn get_secret(&self) -> (r: Option<Vec<u8>>)
        ensures
            opt_bytes(r) == self@.secret,
    {
        copy_opt_bytes(&self.secret)
    }

    /// The user exists and holds exactly this password.
    pub fn verify_user(&self, user_id: u8, password: &[u8]) -> (r: bool)
        ensures
            r == password_matches(self@.user_list, user_id, password@),
    {
        check_password(&self.user_list, user_id, password)
    }
}

impl CosemObject for AssociationLn {
    fn class_id(&self) -> (r: u16)
        ensures
            r == 15,
    {
        Self::CLASS_ID
    }

    fn obis_code(&self) -> (r: ObisCode)
        ensures
            r == self@.logical_name,
    {
        self.logical_name
    }

    fn get_attribute(
        &self,
        attribute_id: u8,
        selective_access: Option<&SelectiveAccessDescriptor>,
    ) -> (r: DlmsResult<DataObject>)
        ensures
            match attribute_id {
                1 => ok_octets(r, self@.logical_name.spec_bytes()),
                2 => r matches Ok(d) && is_object_table(d, self@.object_list),
                3 => r matches Ok(d) && is_rights_table(d, self@.access_rights_list),
                4 => ok_octets(r, self@.security_setup_reference.spec_bytes()),
                5 => r matches Ok(d) && is_users_table(d, self@.user_list),
                6 => ok_octets(r, self@.xdlms_context_info),
                7 => ok_octets(r, bytes_or_empty(self@.authentication_mechanism_name)),
                8 => ok_octets(r, bytes_or_empty(self@.secret)),
                _ => invalid(r),
            },
    {
        match attribute_id {
            1 => Ok(DataObject::OctetString(self.logical_name.to_bytes())),
            2 => Ok(encode_object_list(&self.object_list)),
            3 => Ok(encode_access_rights(&self.access_rights_list)),
            4 => Ok(DataObject::OctetString(self.security_setup_reference.to_bytes())),
            5 => Ok(encode_users(&self.user_list)),
            6 => Ok(DataObject::OctetString(copy_bytes(&self.xdlms_context_info))),
            7 => Ok(DataObject::OctetString(bytes_or_empty_of(&self.authentication_mechanism_name))),
            8 => Ok(DataObject::OctetString(bytes_or_empty_of(&self.secret))),
            _ => Err(invalid_data_number("Attribute not supported: ", attribute_id as u64)),
        }
    }

    /// The name and the three lists are read-only; the security setup
    /// reference cannot be written through this interface; the context
    /// information, mechanism name and secret are written from octet
    /// strings, an empty string clearing the mechanism name or secret.
    fn set_attribute(
        &mut self,
        attribute_id: u8,
        value: DataObject,
        selective_access: Option<&SelectiveAccessDescriptor>,
    ) -> (r: DlmsResult<()>)
        ensures
            r is Err ==> final(self)@ == old(self)@,
            match attribute_id {
                1 | 2 | 3 | 5 => denied(r),
                4 => invalid(r),
                6 => match value {
                    DataObject::OctetString(b) => r is Ok && final(self)@ == (AssociationLnView {
                        xdlms_context_info: b@,
                        ..old(self)@
                    }),
                    _ => invalid(r),
                },
                7 => match value {
                    DataObject::OctetString(b) => r is Ok && final(self)@ == (AssociationLnView {
                        authentication_mechanism_name: none_if_empty(b@),
                        ..old(self)@
                    }),
                    _ => invalid(r),
                },
                8 => match value {
                    DataObject::OctetString(b) => r is Ok && final(self)@ == (AssociationLnView {
                        secret: none_if_empty(b@),
                        ..old(self)@
                    }),
                    _ => invalid(r),
                },
                _ => invalid(r),
            },
    {
        match attribute_id {
            1 | 2 | 3 | 5 => Err(access_denied_text(text_around("Attribute ", attribute_id as u64, " is read-only"))),
            4 => {
                if let DataObject::OctetString(bytes) = value {
                    if bytes.len() == 6 {
                        return Err(invalid_data("Security setup reference must be set via method"));
                    }
                }
                Err(invalid_data("Invalid OBIS code format"))
            },
            6 => match value {
                DataObject::OctetString(bytes) => {
                    self.xdlms_context_info = bytes;
                    Ok(())
                },
                _ => Err(invalid_data("Expected octet string for xDLMS context info")),
            },
            7 => match value {
                DataObject::OctetString(bytes) => {
                    self.authentication_mechanism_name = none_if_empty_of(bytes);
                    Ok(())
                },
                _ => Err(invalid_data("Expected octet string for authentication mechanism name")),
            },
            8 => match value {
                DataObject::OctetString(bytes) => {
                    self.secret = none_if_empty_of(bytes);
                    Ok(())
                },
                _ => Err(invalid_data("Expected octet string for secret")),
            },
            _ => Err(invalid_data_number("Attribute not supported: ", attribute_id as u64)),
        }
    }

    fn invoke_method(
        &mut self,
        method_id: u8,
        parameters: Option<DataObject>,
        selective_access: Option<&SelectiveAccessDescriptor>,
    ) -> (r: DlmsResult<Option<DataObject>>)
        ensures
            invalid(r),
            final(self)@ == old(self)@,
    {
        Err(invalid_data_number("Method not supported: ", method_id as u64))
    }
}

/// No two descriptors of the list name the same object.
pub open spec fn objects_unique(list: Seq<CosemObjectDescriptor>) -> bool {
    forall|i: int, j: int|
        #![trigger list[i], list[j]]
        0 <= i < j < list.len() ==> !(list[i].class_id == list[j].class_id && list[i].logical_name
            == list[j].logical_name)
}

/// The object list after `add_object(d)`.
pub open spec fn after_add_object(list: Seq<CosemObjectDescriptor>, d: CosemObjectDescriptor) -> Seq<CosemObjectDescriptor> {
    if lists_object(list, d.class_id, d.logical_name) {
        list
    } else {
        list.push(d)
    }
}

/// The object list after `remove_object(class_id, logical_name)`.
pub open spec fn after_remove_object(list: Seq<CosemObjectDescriptor>, class_id: u16, logical_name: ObisCode) -> Seq<CosemObjectDescriptor> {
    match first_index(list, same_object(class_id, logical_name)) {
        Some(i) => list.remove(i),
        None => list,
    }
}

/// Adding an object keeps the list free of repeats, and the object is listed
/// afterwards.
pub proof fn lemma_add_object_keeps_unique(list: Seq<CosemObjectDescriptor>, d: CosemObjectDescriptor)
    requires
        objects_unique(list),
    ensures
        objects_unique(after_add_object(list, d)),
        lists_object(after_add_object(list, d), d.class_id, d.logical_name),
{
    let after = after_add_object(list, d);
    if !lists_object(list, d.class_id, d.logical_name) {
        assert(same_object(d.class_id, d.logical_name)(after[list.len() as int]));
        assert forall|i: int, j: int| 0 <= i < j < after.len() implies !(#[trigger] after[i].class_id
            == #[trigger] after[j].class_id && after[i].logical_name == after[j].logical_name) by {
            assert(after[i] == list[i]);
            if j == list.len() {
                assert(!same_object(d.class_id, d.logical_name)(list[i]));
            } else {
                assert(after[j] == list[j]);
            }
        }
    }
}

/// Removing an object from a list without repeats leaves it unlisted, and
/// keeps the list free of repeats.
pub proof fn lemma_remove_object_unlists(list: Seq<CosemObjectDescriptor>, class_id: u16, logical_name: ObisCode)
    requires
        objects_unique(list),
    ensures
        !lists_object(after_remove_object(list, class_id, logical_name), class_id, logical_name),
        objects_unique(after_remove_object(list, class_id, logical_name)),
{
    let p = same_object(class_id, logical_name);
    lemma_first_index_props(list, p);
    let after = after_remove_object(list, class_id, logical_name);
    match first_index(list, p) {
        Some(i) => {
            assert forall|k: int| 0 <= k < after.len() implies !p(#[trigger] after[k]) by {
                if k < i {
                    assert(after[k] == list[k]);
                } else {
                    assert(after[k] == list[k + 1]);
                    assert(list[i] == list[i] && list[k + 1] == list[k + 1]);
                }
            }
            assert forall|a: int, b: int| 0 <= a < b < after.len() implies !(#[trigger] after[a].class_id
                == #[trigger] after[b].class_id && after[a].logical_name == after[b].logical_name) by {
                let a0 = if a < i { a } else { a + 1 };
                let b0 = if b < i { b } else { b + 1 };
                assert(after[a] == list[a0]);
                assert(after[b] == list[b0]);
                assert(list[a0] == list[a0] && list[b0] == list[b0]);
            }
        },
        None => {},
    }
}

} // verus!
