//! Association SN interface class (class id 12): the short names visible in
//! an association addressed by short names, the access rights and users,
//! and the service access points.
use vstd::prelude::*;
use crate::association_lists::{
    check_password, encode_access_rights, encode_users, find_access_right, find_user,
    is_rights_table, is_users_table, password_matches, replace_access_right, replace_user,
    right_lookup, right_views, user_lookup, user_views, with_right, with_user,
};
use crate::association_ln::user_grants;
use crate::cosem_object::{denied, invalid, yields, CosemObject};
use crate::data_object::{copy_bytes, copy_vec, ok_octets, DataObject};
use crate::descriptor::{AccessMode, AccessRight, AccessRightView, UserInfo, UserInfoView};
use crate::error::{access_denied_text, invalid_data, invalid_data_number, text_around, DlmsResult};
use crate::lists::{first_index, lemma_first_index_at, lemma_first_index_none, lemma_first_index_props};
use crate::obis::ObisCode;
use crate::selective_access::SelectiveAccessDescriptor;

verus! {

/// A short name: the 16-bit address of an object in short-name addressing.
pub type ShortName = u16;

/// `d` is the array of the short names as `Unsigned16`, in order.
pub open spec fn is_short_name_table(d: DataObject, ns: Seq<ShortName>) -> bool {
    d matches DataObject::Array(items) && items@.len() == ns.len() && forall|i: int|
        0 <= i < ns.len() ==> #[trigger] items@[i] == DataObject::Unsigned16(ns[i])
}

/// The short name is `n`.
pub open spec fn short_name_is(n: ShortName) -> spec_fn(ShortName) -> bool {
    |x: ShortName| x == n
}

/// The state of an [`AssociationSn`].
pub struct AssociationSnView {
    pub logical_name: ObisCode,
    pub object_list: Seq<ShortName>,
    pub access_rights_list: Seq<AccessRightView>,
    pub security_setup_reference: ObisCode,
    pub user_list: Seq<UserInfoView>,
    pub client_sap: u16,
    pub server_sap: u16,
    pub application_context_name: Seq<u8>,
}

/// A fresh association: empty lists, security setup 0-0:64.0.0.255, the
/// given access points and no application context name.
pub open spec fn association_sn_defaults(logical_name: ObisCode, client_sap: u16, server_sap: u16) -> AssociationSnView {
    AssociationSnView {
        logical_name,
        object_list: Seq::empty(),
        access_rights_list: Seq::empty(),
        security_setup_reference: ObisCode { a: 0, b: 0, c: 64, d: 0, e: 0, f: 255 },
        user_list: Seq::empty(),
        client_sap,
        server_sap,
        application_context_name: Seq::empty(),
    }
}

/// Association SN interface class (class id 12).
pub struct AssociationSn {
    logical_name: ObisCode,
    object_list: Vec<ShortName>,
    access_rights_list: Vec<AccessRight>,
    security_setup_reference: ObisCode,
    user_list: Vec<UserInfo>,
    client_sap: u16,
    server_sap: u16,
    application_context_name: Vec<u8>,
}

impl View for AssociationSn {
    type V = AssociationSnView;

    closed spec fn view(&self) -> AssociationSnView {
        AssociationSnView {
            logical_name: self.logical_name,
            object_list: self.object_list@,
            access_rights_list: right_views(self.access_rights_list@),
            security_setup_reference: self.security_setup_reference,
            user_list: user_views(self.user_list@),
            client_sap: self.client_sap,
            server_sap: self.server_sap,
            application_context_name: self.application_context_name@,
        }
    }
}

/// The index of the first occurrence of the short name.
fn position_of_short_name(list: &Vec<ShortName>, short_name: ShortName) -> (r: Option<usize>)
    ensures
        match r {
            Some(i) => first_index(list@, short_name_is(short_name)) == Some(i as int),
            None => first_index(list@, short_name_is(short_name)) is None,
        },
        r is Some <==> list@.contains(short_name),
        r matches Some(i) ==> i < list@.len(),
{
    let mut i: usize = 0;
    while i < list.len()
        invariant
            i <= list@.len(),
            forall|j: int| 0 <= j < i ==> !short_name_is(short_name)(#[trigger] list@[j]),
        decreases list@.len() - i,
    {
        if list[i] == short_name {
            proof {
                lemma_first_index_at(list@, short_name_is(short_name), i as int);
            }
            return Some(i);
        }
        i = i + 1;
    }
    proof {
        lemma_first_index_none(list@, short_name_is(short_name));
        assert(!list@.contains(short_name)) by {
            if list@.contains(short_name) {
                let k = choose|k: int| 0 <= k < list@.len() && list@[k] == short_name;
                assert(!short_name_is(short_name)(list@[k]));
            }
        }
    }
    None
}

fn encode_short_names(list: &Vec<ShortName>) -> (r: DataObject)
    ensures
        is_short_name_table(r, list@),
{
    let mut items: Vec<DataObject> = Vec::new();
    let mut i: usize = 0;
    while i < list.len()
        invariant
            i <= list@.len(),
            items@.len() == i,
            forall|j: int| 0 <= j < i ==> #[trigger] items@[j] == DataObject::Unsigned16(list@[j]),
        decreases list@.len() - i,
    {
        items.push(DataObject::Unsigned16(list[i]));
        i = i + 1;
    }
    DataObject::Array(items)
}

impl AssociationSn {
    pub const CLASS_ID: u16 = 12;
    pub const ATTR_LOGICAL_NAME: u8 = 1;
    pub const ATTR_OBJECT_LIST: u8 = 2;
    pub const ATTR_ACCESS_RIGHTS_LIST: u8 = 3;
    pub const ATTR_SECURITY_SETUP_REFERENCE: u8 = 4;
    pub const ATTR_USER_LIST: u8 = 5;
    pub const ATTR_CLIENT_SAP: u8 = 6;
    pub const ATTR_SERVER_SAP: u8 = 7;
    pub const ATTR_APPLICATION_CONTEXT_NAME: u8 = 8;

    /// Default OBIS code 0-0:42.0.0.255.
    pub fn default_obis() -> (r: ObisCode)
        ensures
            r == (ObisCode { a: 0, b: 0, c: 42, d: 0, e: 0, f: 255 }),
    {
        ObisCode::new(0, 0, 42, 0, 0, 255)
    }

    pub fn new(logical_name: ObisCode, client_sap: u16, server_sap: u16) -> (r: AssociationSn)
        ensures
            r@ == association_sn_defaults(logical_name, client_sap, server_sap),
    {
        let r = AssociationSn {
            logical_name,
            object_list: Vec::new(),
            access_rights_list: Vec::new(),
            security_setup_reference: ObisCode::new(0, 0, 64, 0, 0, 255),
            user_list: Vec::new(),
            client_sap,
            server_sap,
            application_context_name: Vec::new(),
        };
        assert(r@.access_rights_list =~= Seq::<AccessRightView>::empty());
        assert(r@.user_list =~= Seq::<UserInfoView>::empty());
        r
    }

    pub fn with_default_obis(client_sap: u16, server_sap: u16) -> (r: AssociationSn)
        ensures
            r@ == association_sn_defaults(
                ObisCode { a: 0, b: 0, c: 42, d: 0, e: 0, f: 255 },
                client_sap,
                server_sap,
            ),
    {
        Self::new(Self::default_obis(), client_sap, server_sap)
    }

    /// Appends the short name unless it is listed already.
    pub fn add_object(&mut self, short_name: ShortName)
        ensures
            final(self)@ == (AssociationSnView {
                object_list: if old(self)@.object_list.contains(short_name) {
                    old(self)@.object_list
                } else {
                    old(self)@.object_list.push(short_name)
                },
                ..old(self)@
            }),
    {
        match position_of_short_name(&self.object_list, short_name) {
            Some(_) => {},
            None => self.object_list.push(short_name),
        }
    }

    /// Removes the first occurrence of the short name; tells whether there
    /// was one.
    pub fn remove_object(&mut self, short_name: ShortName) -> (r: bool)
        ensures
            r == old(self)@.object_list.contains(short_name),
            final(self)@ == (AssociationSnView {
                object_list: match first_index(old(self)@.object_list, short_name_is(short_name)) {
                    Some(i) => old(self)@.object_list.remove(i),
                    None => old(self)@.object_list,
                },
                ..old(self)@
            }),
    {
        match position_of_short_name(&self.object_list, short_name) {
            Some(i) => {
                self.object_list.remove(i);
                true
            },
            None => false,
        }
    }

    pub fn get_objects(&self) -> (r: Vec<ShortName>)
        ensures
            r@ == self@.object_list,
    {
        copy_vec(&self.object_list)
    }

    pub fn has_object(&self, short_name: ShortName) -> (r: bool)
        ensures
            r == self@.object_list.contains(short_name),
    {
        position_of_short_name(&self.object_list, short_name).is_some()
    }

    /// Replaces the rights of the entry's user with the entry.
    pub fn add_access_right(&mut self, access_right: AccessRight)
        ensures
            final(self)@ == (AssociationSnView {
                access_rights_list: with_right(old(self)@.access_rights_list, access_right@),
                ..old(self)@
            }),
    {
        replace_access_right(&mut self.access_rights_list, access_right);
    }

    /// The rights of the user, if any.
    pub fn get_access_rights(&self, user_id: u8) -> (r: Option<AccessRight>)
        ensures
            match r {
                Some(a) => right_lookup(self@.access_rights_list, user_id) == Some(a@),
                None => right_lookup(self@.access_rights_list, user_id) is None,
            },
    {
        find_access_right(&self.access_rights_list, user_id)
    }

    /// The user's rights grant `mode` on the attribute.
    pub fn can_access_attribute(&self, user_id: u8, attribute_id: u8, mode: AccessMode) -> (r: bool)
        ensures
            r == user_grants(self@.access_rights_list, user_id, attribute_id, mode),
    {
        match find_access_right(&self.access_rights_list, user_id) {
            Some(rights) => rights.can_access_attribute(attribute_id, mode),
            None => false,
        }
    }

    /// Adds the user, replacing a user with the same identifier; fails,
    /// changing nothing, unless the identifier is 1..=16.
    pub fn add_user(&mut self, user: UserInfo) -> (r: DlmsResult<()>)
        ensures
            r is Ok <==> 1 <= user.user_id <= 16,
            r is Ok ==> final(self)@ == (AssociationSnView {
                user_list: with_user(old(self)@.user_list, user@),
                ..old(self)@
            }),
            r is Err ==> invalid(r) && final(self)@ == old(self)@,
    {
        match user.validate_user_id() {
            Ok(()) => {},
            Err(e) => return Err(e),
        }
        replace_user(&mut self.user_list, user);
        Ok(())
    }

    /// The user with this identifier, if any.
    pub fn get_user(&self, user_id: u8) -> (r: Option<UserInfo>)
        ensures
            match r {
                Some(u) => user_lookup(self@.user_list, user_id) == Some(u@),
                None => user_lookup(self@.user_list, user_id) is None,
            },
    {
        find_user(&self.user_list, user_id)
    }

    pub fn set_security_setup_reference(&mut self, reference: ObisCode)
        ensures
            final(self)@ == (AssociationSnView { security_setup_reference: reference, ..old(self)@ }),
    {
        self.security_setup_reference = reference;
    }

    pub fn client_sap(&self) -> (r: u16)
        ensures
            r == self@.client_sap,
    {
        self.client_sap
    }

    pub fn server_sap(&self) -> (r: u16)
        ensures
            r == self@.server_sap,
    {
        self.server_sap
    }

    pub fn set_sap(&mut self, client_sap: u16, server_sap: u16)
        ensures
            final(self)@ == (AssociationSnView { client_sap, server_sap, ..old(self)@ }),
    {
        self.client_sap = client_sap;
        self.server_sap = server_sap;
    }

    pub fn set_application_context_name(&mut self, context: Vec<u8>)
        ensures
            final(self)@ == (AssociationSnView { application_context_name: context@, ..old(self)@ }),
    {
        self.application_context_name = context;
    }

    pub fn get_application_context_name(&self) -> (r: Vec<u8>)
        ensures
            r@ == self@.application_context_name,
    {
        copy_bytes(&self.application_context_name)
    }

    /// The user exists and holds exactly this password.
    pub fn verify_user(&self, user_id: u8, password: &[u8]) -> (r: bool)
        ensures
            r == password_matches(self@.user_list, user_id, password@),
    {
        check_password(&self.user_list, user_id, password)
    }
}

impl CosemObject for AssociationSn {
    fn class_id(&self) -> (r: u16)
        ensures
            r == 12,
    {
        Self::CLASS_ID
    }

    fn obis_code(&self) -> (r: ObisCode)
        ensures
            r == self@.logical_name,
    {
        self.logical_name
    }

    fn get_attribute(
        &self,
        attribute_id: u8,
        selective_access: Option<&SelectiveAccessDescriptor>,
    ) -> (r: DlmsResult<DataObject>)
        ensures
            match attribute_id {
                1 => ok_octets(r, self@.logical_name.spec_bytes()),
                2 => r matches Ok(d) && is_short_name_table(d, self@.object_list),
                3 => r matches Ok(d) && is_rights_table(d, self@.access_rights_list),
                4 => ok_octets(r, self@.security_setup_reference.spec_bytes()),
                5 => r matches Ok(d) && is_users_table(d, self@.user_list),
                6 => yields(r, DataObject::Unsigned16(self@.client_sap)),
                7 => yields(r, DataObject::Unsigned16(self@.server_sap)),
                8 => ok_octets(r, self@.application_context_name),
                _ => invalid(r),
            },
    {
        match attribute_id {
            1 => Ok(DataObject::OctetString(self.logical_name.to_bytes())),
            2 => Ok(encode_short_names(&self.object_list)),
            3 => Ok(encode_access_rights(&self.access_rights_list)),
            4 => Ok(DataObject::OctetString(self.security_setup_reference.to_bytes())),
            5 => Ok(encode_users(&self.user_list)),
            6 => Ok(DataObject::Unsigned16(self.client_sap)),
            7 => Ok(DataObject::Unsigned16(self.server_sap)),
            8 => Ok(DataObject::OctetString(copy_bytes(&self.application_context_name))),
            _ => Err(invalid_data_number("Attribute not supported: ", attribute_id as u64)),
        }
    }

    /// Attributes 1 to 5 are read-only; the access points are fixed at
    /// construction, so writing them fails; the application context name is
    /// written from an octet string.
    fn set_attribute(
        &mut self,
        attribute_id: u8,
        value: DataObject,
        selective_access: Option<&SelectiveAccessDescriptor>,
    ) -> (r: DlmsResult<()>)
        ensures
            r is Err ==> final(self)@ == old(self)@,
            match attribute_id {
                1 | 2 | 3 | 4 | 5 => denied(r),
                6 | 7 => invalid(r),
                8 => match value {
                    DataObject::OctetString(b) => r is Ok && final(self)@ == (AssociationSnView {
                        application_context_name: b@,
                        ..old(self)@
                    }),
                    _ => invalid(r),
                },
                _ => invalid(r),
            },
    {
        match attribute_id {
            1 | 2 | 3 | 4 | 5 => Err(access_denied_text(text_around("Attribute ", attribute_id as u64, " is read-only"))),
            6 => match value {
                DataObject::Unsigned16(_) => Err(invalid_data("Client SAP must be set during construction")),
                _ => Err(invalid_data("Expected unsigned 16-bit integer for client SAP")),
            },
            7 => match value {
                DataObject::Unsigned16(_) => Err(invalid_data("Server SAP must be set during construction")),
                _ => Err(invalid_data("Expected unsigned 16-bit integer for server SAP")),
            },
            8 => match value {
                DataObject::OctetString(bytes) => {
                    self.application_context_name = bytes;
                    Ok(())
                },
                _ => Err(invalid_data("Expected octet string for application context name")),
            },
            _ => Err(invalid_data_number("Attribute not supported: ", attribute_id as u64)),
        }
    }

    fn invoke_method(
        &mut self,
        method_id: u8,
        parameters: Option<DataObject>,
        selective_access: Option<&SelectiveAccessDescriptor>,
    ) -> (r: DlmsResult<Option<DataObject>>)
        ensures
            invalid(r),
            final(self)@ == old(self)@,
    {
        Err(invalid_data_number("Method not supported: ", method_id as u64))
    }
}

/// The short-name list after `add_object(n)`.
pub open spec fn after_add_short_name(list: Seq<ShortName>, n: ShortName) -> Seq<ShortName> {
    if list.contains(n) {
        list
    } else {
        list.push(n)
    }
}

/// The short-name list after `remove_object(n)`.
pub open spec fn after_remove_short_name(list: Seq<ShortName>, n: ShortName) -> Seq<ShortName> {
    match first_index(list, short_name_is(n)) {
        Some(i) => list.remove(i),
        None => list,
    }
}

/// Adding a short name keeps the list free of repeats and lists the name;
/// removing it from a list without repeats leaves it unlisted and the list
/// still free of repeats.
pub proof fn lemma_short_name_list_unique(list: Seq<ShortName>, n: ShortName)
    requires
        list.no_duplicates(),
    ensures
        after_add_short_name(list, n).no_duplicates(),
        after_add_short_name(list, n).contains(n),
        !after_remove_short_name(list, n).contains(n),
        after_remove_short_name(list, n).no_duplicates(),
{
    let added = after_add_short_name(list, n);
    if !list.contains(n) {
        assert(added[list.len() as int] == n);
        assert forall|i: int, j: int| 0 <= i < added.len() && 0 <= j < added.len() && i != j implies added[i]
            != added[j] by {
            if i == list.len() {
                assert(added[j] == list[j]);
            } else if j == list.len() {
                assert(added[i] == list[i]);
            } else {
                assert(added[i] == list[i] && added[j] == list[j]);
            }
        }
    } else {
        let k = choose|k: int| 0 <= k < list.len() && list[k] == n;
        assert(added[k] == n);
    }
    let p = short_name_is(n);
    lemma_first_index_props(list, p);
    let removed = after_remove_short_name(list, n);
    match first_index(list, p) {
        Some(i) => {
            assert forall|k: int| 0 <= k < removed.len() implies removed[k] != n by {
                if k < i {
                    assert(removed[k] == list[k]);
                } else {
                    assert(removed[k] == list[k + 1]);
                }
            }
            assert forall|a: int, b: int| 0 <= a < removed.len() && 0 <= b < removed.len() && a != b implies removed[a]
                != removed[b] by {
                let a0 = if a < i { a } else { a + 1 };
                let b0 = if b < i { b } else { b + 1 };
                assert(removed[a] == list[a0]);
                assert(removed[b] == list[b0]);
            }
        },
        None => {
            assert forall|k: int| 0 <= k < list.len() implies list[k] != n by {
                assert(!p(list[k]));
            }
        },
    }
}

} // verus!
