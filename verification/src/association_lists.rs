//! The access-rights list and the user list that both association classes
//! (by logical name and by short name) keep: one entry per user, replaced
//! when the user is added again.
use vstd::prelude::*;
use crate::data_object::DataObject;
use crate::descriptor::{AccessMode, AccessRight, AccessRightView, UserInfo, UserInfoView};
use crate::lists::{first_index, lemma_first_index_at, lemma_first_index_none, lemma_retained_accepted, lemma_retained_step, retained};
use crate::text::string_bytes;
use vstd::utf8::encode_utf8;

verus! {

/// The states of a list of access rights.
pub open spec fn right_views(s: Seq<AccessRight>) -> Seq<AccessRightView> {
    s.map_values(|a: AccessRight| a@)
}

/// The states of a list of users.
pub open spec fn user_views(s: Seq<UserInfo>) -> Seq<UserInfoView> {
    s.map_values(|u: UserInfo| u@)
}

/// The entry belongs to `user_id`.
pub open spec fn right_of(user_id: u8) -> spec_fn(AccessRightView) -> bool {
    |a: AccessRightView| a.user_id == user_id
}

/// The entry belongs to another user than `user_id`.
pub open spec fn right_not_of(user_id: u8) -> spec_fn(AccessRightView) -> bool {
    |a: AccessRightView| a.user_id != user_id
}

/// The user has the identifier `user_id`.
pub open spec fn user_of(user_id: u8) -> spec_fn(UserInfoView) -> bool {
    |u: UserInfoView| u.user_id == user_id
}

/// The user has another identifier than `user_id`.
pub open spec fn user_not_of(user_id: u8) -> spec_fn(UserInfoView) -> bool {
    |u: UserInfoView| u.user_id != user_id
}

/// The list of rights after adding `a`: the entries of other users, in
/// their order, then `a`.
pub open spec fn with_right(list: Seq<AccessRightView>, a: AccessRightView) -> Seq<AccessRightView> {
    retained(list, right_not_of(a.user_id)).push(a)
}

/// The list of users after adding `u`: the other users, in their order,
/// then `u`.
pub open spec fn with_user(list: Seq<UserInfoView>, u: UserInfoView) -> Seq<UserInfoView> {
    retained(list, user_not_of(u.user_id)).push(u)
}

/// The entry of `user_id`, the first one in the list.
pub open spec fn right_lookup(list: Seq<AccessRightView>, user_id: u8) -> Option<AccessRightView> {
    match first_index(list, right_of(user_id)) {
        Some(i) => Some(list[i]),
        None => None,
    }
}

/// The user `user_id`, the first one in the list.
pub open spec fn user_lookup(list: Seq<UserInfoView>, user_id: u8) -> Option<UserInfoView> {
    match first_index(list, user_of(user_id)) {
        Some(i) => Some(list[i]),
        None => None,
    }
}

/// Removes the entry of `right.user_id`, if any, and appends `right`.
pub fn replace_access_right(list: &mut Vec<AccessRight>, right: AccessRight)
    ensures
        right_views(final(list)@) == with_right(right_views(old(list)@), right@),
{
    let ghost old_views = right_views(list@);
    let user_id = right.user_id;
    let mut kept: Vec<AccessRight> = Vec::new();
    let mut i: usize = 0;
    while i < list.len()
        invariant
            i <= list@.len(),
            old_views == right_views(list@),
            right_views(kept@) == retained(old_views.take(i as int), right_not_of(user_id)),
        decreases list@.len() - i,
    {
        proof {
            lemma_retained_step(old_views, right_not_of(user_id), i as int);
        }
        if list[i].user_id != user_id {
            let c = list[i].copy();
            kept.push(c);
            assert(right_views(kept@) =~= retained(old_views.take(i as int), right_not_of(user_id)).push(old_views[i as int]));
        }
        i = i + 1;
    }
    assert(old_views.take(list@.len() as int) =~= old_views);
    kept.push(right);
    assert(right_views(kept@) =~= with_right(old_views, right@));
    *list = kept;
}

/// Removes the user `user.user_id`, if present, and appends `user`.
pub fn replace_user(list: &mut Vec<UserInfo>, user: UserInfo)
    ensures
        user_views(final(list)@) == with_user(user_views(old(list)@), user@),
{
    let ghost old_views = user_views(list@);
    let user_id = user.user_id;
    let mut kept: Vec<UserInfo> = Vec::new();
    let mut i: usize = 0;
    while i < list.len()
        invariant
            i <= list@.len(),
            old_views == user_views(list@),
            user_views(kept@) == retained(old_views.take(i as int), user_not_of(user_id)),
        decreases list@.len() - i,
    {
        proof {
            lemma_retained_step(old_views, user_not_of(user_id), i as int);
        }
        if list[i].user_id != user_id {
            let c = list[i].copy();
            kept.push(c);
            assert(user_views(kept@) =~= retained(old_views.take(i as int), user_not_of(user_id)).push(old_views[i as int]));
        }
        i = i + 1;
    }
    assert(old_views.take(list@.len() as int) =~= old_views);
    kept.push(user);
    assert(user_views(kept@) =~= with_user(old_views, user@));
    *list = kept;
}

/// A copy of the first entry of `user_id`.
pub fn find_access_right(list: &Vec<AccessRight>, user_id: u8) -> (r: Option<AccessRight>)
    ensures
        match r {
            Some(a) => right_lookup(right_views(list@), user_id) == Some(a@),
            None => right_lookup(right_views(list@), user_id) is None,
        },
{
    let ghost views = right_views(list@);
    let mut i: usize = 0;
    while i < list.len()
        invariant
            i <= list@.len(),
            views == right_views(list@),
            forall|j: int| 0 <= j < i ==> !right_of(user_id)(#[trigger] views[j]),
        decreases list@.len() - i,
    {
        if list[i].user_id == user_id {
            proof {
                lemma_first_index_at(views, right_of(user_id), i as int);
            }
            return Some(list[i].copy());
        }
        i = i + 1;
    }
    proof {
        lemma_first_index_none(views, right_of(user_id));
    }
    None
}

/// A copy of the first user `user_id`.
pub fn find_user(list: &Vec<UserInfo>, user_id: u8) -> (r: Option<UserInfo>)
    ensures
        match r {
            Some(u) => user_lookup(user_views(list@), user_id) == Some(u@),
            None => user_lookup(user_views(list@), user_id) is None,
        },
{
    let ghost views = user_views(list@);
    let mut i: usize = 0;
    while i < list.len()
        invariant
            i <= list@.len(),
            views == user_views(list@),
            forall|j: int| 0 <= j < i ==> !user_of(user_id)(#[trigger] views[j]),
        decreases list@.len() - i,
    {
        if list[i].user_id == user_id {
            proof {
                lemma_first_index_at(views, user_of(user_id), i as int);
            }
            return Some(list[i].copy());
        }
        i = i + 1;
    }
    proof {
        lemma_first_index_none(views, user_of(user_id));
    }
    None
}

/// The user `user_id` is present and holds exactly `password`.
pub open spec fn password_matches(list: Seq<UserInfoView>, user_id: u8, password: Seq<u8>) -> bool {
    match user_lookup(list, user_id) {
        Some(u) => u.password == Some(password),
        None => false,
    }
}

/// The first user `user_id` holds exactly `password`.
pub fn check_password(list: &Vec<UserInfo>, user_id: u8, password: &[u8]) -> (r: bool)
    ensures
        r == password_matches(user_views(list@), user_id, password@),
{
    match find_user(list, user_id) {
        Some(user) => match &user.password {
            Some(stored) => bytes_equal(stored.as_slice(), password),
            None => false,
        },
        None => false,
    }
}

/// The two byte strings are equal.
pub fn bytes_equal(a: &[u8], b: &[u8]) -> (r: bool)
    ensures
        r == (a@ == b@),
{
    if a.len() != b.len() {
        return false;
    }
    let mut i: usize = 0;
    while i < a.len()
        invariant
            a@.len() == b@.len(),
            i <= a@.len(),
            forall|j: int| 0 <= j < i ==> a@[j] == b@[j],
        decreases a@.len() - i,
    {
        if a[i] != b[i] {
            return false;
        }
        i = i + 1;
    }
    assert(a@ =~= b@);
    true
}

/// `d` is `Structure[Unsigned8(id), Unsigned8(mode code)]`.
pub open spec fn is_mode_pair(d: DataObject, p: (u8, AccessMode)) -> bool {
    d matches DataObject::Structure(f) && f@.len() == 2 && f@[0] == DataObject::Unsigned8(p.0)
        && f@[1] == DataObject::Unsigned8(p.1.spec_value())
}

/// `d` is the array of the pairs of `ps`, in order.
pub open spec fn is_mode_pairs(d: DataObject, ps: Seq<(u8, AccessMode)>) -> bool {
    d matches DataObject::Array(items) && items@.len() == ps.len() && forall|i: int|
        0 <= i < ps.len() ==> is_mode_pair(#[trigger] items@[i], ps[i])
}

/// `d` is `Structure[Unsigned8(user), attribute pairs, method pairs]`.
pub open spec fn is_right_encoding(d: DataObject, a: AccessRightView) -> bool {
    d matches DataObject::Structure(f) && f@.len() == 3 && f@[0] == DataObject::Unsigned8(a.user_id)
        && is_mode_pairs(f@[1], a.attribute_rights) && is_mode_pairs(f@[2], a.method_rights)
}

/// `d` is the array of the encodings of the rights, in order.
pub open spec fn is_rights_table(d: DataObject, rs: Seq<AccessRightView>) -> bool {
    d matches DataObject::Array(items) && items@.len() == rs.len() && forall|i: int|
        0 <= i < rs.len() ==> is_right_encoding(#[trigger] items@[i], rs[i])
}

/// The UTF-8 bytes of the user's name, none for no name.
pub open spec fn name_bytes(u: UserInfoView) -> Seq<u8> {
    match u.user_name {
        Some(n) => encode_utf8(n),
        None => Seq::empty(),
    }
}

/// `d` is `Structure[Unsigned8(user), Utf8String(name bytes)]`.
pub open spec fn is_user_encoding(d: DataObject, u: UserInfoView) -> bool {
    d matches DataObject::Structure(f) && f@.len() == 2 && f@[0] == DataObject::Unsigned8(u.user_id)
        && (f@[1] matches DataObject::Utf8String(b) && b@ == name_bytes(u))
}

/// `d` is the array of the encodings of the users, in order.
pub open spec fn is_users_table(d: DataObject, us: Seq<UserInfoView>) -> bool {
    d matches DataObject::Array(items) && items@.len() == us.len() && forall|i: int|
        0 <= i < us.len() ==> is_user_encoding(#[trigger] items@[i], us[i])
}

fn encode_mode_pairs(ps: &Vec<(u8, AccessMode)>) -> (r: DataObject)
    ensures
        is_mode_pairs(r, ps@),
{
    let mut items: Vec<DataObject> = Vec::new();
    let mut i: usize = 0;
    while i < ps.len()
        invariant
            i <= ps@.len(),
            items@.len() == i,
            forall|j: int| 0 <= j < i ==> is_mode_pair(#[trigger] items@[j], ps@[j]),
        decreases ps@.len() - i,
    {
        let (id, mode) = ps[i];
        let mut pair: Vec<DataObject> = Vec::new();
        pair.push(DataObject::Unsigned8(id));
        pair.push(DataObject::Unsigned8(mode.value()));
        items.push(DataObject::Structure(pair));
        i = i + 1;
    }
    DataObject::Array(items)
}

/// The access rights list as an array of structures.
pub fn encode_access_rights(list: &Vec<AccessRight>) -> (r: DataObject)
    ensures
        is_rights_table(r, right_views(list@)),
{
    let ghost views = right_views(list@);
    let mut items: Vec<DataObject> = Vec::new();
    let mut i: usize = 0;
    while i < list.len()
        invariant
            i <= list@.len(),
            views == right_views(list@),
            items@.len() == i,
            forall|j: int| 0 <= j < i ==> is_right_encoding(#[trigger] items@[j], views[j]),
        decreases list@.len() - i,
    {
        let a = &list[i];
        let mut fields: Vec<DataObject> = Vec::new();
        fields.push(DataObject::Unsigned8(a.user_id));
        fields.push(encode_mode_pairs(&a.attribute_rights));
        fields.push(encode_mode_pairs(&a.method_rights));
        items.push(DataObject::Structure(fields));
        i = i + 1;
    }
    DataObject::Array(items)
}

/// The user list as an array of structures.
pub fn encode_users(list: &Vec<UserInfo>) -> (r: DataObject)
    ensures
        is_users_table(r, user_views(list@)),
{
    let ghost views = user_views(list@);
    let mut items: Vec<DataObject> = Vec::new();
    let mut i: usize = 0;
    while i < list.len()
        invariant
            i <= list@.len(),
            views == user_views(list@),
            items@.len() == i,
            forall|j: int| 0 <= j < i ==> is_user_encoding(#[trigger] items@[j], views[j]),
        decreases list@.len() - i,
    {
        let u = &list[i];
        let name: Vec<u8> = match &u.user_name {
            Some(n) => string_bytes(n),
            None => Vec::new(),
        };
        let mut fields: Vec<DataObject> = Vec::new();
        fields.push(DataObject::Unsigned8(u.user_id));
        fields.push(DataObject::Utf8String(name));
        items.push(DataObject::Structure(fields));
        i = i + 1;
    }
    DataObject::Array(items)
}

/// After adding rights for a user, looking the user up gives exactly those
/// rights, no other entry for the user is left, and the entries of the
/// other users stay, in their order.
pub proof fn lemma_right_lookup_after_add(list: Seq<AccessRightView>, a: AccessRightView)
    ensures
        right_lookup(with_right(list, a), a.user_id) == Some(a),
        forall|i: int| 0 <= i < with_right(list, a).len() - 1 ==> (#[trigger] with_right(list, a)[i]).user_id != a.user_id,
        with_right(list, a).drop_last() == retained(list, right_not_of(a.user_id)),
{
    let kept = retained(list, right_not_of(a.user_id));
    lemma_retained_accepted(list, right_not_of(a.user_id));
    let l = with_right(list, a);
    assert forall|j: int| 0 <= j < kept.len() implies !right_of(a.user_id)(#[trigger] l[j]) by {
        assert(l[j] == kept[j]);
        assert(right_not_of(a.user_id)(kept[j]));
    }
    lemma_first_index_at(l, right_of(a.user_id), kept.len() as int);
    assert(l.drop_last() =~= kept);
}

/// After adding a user, looking the identifier up gives exactly that user,
/// and no other entry with that identifier is left.
pub proof fn lemma_user_lookup_after_add(list: Seq<UserInfoView>, u: UserInfoView)
    ensures
        user_lookup(with_user(list, u), u.user_id) == Some(u),
        forall|i: int| 0 <= i < with_user(list, u).len() - 1 ==> (#[trigger] with_user(list, u)[i]).user_id != u.user_id,
{
    let kept = retained(list, user_not_of(u.user_id));
    lemma_retained_accepted(list, user_not_of(u.user_id));
    let l = with_user(list, u);
    assert forall|j: int| 0 <= j < kept.len() implies !user_of(u.user_id)(#[trigger] l[j]) by {
        assert(l[j] == kept[j]);
        assert(user_not_of(u.user_id)(kept[j]));
    }
    lemma_first_index_at(l, user_of(u.user_id), kept.len() as int);
}

} // verus!
