//! Which objects an association shows and what each user may do with them:
//! the object list gives a baseline mode per attribute and method, and a
//! user's grant for an object overrides it entry by entry.
use vstd::prelude::*;
use vstd::string::StringExecFns;
use std::sync::Arc;
use crate::cosem_object::denied;
use crate::data_object::copy_vec;
use crate::descriptor::{find_mode, first_mode, lemma_access_rights, without_auth, AccessMode, CosemObjectDescriptor};
use crate::error::{access_denied, access_denied_text, text_around, DlmsError, DlmsResult};
use crate::lists::{
    first_index, lemma_first_index_at, lemma_first_index_none, lemma_retained_accepted,
    lemma_retained_step, retained,
};
use crate::obis::ObisCode;

verus! {

/// An object visible in the association, with its baseline access. An
/// empty attribute list grants read-write on every attribute; a non-empty
/// one grants the listed attributes only. Methods likewise.
#[derive(Debug, Clone, PartialEq, Eq)]
pub struct AssociationObjectListEntry {
    pub class_id: u16,
    pub logical_name: ObisCode,
    pub version: u8,
    pub attribute_access: Vec<(u8, AccessMode)>,
    pub method_access: Vec<(u8, AccessMode)>,
}

/// The state of an [`AssociationObjectListEntry`].
pub struct ObjectEntryView {
    pub class_id: u16,
    pub logical_name: ObisCode,
    pub version: u8,
    pub attribute_access: Seq<(u8, AccessMode)>,
    pub method_access: Seq<(u8, AccessMode)>,
}

impl View for AssociationObjectListEntry {
    type V = ObjectEntryView;

    open spec fn view(&self) -> ObjectEntryView {
        ObjectEntryView {
            class_id: self.class_id,
            logical_name: self.logical_name,
            version: self.version,
            attribute_access: self.attribute_access@,
            method_access: self.method_access@,
        }
    }
}

impl AssociationObjectListEntry {
    pub fn new(class_id: u16, logical_name: ObisCode, version: u8) -> (r: AssociationObjectListEntry)
        ensures
            r@ == (ObjectEntryView {
                class_id,
                logical_name,
                version,
                attribute_access: Seq::empty(),
                method_access: Seq::empty(),
            }),
    {
        AssociationObjectListEntry {
            class_id,
            logical_name,
            version,
            attribute_access: Vec::new(),
            method_access: Vec::new(),
        }
    }

    /// An entry for the described object, with open access.
    pub fn from_descriptor(desc: CosemObjectDescriptor) -> (r: AssociationObjectListEntry)
        ensures
            r@ == (ObjectEntryView {
                class_id: desc.class_id,
                logical_name: desc.logical_name,
                version: desc.version,
                attribute_access: Seq::empty(),
                method_access: Seq::empty(),
            }),
    {
        Self::new(desc.class_id, desc.logical_name, desc.version)
    }
}

/// A user's access to one object, overriding the baseline entry by entry.
/// A version of `None` matches any version of the object.
#[derive(Debug, Clone, PartialEq, Eq)]
pub struct UserObjectAccessGrant {
    pub class_id: u16,
    pub logical_name: ObisCode,
    pub version: Option<u8>,
    pub attribute_access: Vec<(u8, AccessMode)>,
    pub method_access: Vec<(u8, AccessMode)>,
}

/// The state of a [`UserObjectAccessGrant`].
pub struct GrantView {
    pub class_id: u16,
    pub logical_name: ObisCode,
    pub version: Option<u8>,
    pub attribute_access: Seq<(u8, AccessMode)>,
    pub method_access: Seq<(u8, AccessMode)>,
}

impl View for UserObjectAccessGrant {
    type V = GrantView;

    open spec fn view(&self) -> GrantView {
        GrantView {
            class_id: self.class_id,
            logical_name: self.logical_name,
            version: self.version,
            attribute_access: self.attribute_access@,
            method_access: self.method_access@,
        }
    }
}

/// The entry is for another id than `id`.
pub open spec fn other_id(id: u8) -> spec_fn((u8, AccessMode)) -> bool {
    |p: (u8, AccessMode)| p.0 != id
}

/// The rights after setting `mode` for `id`: the entries for other ids, in
/// their order, then `(id, mode)`.
pub open spec fn with_mode(access: Seq<(u8, AccessMode)>, id: u8, mode: AccessMode) -> Seq<(u8, AccessMode)> {
    retained(access, other_id(id)).push((id, mode))
}

/// Removes the entries for `id` and appends `(id, mode)`.
fn set_mode(access: &mut Vec<(u8, AccessMode)>, id: u8, mode: AccessMode)
    ensures
        final(access)@ == with_mode(old(access)@, id, mode),
{
    let ghost before = access@;
    let mut kept: Vec<(u8, AccessMode)> = Vec::new();
    let mut i: usize = 0;
    while i < access.len()
        invariant
            i <= access@.len(),
            before == access@,
            kept@ == retained(before.take(i as int), other_id(id)),
        decreases access@.len() - i,
    {
        proof {
            lemma_retained_step(before, other_id(id), i as int);
        }
        if access[i].0 != id {
            kept.push(access[i]);
        }
        i = i + 1;
    }
    assert(before.take(access@.len() as int) =~= before);
    kept.push((id, mode));
    *access = kept;
}

impl UserObjectAccessGrant {
    pub fn new(class_id: u16, logical_name: ObisCode) -> (r: UserObjectAccessGrant)
        ensures
            r@ == (GrantView {
                class_id,
                logical_name,
                version: None,
                attribute_access: Seq::empty(),
                method_access: Seq::empty(),
            }),
    {
        UserObjectAccessGrant {
            class_id,
            logical_name,
            version: None,
            attribute_access: Vec::new(),
            method_access: Vec::new(),
        }
    }

    pub fn with_version(self, version: u8) -> (r: UserObjectAccessGrant)
        ensures
            r@ == (GrantView { version: Some(version), ..self@ }),
    {
        UserObjectAccessGrant { version: Some(version), ..self }
    }

    /// Sets the mode of an attribute, replacing any earlier entry for it.
    pub fn add_attribute_right(&mut self, attribute_id: u8, mode: AccessMode)
        ensures
            final(self)@ == (GrantView {
                attribute_access: with_mode(old(self)@.attribute_access, attribute_id, mode),
                ..old(self)@
            }),
    {
        set_mode(&mut self.attribute_access, attribute_id, mode);
    }

    /// Sets the mode of a method, replacing any earlier entry for it.
    pub fn add_method_right(&mut self, method_id: u8, mode: AccessMode)
        ensures
            final(self)@ == (GrantView {
                method_access: with_mode(old(self)@.method_access, method_id, mode),
                ..old(self)@
            }),
    {
        set_mode(&mut self.method_access, method_id, mode);
    }

    /// A copy of the grant.
    pub fn copy(&self) -> (r: UserObjectAccessGrant)
        ensures
            r@ == self@,
    {
        UserObjectAccessGrant {
            class_id: self.class_id,
            logical_name: self.logical_name,
            version: self.version,
            attribute_access: copy_vec(&self.attribute_access),
            method_access: copy_vec(&self.method_access),
        }
    }
}

/// After setting a mode for an id, the mode for that id is the one set.
pub proof fn lemma_mode_after_set(access: Seq<(u8, AccessMode)>, id: u8, mode: AccessMode)
    ensures
        first_mode(with_mode(access, id, mode), id) == Some(mode),
{
    let kept = retained(access, other_id(id));
    lemma_retained_accepted(access, other_id(id));
    lemma_first_mode_after_others(kept, id, mode);
}

/// Appending `(id, mode)` behind entries for other ids makes `mode` the
/// first mode for `id`.
proof fn lemma_first_mode_after_others(kept: Seq<(u8, AccessMode)>, id: u8, mode: AccessMode)
    requires
        forall|i: int| 0 <= i < kept.len() ==> other_id(id)(#[trigger] kept[i]),
    ensures
        first_mode(kept.push((id, mode)), id) == Some(mode),
    decreases kept.len(),
{
    let s = kept.push((id, mode));
    if kept.len() > 0 {
        assert(other_id(id)(kept[0]));
        assert(s.drop_first() =~= kept.drop_first().push((id, mode)));
        assert forall|i: int| 0 <= i < kept.drop_first().len() implies other_id(id)(#[trigger] kept.drop_first()[i]) by {
            assert(kept.drop_first()[i] == kept[i + 1]);
        }
        lemma_first_mode_after_others(kept.drop_first(), id, mode);
    }
}

/// The access of one user, per object.
#[derive(Debug, Clone, PartialEq, Eq)]
pub struct UserAccessEntry {
    pub user_id: u8,
    pub object_grants: Vec<UserObjectAccessGrant>,
}

/// The state of a [`UserAccessEntry`].
pub struct UserAccessView {
    pub user_id: u8,
    pub object_grants: Seq<GrantView>,
}

/// The states of a list of grants.
pub open spec fn grant_views(s: Seq<UserObjectAccessGrant>) -> Seq<GrantView> {
    s.map_values(|g: UserObjectAccessGrant| g@)
}

impl View for UserAccessEntry {
    type V = UserAccessView;

    open spec fn view(&self) -> UserAccessView {
        UserAccessView { user_id: self.user_id, object_grants: grant_views(self.object_grants@) }
    }
}

/// The grant is for another object, or another version, than `grant`.
pub open spec fn other_grant(grant: GrantView) -> spec_fn(GrantView) -> bool {
    |g: GrantView| !(g.class_id == grant.class_id && g.logical_name == grant.logical_name && g.version == grant.version)
}

/// The grants after adding `grant`: those for other objects or versions,
/// in their order, then `grant`.
pub open spec fn with_grant(grants: Seq<GrantView>, grant: GrantView) -> Seq<GrantView> {
    retained(grants, other_grant(grant)).push(grant)
}

impl UserAccessEntry {
    pub fn new(user_id: u8) -> (r: UserAccessEntry)
        ensures
            r@ == (UserAccessView { user_id, object_grants: Seq::empty() }),
    {
        let r = UserAccessEntry { user_id, object_grants: Vec::new() };
        assert(r@.object_grants =~= Seq::<GrantView>::empty());
        r
    }

    /// Adds a grant, replacing a grant for the same object and version.
    pub fn add_object_grant(&mut self, grant: UserObjectAccessGrant)
        ensures
            final(self)@ == (UserAccessView {
                object_grants: with_grant(old(self)@.object_grants, grant@),
                ..old(self)@
            }),
    {
        let ghost before = grant_views(self.object_grants@);
        let ghost keep = other_grant(grant@);
        let mut kept: Vec<UserObjectAccessGrant> = Vec::new();
        let mut i: usize = 0;
        while i < self.object_grants.len()
            invariant
                i <= self.object_grants@.len(),
                before == grant_views(self.object_grants@),
                keep == other_grant(grant@),
                grant_views(kept@) == retained(before.take(i as int), keep),
            decreases self.object_grants@.len() - i,
        {
            proof {
                lemma_retained_step(before, keep, i as int);
            }
            let g = &self.object_grants[i];
            if !(g.class_id == grant.class_id && g.logical_name == grant.logical_name && g.version == grant.version) {
                let c = g.copy();
                kept.push(c);
                assert(grant_views(kept@) =~= retained(before.take(i as int), keep).push(before[i as int]));
            }
            i = i + 1;
        }
        assert(before.take(self.object_grants@.len() as int) =~= before);
        kept.push(grant);
        assert(grant_views(kept@) =~= with_grant(before, grant@));
        self.object_grants = kept;
    }
}

/// The states of a list of object entries.
pub open spec fn entry_views(s: Seq<AssociationObjectListEntry>) -> Seq<ObjectEntryView> {
    s.map_values(|e: AssociationObjectListEntry| e@)
}

/// The states of a list of user entries.
pub open spec fn user_access_views(s: Seq<UserAccessEntry>) -> Seq<UserAccessView> {
    s.map_values(|u: UserAccessEntry| u@)
}

/// The state of an [`AssociationAccessResolver`].
pub struct ResolverView {
    pub object_list: Seq<ObjectEntryView>,
    pub user_access_list: Seq<UserAccessView>,
}

/// The entry lists the object `(class_id, logical_name)`.
pub open spec fn entry_for(class_id: u16, logical_name: ObisCode) -> spec_fn(ObjectEntryView) -> bool {
    |e: ObjectEntryView| e.class_id == class_id && e.logical_name == logical_name
}

/// The entry belongs to `user_id`.
pub open spec fn user_entry_for(user_id: u8) -> spec_fn(UserAccessView) -> bool {
    |u: UserAccessView| u.user_id == user_id
}

/// The grant applies to the object at this version.
pub open spec fn grant_for(class_id: u16, logical_name: ObisCode, version: u8) -> spec_fn(GrantView) -> bool {
    |g: GrantView| g.class_id == class_id && g.logical_name == logical_name && (g.version is None || g.version == Some(version))
}

/// The baseline mode of an id: read-write for every id when the list is
/// empty; otherwise the first listed mode, or no access.
pub open spec fn baseline_mode(access: Seq<(u8, AccessMode)>, id: u8) -> AccessMode {
    if access.len() == 0 {
        AccessMode::ReadWrite
    } else {
        match first_mode(access, id) {
            Some(m) => m,
            None => AccessMode::NoAccess,
        }
    }
}

/// The mode after a grant: the grant's first mode for the id where it
/// lists one, the baseline otherwise.
pub open spec fn overlay_mode(access: Seq<(u8, AccessMode)>, id: u8, baseline: AccessMode) -> AccessMode {
    if access.len() == 0 {
        baseline
    } else {
        match first_mode(access, id) {
            Some(m) => m,
            None => baseline,
        }
    }
}

/// The grant of the user's first entry for the object at this version: the
/// first such grant of the first entry of the user.
pub open spec fn user_grant(users: Seq<UserAccessView>, user_id: u8, class_id: u16, logical_name: ObisCode, version: u8) -> Option<GrantView> {
    match first_index(users, user_entry_for(user_id)) {
        Some(i) => match first_index(users[i].object_grants, grant_for(class_id, logical_name, version)) {
            Some(j) => Some(users[i].object_grants[j]),
            None => None,
        },
        None => None,
    }
}

/// The effective mode of an attribute (`for_methods` false) or a method
/// (`for_methods` true) of an object for a user: read-write for everything
/// when the object list is empty; none when the object is not listed;
/// otherwise the baseline of its first entry, overlaid by the user's grant.
pub open spec fn effective_mode(
    r: ResolverView,
    user_id: Option<u8>,
    class_id: u16,
    logical_name: ObisCode,
    id: u8,
    for_methods: bool,
) -> Option<AccessMode> {
    if r.object_list.len() == 0 {
        Some(AccessMode::ReadWrite)
    } else {
        match first_index(r.object_list, entry_for(class_id, logical_name)) {
            None => None,
            Some(i) => {
                let e = r.object_list[i];
                let base = baseline_mode(if for_methods { e.method_access } else { e.attribute_access }, id);
                match user_id {
                    Some(uid) => match user_grant(r.user_access_list, uid, class_id, logical_name, e.version) {
                        Some(g) => Some(overlay_mode(if for_methods { g.method_access } else { g.attribute_access }, id, base)),
                        None => Some(base),
                    },
                    None => Some(base),
                }
            },
        }
    }
}

/// `mode` allows reading, in an association authenticated or not.
pub open spec fn read_allowed(mode: AccessMode, authenticated: bool) -> bool {
    mode.spec_can_read() && (mode.spec_requires_auth() ==> authenticated)
}

/// `mode` allows writing, in an association authenticated or not.
pub open spec fn write_allowed(mode: AccessMode, authenticated: bool) -> bool {
    mode.spec_can_write() && (mode.spec_requires_auth() ==> authenticated)
}

/// `mode` allows invoking a method, in an association authenticated or not.
pub open spec fn execute_allowed(mode: AccessMode, authenticated: bool) -> bool {
    mode != AccessMode::NoAccess && (mode.spec_requires_auth() ==> authenticated)
}

/// The visible objects and the users' grants of an association.
#[derive(Debug, Clone)]
pub struct AssociationAccessResolver {
    object_list: Vec<AssociationObjectListEntry>,
    user_access_list: Vec<UserAccessEntry>,
}

impl View for AssociationAccessResolver {
    type V = ResolverView;

    closed spec fn view(&self) -> ResolverView {
        ResolverView {
            object_list: entry_views(self.object_list@),
            user_access_list: user_access_views(self.user_access_list@),
        }
    }
}

impl AssociationAccessResolver {
    pub fn new(object_list: Vec<AssociationObjectListEntry>, user_access_list: Vec<UserAccessEntry>) -> (r: AssociationAccessResolver)
        ensures
            r@ == (ResolverView {
                object_list: entry_views(object_list@),
                user_access_list: user_access_views(user_access_list@),
            }),
    {
        AssociationAccessResolver { object_list, user_access_list }
    }

    fn baseline_attribute_mode(entry: &AssociationObjectListEntry, attribute_id: u8) -> (r: AccessMode)
        ensures
            r == baseline_mode(entry@.attribute_access, attribute_id),
    {
        if entry.attribute_access.len() == 0 {
            AccessMode::ReadWrite
        } else {
            match find_mode(&entry.attribute_access, attribute_id) {
                Some(m) => m,
                None => AccessMode::NoAccess,
            }
        }
    }

    fn baseline_method_mode(entry: &AssociationObjectListEntry, method_id: u8) -> (r: AccessMode)
        ensures
            r == baseline_mode(entry@.method_access, method_id),
    {
        if entry.method_access.len() == 0 {
            AccessMode::ReadWrite
        } else {
            match find_mode(&entry.method_access, method_id) {
                Some(m) => m,
                None => AccessMode::NoAccess,
            }
        }
    }

    fn overlay_attribute_mode(grant: &UserObjectAccessGrant, attribute_id: u8, baseline: AccessMode) -> (r: AccessMode)
        ensures
            r == overlay_mode(grant@.attribute_access, attribute_id, baseline),
    {
        if grant.attribute_access.len() == 0 {
            baseline
        } else {
            match find_mode(&grant.attribute_access, attribute_id) {
                Some(m) => m,
                None => baseline,
            }
        }
    }

    fn overlay_method_mode(grant: &UserObjectAccessGrant, method_id: u8, baseline: AccessMode) -> (r: AccessMode)
        ensures
            r == overlay_mode(grant@.method_access, method_id, baseline),
    {
        if grant.method_access.len() == 0 {
            baseline
        } else {
            match find_mode(&grant.method_access, method_id) {
                Some(m) => m,
                None => baseline,
            }
        }
    }

    /// The index of the first entry listing the object.
    fn find_entry(&self, class_id: u16, logical_name: ObisCode) -> (r: Option<usize>)
        ensures
            match r {
                Some(i) => i < self.object_list@.len() && first_index(self@.object_list, entry_for(class_id, logical_name)) == Some(i as int),
                None => first_index(self@.object_list, entry_for(class_id, logical_name)) is None,
            },
    {
        let ghost views = self@.object_list;
        let mut i: usize = 0;
        while i < self.object_list.len()
            invariant
                i <= self.object_list@.len(),
                views == entry_views(self.object_list@),
                forall|j: int| 0 <= j < i ==> !entry_for(class_id, logical_name)(#[trigger] views[j]),
            decreases self.object_list@.len() - i,
        {
            if self.object_list[i].class_id == class_id && self.object_list[i].logical_name == logical_name {
                proof {
                    lemma_first_index_at(views, entry_for(class_id, logical_name), i as int);
                }
                return Some(i);
            }
            i = i + 1;
        }
        proof {
            lemma_first_index_none(views, entry_for(class_id, logical_name));
        }
        None
    }

    /// The user's grant for the object at this version.
    fn find_user_grant(&self, user_id: u8, class_id: u16, logical_name: ObisCode, version: u8) -> (r: Option<&UserObjectAccessGrant>)
        ensures
            match r {
                Some(g) => user_grant(self@.user_access_list, user_id, class_id, logical_name, version) == Some(g@),
                None => user_grant(self@.user_access_list, user_id, class_id, logical_name, version) is None,
            },
    {
        let ghost users = self@.user_access_list;
        let mut i: usize = 0;
        while i < self.user_access_list.len()
            invariant
                i <= self.user_access_list@.len(),
                users == user_access_views(self.user_access_list@),
                forall|j: int| 0 <= j < i ==> !user_entry_for(user_id)(#[trigger] users[j]),
            decreases self.user_access_list@.len() - i,
        {
            if self.user_access_list[i].user_id == user_id {
                proof {
                    lemma_first_index_at(users, user_entry_for(user_id), i as int);
                }
                let entry = &self.user_access_list[i];
                let ghost grants = users[i as int].object_grants;
                let ghost pick = grant_for(class_id, logical_name, version);
                let mut j: usize = 0;
                while j < entry.object_grants.len()
                    invariant
                        j <= entry.object_grants@.len(),
                        grants == grant_views(entry.object_grants@),
                        users == user_access_views(self.user_access_list@),
                        i < users.len(),
                        grants == users[i as int].object_grants,
                        first_index(users, user_entry_for(user_id)) == Some(i as int),
                        pick == grant_for(class_id, logical_name, version),
                        forall|k: int| 0 <= k < j ==> !pick(#[trigger] grants[k]),
                    decreases entry.object_grants@.len() - j,
                {
                    let g = &entry.object_grants[j];
                    if g.class_id == class_id && g.logical_name == logical_name && (g.version.is_none() || g.version == Some(version)) {
                        proof {
                            lemma_first_index_at(grants, pick, j as int);
                        }
                        return Some(g);
                    }
                    j = j + 1;
                }
                proof {
                    lemma_first_index_none(grants, pick);
                }
                return None;
            }
            i = i + 1;
        }
        proof {
            lemma_first_index_none(users, user_entry_for(user_id));
        }
        None
    }

    /// The effective mode of an attribute for a user; fails with
    /// `AccessDenied` when the object is not visible.
    pub fn effective_attribute_mode_async(
        &self,
        user_id: Option<u8>,
        class_id: u16,
        logical_name: ObisCode,
        attribute_id: u8,
    ) -> (r: DlmsResult<AccessMode>)
        ensures
            match effective_mode(self@, user_id, class_id, logical_name, attribute_id, false) {
                Some(m) => r == Ok::<AccessMode, DlmsError>(m),
                None => denied(r),
            },
    {
        if self.object_list.len() == 0 {
            return Ok(AccessMode::ReadWrite);
        }
        let idx = match self.find_entry(class_id, logical_name) {
            Some(i) => i,
            None => return Err(access_denied_text(text_around("Object not visible in association: class ", class_id as u64, " ").concat(logical_name.to_text().as_str()))),
        };
        let entry = &self.object_list[idx];
        let mut mode = Self::baseline_attribute_mode(entry, attribute_id);
        if let Some(uid) = user_id {
            if let Some(grant) = self.find_user_grant(uid, class_id, logical_name, entry.version) {
                mode = Self::overlay_attribute_mode(grant, attribute_id, mode);
            }
        }
        Ok(mode)
    }

    /// The effective mode of a method for a user; fails with `AccessDenied`
    /// when the object is not visible.
    pub fn effective_method_mode_async(
        &self,
        user_id: Option<u8>,
        class_id: u16,
        logical_name: ObisCode,
        method_id: u8,
    ) -> (r: DlmsResult<AccessMode>)
        ensures
            match effective_mode(self@, user_id, class_id, logical_name, method_id, true) {
                Some(m) => r == Ok::<AccessMode, DlmsError>(m),
                None => denied(r),
            },
    {
        if self.object_list.len() == 0 {
            return Ok(AccessMode::ReadWrite);
        }
        let idx = match self.find_entry(class_id, logical_name) {
            Some(i) => i,
            None => return Err(access_denied_text(text_around("Object not visible in association: class ", class_id as u64, " ").concat(logical_name.to_text().as_str()))),
        };
        let entry = &self.object_list[idx];
        let mut mode = Self::baseline_method_mode(entry, method_id);
        if let Some(uid) = user_id {
            if let Some(grant) = self.find_user_grant(uid, class_id, logical_name, entry.version) {
                mode = Self::overlay_method_mode(grant, method_id, mode);
            }
        }
        Ok(mode)
    }

    /// Succeeds when the effective mode allows reading the attribute; fails
    /// with `AccessDenied` otherwise.
    pub fn require_attribute_read(
        &self,
        user_id: Option<u8>,
        authenticated: bool,
        class_id: u16,
        logical_name: ObisCode,
        attribute_id: u8,
    ) -> (r: DlmsResult<()>)
        ensures
            r is Ok <==> (effective_mode(self@, user_id, class_id, logical_name, attribute_id, false) matches Some(m)
                && read_allowed(m, authenticated)),
            r is Err ==> denied(r),
    {
        let mode = match self.effective_attribute_mode_async(user_id, class_id, logical_name, attribute_id) {
            Ok(m) => m,
            Err(e) => return Err(e),
        };
        if !mode.can_read() {
            return Err(access_denied_text(text_around("Read denied for attribute ", attribute_id as u64, " on ").concat(logical_name.to_text().as_str()).concat(text_around(" (class ", class_id as u64, ")").as_str())));
        }
        if mode.requires_auth() && !authenticated {
            return Err(access_denied("Authenticated read required"));
        }
        Ok(())
    }

    /// Succeeds when the effective mode allows writing the attribute; fails
    /// with `AccessDenied` otherwise.
    pub fn require_attribute_write(
        &self,
        user_id: Option<u8>,
        authenticated: bool,
        class_id: u16,
        logical_name: ObisCode,
        attribute_id: u8,
    ) -> (r: DlmsResult<()>)
        ensures
            r is Ok <==> (effective_mode(self@, user_id, class_id, logical_name, attribute_id, false) matches Some(m)
                && write_allowed(m, authenticated)),
            r is Err ==> denied(r),
    {
        let mode = match self.effective_attribute_mode_async(user_id, class_id, logical_name, attribute_id) {
            Ok(m) => m,
            Err(e) => return Err(e),
        };
        if !mode.can_write() {
            return Err(access_denied_text(text_around("Write denied for attribute ", attribute_id as u64, " on ").concat(logical_name.to_text().as_str()).concat(text_around(" (class ", class_id as u64, ")").as_str())));
        }
        if mode.requires_auth() && !authenticated {
            return Err(access_denied("Authenticated write required"));
        }
        Ok(())
    }

    /// Succeeds when the effective mode allows invoking the method; fails
    /// with `AccessDenied` otherwise.
    pub fn require_method_execute(
        &self,
        user_id: Option<u8>,
        authenticated: bool,
        class_id: u16,
        logical_name: ObisCode,
        method_id: u8,
    ) -> (r: DlmsResult<()>)
        ensures
            r is Ok <==> (effective_mode(self@, user_id, class_id, logical_name, method_id, true) matches Some(m)
                && execute_allowed(m, authenticated)),
            r is Err ==> denied(r),
    {
        let mode = match self.effective_method_mode_async(user_id, class_id, logical_name, method_id) {
            Ok(m) => m,
            Err(e) => return Err(e),
        };
        if mode == AccessMode::NoAccess {
            return Err(access_denied_text(text_around("Method ", method_id as u64, " execution denied on ").concat(logical_name.to_text().as_str()).concat(text_around(" (class ", class_id as u64, ")").as_str())));
        }
        if mode.requires_auth() && !authenticated {
            return Err(access_denied("Authenticated method invocation required"));
        }
        Ok(())
    }
}

/// The user and association a GET, SET or ACTION runs under.
#[derive(Clone)]
pub struct CosemInvocationContext {
    pub user_id: Option<u8>,
    pub authenticated: bool,
    pub resolver: Arc<AssociationAccessResolver>,
}

impl CosemInvocationContext {
    pub fn new(user_id: Option<u8>, authenticated: bool, resolver: Arc<AssociationAccessResolver>) -> (r: CosemInvocationContext)
        ensures
            r.user_id == user_id,
            r.authenticated == authenticated,
            r.resolver@ == resolver@,
    {
        CosemInvocationContext { user_id, authenticated, resolver }
    }
}

/// Without a context every read is allowed; with one, the context's
/// resolver decides for its user.
pub fn enforce_attribute_read(
    ctx: Option<&CosemInvocationContext>,
    class_id: u16,
    logical_name: ObisCode,
    attribute_id: u8,
) -> (r: DlmsResult<()>)
    ensures
        match ctx {
            None => r is Ok,
            Some(c) => (r is Ok <==> (effective_mode(c.resolver@, c.user_id, class_id, logical_name, attribute_id, false)
                matches Some(m) && read_allowed(m, c.authenticated))) && (r is Err ==> denied(r)),
        },
{
    match ctx {
        None => Ok(()),
        Some(c) => c.resolver.require_attribute_read(c.user_id, c.authenticated, class_id, logical_name, attribute_id),
    }
}

/// Without a context every write is allowed; with one, the context's
/// resolver decides for its user.
pub fn enforce_attribute_write(
    ctx: Option<&CosemInvocationContext>,
    class_id: u16,
    logical_name: ObisCode,
    attribute_id: u8,
) -> (r: DlmsResult<()>)
    ensures
        match ctx {
            None => r is Ok,
            Some(c) => (r is Ok <==> (effective_mode(c.resolver@, c.user_id, class_id, logical_name, attribute_id, false)
                matches Some(m) && write_allowed(m, c.authenticated))) && (r is Err ==> denied(r)),
        },
{
    match ctx {
        None => Ok(()),
        Some(c) => c.resolver.require_attribute_write(c.user_id, c.authenticated, class_id, logical_name, attribute_id),
    }
}

/// Without a context every method may run; with one, the context's
/// resolver decides for its user.
pub fn enforce_method_execute(
    ctx: Option<&CosemInvocationContext>,
    class_id: u16,
    logical_name: ObisCode,
    method_id: u8,
) -> (r: DlmsResult<()>)
    ensures
        match ctx {
            None => r is Ok,
            Some(c) => (r is Ok <==> (effective_mode(c.resolver@, c.user_id, class_id, logical_name, method_id, true)
                matches Some(m) && execute_allowed(m, c.authenticated))) && (r is Err ==> denied(r)),
        },
{
    match ctx {
        None => Ok(()),
        Some(c) => c.resolver.require_method_execute(c.user_id, c.authenticated, class_id, logical_name, method_id),
    }
}

/// An association without an object list allows everything to everyone,
/// authenticated or not; an object it does not list is refused to everyone.
pub proof fn lemma_empty_object_list_allows_all(r: ResolverView, user_id: Option<u8>, class_id: u16, logical_name: ObisCode, id: u8, for_methods: bool, authenticated: bool)
    ensures
        r.object_list.len() == 0 ==> effective_mode(r, user_id, class_id, logical_name, id, for_methods) == Some(AccessMode::ReadWrite)
            && read_allowed(AccessMode::ReadWrite, authenticated) && write_allowed(AccessMode::ReadWrite, authenticated)
            && execute_allowed(AccessMode::ReadWrite, authenticated),
        (r.object_list.len() > 0 && first_index(r.object_list, entry_for(class_id, logical_name)) is None)
            ==> effective_mode(r, user_id, class_id, logical_name, id, for_methods) is None,
{
}

/// Without a user, or for a user without a grant for the object, the
/// effective mode is the object's baseline.
pub proof fn lemma_no_grant_gives_baseline(r: ResolverView, user_id: Option<u8>, class_id: u16, logical_name: ObisCode, id: u8)
    requires
        r.object_list.len() > 0,
        first_index(r.object_list, entry_for(class_id, logical_name)) matches Some(i) && (user_id matches Some(uid)
            ==> user_grant(r.user_access_list, uid, class_id, logical_name, r.object_list[i].version) is None),
    ensures
        effective_mode(r, user_id, class_id, logical_name, id, false) == Some(baseline_mode(
            r.object_list[first_index(r.object_list, entry_for(class_id, logical_name))->0].attribute_access,
            id,
        )),
{
}


/// In an authenticated association a mode allows exactly what its plain
/// counterpart allows; in an unauthenticated one, an authenticated mode
/// allows nothing and a plain mode allows what it grants.
pub proof fn lemma_authenticated_access(m: AccessMode)
    ensures
        read_allowed(m, true) == without_auth(m).spec_can_read(),
        write_allowed(m, true) == without_auth(m).spec_can_write(),
        m.spec_requires_auth() ==> !read_allowed(m, false) && !write_allowed(m, false) && !execute_allowed(m, false),
        !m.spec_requires_auth() ==> read_allowed(m, false) == m.spec_can_read() && write_allowed(m, false)
            == m.spec_can_write(),
{
    lemma_access_rights(m);
}

} // verus!
