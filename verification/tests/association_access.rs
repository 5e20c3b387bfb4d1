use dlms_interface::association_access::{AssociationAccessResolver, AssociationObjectListEntry, CosemInvocationContext, UserAccessEntry, UserObjectAccessGrant, enforce_attribute_read, enforce_attribute_write, enforce_method_execute};
use dlms_interface::descriptor::{AccessMode, CosemObjectDescriptor};
use dlms_interface::{DlmsError, ObisCode};
use std::sync::Arc;

fn register() -> ObisCode {
    ObisCode::new(1, 0, 1, 8, 0, 255)
}

fn resolver() -> AssociationAccessResolver {
    let mut entry = AssociationObjectListEntry::new(3, register(), 0);
    entry.attribute_access.push((2, AccessMode::ReadOnly));
    entry.attribute_access.push((3, AccessMode::AuthReadWrite));
    let open = AssociationObjectListEntry::from_descriptor(CosemObjectDescriptor::new(8, ObisCode::new(0, 0, 1, 0, 0, 255), 0));
    let mut grant = UserObjectAccessGrant::new(3, register());
    grant.add_attribute_right(2, AccessMode::ReadWrite);
    grant.add_method_right(1, AccessMode::AuthReadWrite);
    let mut user = UserAccessEntry::new(7);
    user.add_object_grant(grant);
    AssociationAccessResolver::new(vec![entry, open], vec![user])
}

#[test]
fn test_baseline_modes() {
    let r = resolver();
    assert_eq!(r.effective_attribute_mode_async(None, 3, register(), 2).unwrap(), AccessMode::ReadOnly);
    assert_eq!(r.effective_attribute_mode_async(None, 3, register(), 9).unwrap(), AccessMode::NoAccess);
    assert_eq!(
        r.effective_attribute_mode_async(None, 8, ObisCode::new(0, 0, 1, 0, 0, 255), 9).unwrap(),
        AccessMode::ReadWrite
    );
    assert_eq!(r.effective_method_mode_async(None, 3, register(), 1).unwrap(), AccessMode::ReadWrite);
}

#[test]
fn test_user_grant_overlays_baseline() {
    let r = resolver();
    assert_eq!(r.effective_attribute_mode_async(Some(7), 3, register(), 2).unwrap(), AccessMode::ReadWrite);
    assert_eq!(r.effective_attribute_mode_async(Some(7), 3, register(), 3).unwrap(), AccessMode::AuthReadWrite);
    assert_eq!(r.effective_attribute_mode_async(Some(8), 3, register(), 2).unwrap(), AccessMode::ReadOnly);
    assert_eq!(r.effective_method_mode_async(Some(7), 3, register(), 1).unwrap(), AccessMode::AuthReadWrite);
}

#[test]
fn test_unlisted_object_is_denied() {
    let r = resolver();
    match r.effective_attribute_mode_async(None, 4, register(), 2) {
        Err(DlmsError::AccessDenied(_)) => {}
        _ => panic!("Expected AccessDenied"),
    }
    assert!(r.require_attribute_read(None, true, 4, register(), 2).is_err());
}

#[test]
fn test_empty_object_list_allows_everything() {
    let r = AssociationAccessResolver::new(vec![], vec![]);
    assert_eq!(r.effective_attribute_mode_async(Some(1), 1, register(), 1).unwrap(), AccessMode::ReadWrite);
    assert!(r.require_attribute_write(None, false, 1, register(), 1).is_ok());
    assert!(r.require_method_execute(None, false, 1, register(), 1).is_ok());
}

#[test]
fn test_require_checks_mode_and_authentication() {
    let r = resolver();
    assert!(r.require_attribute_read(None, false, 3, register(), 2).is_ok());
    assert!(r.require_attribute_write(None, false, 3, register(), 2).is_err());
    assert!(r.require_attribute_read(None, false, 3, register(), 3).is_err());
    assert!(r.require_attribute_read(None, true, 3, register(), 3).is_ok());
    assert!(r.require_method_execute(Some(7), false, 3, register(), 1).is_err());
    assert!(r.require_method_execute(Some(7), true, 3, register(), 1).is_ok());
}

#[test]
fn test_enforce_without_context_allows() {
    assert!(enforce_attribute_read(None, 99, register(), 99).is_ok());
    assert!(enforce_attribute_write(None, 99, register(), 99).is_ok());
    assert!(enforce_method_execute(None, 99, register(), 99).is_ok());
    let ctx = CosemInvocationContext::new(Some(7), false, Arc::new(resolver()));
    assert!(enforce_attribute_write(Some(&ctx), 3, register(), 2).is_ok());
    assert!(enforce_attribute_read(Some(&ctx), 3, register(), 9).is_err());
    assert!(enforce_method_execute(Some(&ctx), 3, register(), 1).is_err());
}

#[test]
fn test_grant_rights_are_replaced() {
    let mut grant = UserObjectAccessGrant::new(3, register()).with_version(1);
    grant.add_attribute_right(2, AccessMode::ReadOnly);
    grant.add_attribute_right(4, AccessMode::WriteOnly);
    grant.add_attribute_right(2, AccessMode::NoAccess);
    assert_eq!(grant.attribute_access, vec![(4, AccessMode::WriteOnly), (2, AccessMode::NoAccess)]);
    let mut user = UserAccessEntry::new(1);
    user.add_object_grant(grant.clone());
    user.add_object_grant(UserObjectAccessGrant::new(3, register()));
    user.add_object_grant(UserObjectAccessGrant::new(3, register()).with_version(1));
    assert_eq!(user.object_grants.len(), 2);
    assert_eq!(user.object_grants[0].version, None);
    assert!(user.object_grants[1].attribute_access.is_empty());
}

#[test]
fn test_grant_version_must_match() {
    let mut entry = AssociationObjectListEntry::new(3, register(), 2);
    entry.attribute_access.push((2, AccessMode::ReadOnly));
    let mut grant = UserObjectAccessGrant::new(3, register()).with_version(1);
    grant.add_attribute_right(2, AccessMode::ReadWrite);
    let mut user = UserAccessEntry::new(5);
    user.add_object_grant(grant);
    let r = AssociationAccessResolver::new(vec![entry], vec![user]);
    assert_eq!(r.effective_attribute_mode_async(Some(5), 3, register(), 2).unwrap(), AccessMode::ReadOnly);
}

#[test]
fn test_denial_messages_name_object() {
    let r = resolver();
    assert_eq!(
        r.require_attribute_read(None, false, 3, register(), 9),
        Err(DlmsError::AccessDenied("Read denied for attribute 9 on 1-0:1.8.0.255 (class 3)".to_string()))
    );
    assert_eq!(
        r.require_attribute_read(None, false, 4, register(), 2),
        Err(DlmsError::AccessDenied("Object not visible in association: class 4 1-0:1.8.0.255".to_string()))
    );
}
