use dlms_interface::association_ln::AssociationLn;
use dlms_interface::descriptor::{AccessMode, AccessRight, CosemObjectDescriptor, UserInfo};
use dlms_interface::{CosemObject, DataObject, ObisCode};

#[test]
fn test_association_ln_class_id() {
    let assoc = AssociationLn::with_default_obis();
    assert_eq!(assoc.class_id(), 15);
}

#[test]
fn test_association_ln_obis_code() {
    let assoc = AssociationLn::with_default_obis();
    assert_eq!(assoc.obis_code(), AssociationLn::default_obis());
}

#[test]
fn test_association_ln_add_object() {
    let mut assoc = AssociationLn::with_default_obis();
    let obis = ObisCode::new(1, 1, 1, 8, 0, 255);
    let desc = CosemObjectDescriptor::new(3, obis, 0);

    assoc.add_object(desc);

    assert!(assoc.has_object(3, obis));
}

#[test]
fn test_association_ln_remove_object() {
    let mut assoc = AssociationLn::with_default_obis();
    let obis = ObisCode::new(1, 1, 1, 8, 0, 255);
    let desc = CosemObjectDescriptor::new(3, obis, 0);

    assoc.add_object(desc);
    assert!(assoc.remove_object(3, obis));
    assert!(!assoc.has_object(3, obis));
}

#[test]
fn test_association_ln_add_user() {
    let mut assoc = AssociationLn::with_default_obis();
    let user = UserInfo::new(1).with_name("Admin".to_string());

    assoc.add_user(user).unwrap();
    let retrieved = assoc.get_user(1);
    assert!(retrieved.is_some());
    assert_eq!(retrieved.unwrap().user_name, Some("Admin".to_string()));
}

#[test]
fn test_association_ln_invalid_user() {
    let mut assoc = AssociationLn::with_default_obis();
    let user = UserInfo::new(0);

    assert!(assoc.add_user(user).is_err());
}

#[test]
fn test_association_ln_access_rights() {
    let mut assoc = AssociationLn::with_default_obis();
    let mut rights = AccessRight::new(1);
    rights.add_attribute_right(2, AccessMode::ReadWrite);

    assoc.add_access_right(rights);

    let retrieved = assoc.get_access_rights(1);
    assert!(retrieved.is_some());
    assert!(retrieved.unwrap().can_access_attribute(2, AccessMode::ReadWrite));
}

#[test]
fn test_association_ln_get_logical_name() {
    let assoc = AssociationLn::with_default_obis();
    let result = assoc.get_attribute(1, None).unwrap();

    match result {
        DataObject::OctetString(bytes) => {
            assert_eq!(bytes.len(), 6);
            assert_eq!(bytes, AssociationLn::default_obis().to_bytes());
        }
        _ => panic!("Expected OctetString"),
    }
}

#[test]
fn test_association_ln_set_secret() {
    let mut assoc = AssociationLn::with_default_obis();
    let secret = vec![0x31, 0x32, 0x33, 0x34];

    assoc.set_secret(Some(secret.clone()));

    let retrieved = assoc.get_secret();
    assert_eq!(retrieved, Some(secret));
}

#[test]
fn test_association_ln_verify_user() {
    let mut assoc = AssociationLn::with_default_obis();
    let password = vec![0x31, 0x32, 0x33, 0x34];
    let user = UserInfo::new(1)
        .with_name("Admin".to_string())
        .with_password(password.clone());

    assoc.add_user(user).unwrap();

    assert!(assoc.verify_user(1, &password));
    assert!(!assoc.verify_user(1, &[0x00, 0x00, 0x00, 0x00]));
}

#[test]
fn test_add_object_twice_keeps_one_entry() {
    let mut assoc = AssociationLn::with_default_obis();
    let obis = ObisCode::new(1, 1, 1, 8, 0, 255);
    assoc.add_object(CosemObjectDescriptor::new(3, obis, 0));
    assoc.add_object(CosemObjectDescriptor::new(3, obis, 1));
    assert_eq!(assoc.get_objects(), vec![CosemObjectDescriptor::new(3, obis, 0)]);
    assert!(!assoc.remove_object(4, obis));
    match assoc.get_attribute(2, None).unwrap() {
        DataObject::Array(items) => {
            assert_eq!(items.len(), 1);
            assert_eq!(
                items[0],
                DataObject::Structure(vec![
                    DataObject::Unsigned16(3),
                    DataObject::OctetString(vec![1, 1, 1, 8, 0, 255]),
                    DataObject::Unsigned8(0)
                ])
            );
        }
        _ => panic!("Expected Array"),
    }
}

#[test]
fn test_add_access_right_replaces_the_users_entry() {
    let mut assoc = AssociationLn::with_default_obis();
    let mut first = AccessRight::new(1);
    first.add_attribute_right(2, AccessMode::ReadOnly);
    let mut other = AccessRight::new(2);
    other.add_attribute_right(2, AccessMode::WriteOnly);
    let mut second = AccessRight::new(1);
    second.add_attribute_right(2, AccessMode::WriteOnly);
    assoc.add_access_right(first);
    assoc.add_access_right(other);
    assoc.add_access_right(second);
    assert!(assoc.can_access_attribute(1, 3, ObisCode::new(0, 0, 1, 0, 0, 255), 2, AccessMode::WriteOnly));
    assert!(!assoc.can_access_attribute(1, 3, ObisCode::new(0, 0, 1, 0, 0, 255), 2, AccessMode::ReadOnly));
    assert!(!assoc.can_access_attribute(9, 3, ObisCode::new(0, 0, 1, 0, 0, 255), 2, AccessMode::ReadOnly));
    match assoc.get_attribute(3, None).unwrap() {
        DataObject::Array(items) => {
            assert_eq!(items.len(), 2);
            match &items[0] {
                DataObject::Structure(f) => assert_eq!(f[0], DataObject::Unsigned8(2)),
                _ => panic!("Expected Structure"),
            }
        }
        _ => panic!("Expected Array"),
    }
}

#[test]
fn test_secret_and_mechanism_writes() {
    let mut assoc = AssociationLn::with_default_obis();
    assoc.set_attribute(8, DataObject::OctetString(vec![1, 2]), None).unwrap();
    assert_eq!(assoc.get_secret(), Some(vec![1, 2]));
    assoc.set_attribute(8, DataObject::OctetString(vec![]), None).unwrap();
    assert_eq!(assoc.get_secret(), None);
    assert_eq!(assoc.get_attribute(8, None).unwrap(), DataObject::OctetString(vec![]));
    assert!(assoc.set_attribute(4, DataObject::OctetString(vec![0, 0, 64, 0, 0, 255]), None).is_err());
    assert!(assoc.set_attribute(2, DataObject::Null, None).is_err());
    assert!(assoc.invoke_method(1, None, None).is_err());
}

#[test]
fn test_user_list_encoding() {
    let mut assoc = AssociationLn::with_default_obis();
    assoc.add_user(UserInfo::new(3).with_name("Op".to_string())).unwrap();
    assoc.add_user(UserInfo::new(4)).unwrap();
    assert_eq!(
        assoc.get_attribute(5, None).unwrap(),
        DataObject::Array(vec![
            DataObject::Structure(vec![DataObject::Unsigned8(3), DataObject::Utf8String(b"Op".to_vec())]),
            DataObject::Structure(vec![DataObject::Unsigned8(4), DataObject::Utf8String(vec![])]),
        ])
    );
}

#[test]
fn test_association_ln_read_only_message() {
    let mut assoc = AssociationLn::with_default_obis();
    assert_eq!(
        assoc.set_attribute(2, DataObject::Null, None),
        Err(dlms_interface::DlmsError::AccessDenied("Attribute 2 is read-only".to_string()))
    );
}
