use cdb_api::role::Role;

#[test]
fn labels_parse_to_roles() {
    assert_eq!(Role::from_label("admin"), Role::Admin);
    assert_eq!(Role::from_label("anonymous"), Role::Anonymous);
    assert_eq!(Role::from_label("Admin"), Role::Anonymous);
    assert_eq!(Role::from_label("root"), Role::Anonymous);
    assert_eq!(Role::from_label(""), Role::Anonymous);
    assert_eq!(Role::from(String::from("admin")), Role::Admin);
    assert_eq!(Role::from(String::from("superuser")), Role::Anonymous);
}

#[test]
fn roles_are_named_and_shown() {
    assert_eq!(Role::Admin.claim_name(), "Admin");
    assert_eq!(Role::Anonymous.claim_name(), "Anonymous");
    assert_eq!(Role::Admin.describe(), "(admin)");
    assert_eq!(Role::Anonymous.describe(), "(anonymous)");
}
