use requestpim::roles::{get_user_eligible_roles, role_names, roles_from_entries, FetchError, Role,
    RoleEntry};

fn entry(id: Option<&str>, name: Option<&str>) -> RoleEntry {
    RoleEntry { id: id.map(|s| s.to_owned()), name: name.map(|s| s.to_owned()) }
}

#[test]
fn fixture_entries_become_roles_in_order() {
    let body = r#"{
        "value": [
            { "id": "assign-1",
              "roleDefinition": { "resource": { "displayName": "Owner" } } },
            { "id": "assign-2",
              "roleDefinition": { "resource": { "displayName": "Reader" } } },
            { "id": "assign-3",
              "roleDefinition": { "resource": { "displayName": "Contributor" } } }
        ]
    }"#;
    let roles = get_user_eligible_roles(body).unwrap();
    assert_eq!(roles.len(), 3);
    assert_eq!(roles[0].id, "assign-1");
    assert_eq!(roles[0].name, "Owner");
    assert_eq!(roles[1].id, "assign-2");
    assert_eq!(roles[1].name, "Reader");
    assert_eq!(roles[2].id, "assign-3");
    assert_eq!(roles[2].name, "Contributor");
}

#[test]
fn empty_value_array_yields_empty_list() {
    let body = r#"{ "value": [] }"#;
    let roles = get_user_eligible_roles(body).unwrap();
    assert!(roles.is_empty());
}

#[test]
fn missing_value_array_yields_empty_list() {
    let body = r#"{ "count": 0 }"#;
    let roles = get_user_eligible_roles(body).unwrap();
    assert!(roles.is_empty());
}

#[test]
fn missing_display_name_fails() {
    let body = r#"{
        "value": [
            { "id": "assign-1",
              "roleDefinition": { "resource": {} } }
        ]
    }"#;
    let r = get_user_eligible_roles(body);
    assert!(matches!(r, Err(FetchError::MissingField)));
}

#[test]
fn missing_role_definition_fails() {
    let body = r#"{ "value": [ { "id": "assign-1" } ] }"#;
    let r = get_user_eligible_roles(body);
    assert!(matches!(r, Err(FetchError::MissingField)));
}

#[test]
fn missing_id_fails() {
    let body = r#"{
        "value": [
            { "roleDefinition": { "resource": { "displayName": "Owner" } } }
        ]
    }"#;
    let r = get_user_eligible_roles(body);
    assert!(matches!(r, Err(FetchError::MissingField)));
}

#[test]
fn non_string_display_name_fails() {
    let body = r#"{
        "value": [
            { "id": "assign-1",
              "roleDefinition": { "resource": { "displayName": 7 } } }
        ]
    }"#;
    let r = get_user_eligible_roles(body);
    assert!(matches!(r, Err(FetchError::MissingField)));
}

#[test]
fn invalid_json_fails_with_parse() {
    let r = get_user_eligible_roles("not json at all {{");
    assert!(matches!(r, Err(FetchError::Parse)));
}

#[test]
fn entries_with_both_strings_succeed() {
    let entries = vec![entry(Some("a"), Some("Owner")), entry(Some("b"), Some("Reader"))];
    let roles = roles_from_entries(entries).unwrap();
    assert_eq!(roles.len(), 2);
    assert_eq!(roles[0].id, "a");
    assert_eq!(roles[0].name, "Owner");
    assert_eq!(roles[1].id, "b");
    assert_eq!(roles[1].name, "Reader");
}

#[test]
fn one_incomplete_entry_fails_all() {
    let entries = vec![entry(Some("a"), Some("Owner")), entry(Some("b"), None)];
    let r = roles_from_entries(entries);
    assert!(matches!(r, Err(FetchError::MissingField)));
}

#[test]
fn no_entries_succeed_empty() {
    let roles = roles_from_entries(Vec::new()).unwrap();
    assert!(roles.is_empty());
}

#[test]
fn role_names_keep_order() {
    let roles = vec![
        Role { id: "a".to_owned(), name: "Owner".to_owned() },
        Role { id: "b".to_owned(), name: "Reader".to_owned() },
    ];
    let names = role_names(&roles);
    assert_eq!(names, vec!["Owner".to_owned(), "Reader".to_owned()]);
}
