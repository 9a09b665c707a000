use requestpim::roles::{get_user_eligible_roles, role_names};
use requestpim::selection::{selection_line, selection_lines};

#[test]
fn line_for_one_name() {
    assert_eq!(selection_line("Reader"), "  -  Reader");
}

#[test]
fn lines_keep_selection_order() {
    let names = vec!["Owner".to_owned(), "Reader".to_owned()];
    let lines = selection_lines(&names);
    assert_eq!(lines, vec!["  -  Owner".to_owned(), "  -  Reader".to_owned()]);
}

#[test]
fn selecting_reader_prints_one_line() {
    let body = r#"{
        "value": [
            { "id": "assign-1",
              "roleDefinition": { "resource": { "displayName": "Owner" } } },
            { "id": "assign-2",
              "roleDefinition": { "resource": { "displayName": "Reader" } } }
        ]
    }"#;
    let roles = get_user_eligible_roles(body).unwrap();
    let names = role_names(&roles);
    assert_eq!(names, vec!["Owner".to_owned(), "Reader".to_owned()]);

    // The interactive step confirms a subset of the offered names; here the
    // user keeps only "Reader".
    let selected: Vec<String> = names.into_iter().filter(|n| n == "Reader").collect();
    let lines = selection_lines(&selected);
    assert_eq!(lines.len(), 1);
    assert_eq!(lines[0], "  -  Reader");
}
