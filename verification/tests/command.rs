use requestpim::command::command_output;

#[test]
fn surrounding_whitespace_is_removed() {
    assert_eq!(command_output("  user@example.com\n"), "user@example.com");
}

#[test]
fn inner_whitespace_is_kept() {
    assert_eq!(command_output("\ta b\r\n"), "a b");
}

#[test]
fn already_trimmed_output_is_unchanged() {
    assert_eq!(command_output("abc-123"), "abc-123");
}

#[test]
fn all_whitespace_output_becomes_empty() {
    assert_eq!(command_output(" \t\r\n "), "");
}
