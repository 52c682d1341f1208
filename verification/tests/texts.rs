use covid19_uk_rs::text::{decimal, join, same_text};

#[test]
fn numbers_are_written_in_decimal() {
    assert_eq!(decimal(0), "0");
    assert_eq!(decimal(1), "1");
    assert_eq!(decimal(9), "9");
    assert_eq!(decimal(10), "10");
    assert_eq!(decimal(42), "42");
    assert_eq!(decimal(100), "100");
    assert_eq!(decimal(1234567890), "1234567890");
    assert_eq!(decimal(u32::MAX), "4294967295");
}

#[test]
fn decimal_agrees_with_the_standard_library() {
    for n in (0u32..5000).chain([65535, 65536, 99999, 100000, 4294967294]) {
        assert_eq!(decimal(n), n.to_string());
    }
}

#[test]
fn join_puts_the_separator_between_neighbours() {
    let parts = vec![String::from("a"), String::from("bc"), String::from("d")];
    assert_eq!(join(&parts, ";"), "a;bc;d");
    assert_eq!(join(&parts, ", "), "a, bc, d");
    assert_eq!(join(&parts, ""), "abcd");
}

#[test]
fn join_of_one_part_has_no_separator() {
    assert_eq!(join(&vec![String::from("only")], ";"), "only");
    assert_eq!(join(&vec![String::new()], ";"), "");
}

#[test]
fn join_of_nothing_is_empty() {
    assert_eq!(join(&Vec::new(), ";"), "");
}

#[test]
fn join_keeps_empty_parts() {
    let parts = vec![String::new(), String::from("x"), String::new()];
    assert_eq!(join(&parts, ";"), ";x;");
}

#[test]
fn same_text_compares_characters() {
    assert!(same_text("nation", "nation"));
    assert!(same_text("", ""));
    assert!(!same_text("nation", "Nation"));
    assert!(!same_text("nation", "nations"));
    assert!(!same_text("", " "));
}
