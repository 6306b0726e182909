use forgotten_temple::text::{append_each, eq_ignore_case, find_name, is_text, join_from};

fn names(items: &[&str]) -> Vec<String> {
    items.iter().map(|i| i.to_string()).collect()
}

#[test]
fn eq_ignore_case_compares_lowercase_forms() {
    assert!(eq_ignore_case("Golden Idol", "golden idol"));
    assert!(eq_ignore_case("TORCH", "torch"));
    assert!(eq_ignore_case("", ""));
    assert!(!eq_ignore_case("torch", "torches"));
    assert!(!eq_ignore_case("torch", " torch"));
}

#[test]
fn is_text_compares_as_written() {
    assert!(is_text(&"go".to_string(), "go"));
    assert!(!is_text(&"Go".to_string(), "go"));
    assert!(!is_text(&"go".to_string(), "got"));
}

#[test]
fn find_name_gives_the_first_match_or_the_length() {
    let items = names(&["lamp", "Coin", "coin"]);
    assert_eq!(find_name(&items, "LAMP"), 0);
    assert_eq!(find_name(&items, "coin"), 1);
    assert_eq!(find_name(&items, "key"), 3);
    assert_eq!(find_name(&names(&[]), "key"), 0);
}

#[test]
fn join_from_puts_the_separator_between() {
    let parts = names(&["take", "golden", "idol"]);
    assert_eq!(join_from(&parts, 0, " "), "take golden idol");
    assert_eq!(join_from(&parts, 1, " "), "golden idol");
    assert_eq!(join_from(&parts, 2, " "), "idol");
    assert_eq!(join_from(&parts, 3, " "), "");
    assert_eq!(join_from(&parts, 1, ", "), "golden, idol");
}

#[test]
fn append_each_writes_every_entry() {
    let mut out = "Items:".to_string();
    append_each(&mut out, &names(&["a", "b"]), "\n- ", ";");
    assert_eq!(out, "Items:\n- a;\n- b;");
    append_each(&mut out, &names(&[]), "\n- ", ";");
    assert_eq!(out, "Items:\n- a;\n- b;");
}
