use koordinator::text::{common_strings, contains_all, contains_text, same_text};

fn strings(items: &[&str]) -> Vec<String> {
    items.iter().map(|s| s.to_string()).collect()
}

#[test]
fn same_text_compares_characters() {
    assert!(same_text("", ""));
    assert!(same_text("main", "main"));
    assert!(same_text("m\u{e4}in", "m\u{e4}in"));
    assert!(!same_text("main", "mail"));
    assert!(!same_text("main", "main-container"));
    assert!(!same_text("main", ""));
    assert!(!same_text("m\u{e4}in", "m\u{eb}in"));
}

#[test]
fn contains_text_finds_whole_strings() {
    let names = strings(&["a", "bb", "a"]);
    assert!(contains_text(&names, &"a".to_string()));
    assert!(contains_text(&names, &"bb".to_string()));
    assert!(!contains_text(&names, &"b".to_string()));
    assert!(!contains_text(&strings(&[]), &"a".to_string()));
}

#[test]
fn contains_all_needs_every_string() {
    assert!(contains_all(&strings(&["a", "b"]), &strings(&["b", "a", "a"])));
    assert!(contains_all(&strings(&[]), &strings(&[])));
    assert!(contains_all(&strings(&["a"]), &strings(&[])));
    assert!(!contains_all(&strings(&["a", "b"]), &strings(&["a", "c"])));
    assert!(!contains_all(&strings(&[]), &strings(&["a"])));
}

#[test]
fn common_strings_keeps_the_order_of_the_candidates() {
    assert_eq!(
        common_strings(&strings(&["c", "a", "x", "a"]), &strings(&["a", "b", "c"])),
        strings(&["c", "a", "a"])
    );
    assert_eq!(common_strings(&strings(&["x"]), &strings(&["a"])), strings(&[]));
    assert_eq!(common_strings(&strings(&[]), &strings(&["a"])), strings(&[]));
}
