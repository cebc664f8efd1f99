use minishell::text::{char_vec, concat2, concat3, contains_char, same_text};

#[test]
fn char_vec_keeps_every_character() {
    assert_eq!(char_vec("añb"), vec!['a', 'ñ', 'b']);
    assert!(char_vec("").is_empty());
}

#[test]
fn contains_char_finds_any_position() {
    assert!(contains_char("a>b", '>'));
    assert!(contains_char(">", '>'));
    assert!(!contains_char("abc", '>'));
    assert!(!contains_char("", '>'));
}

#[test]
fn same_text_compares_characters() {
    assert!(same_text("echo", "echo"));
    assert!(!same_text("echo", "Echo"));
    assert!(!same_text("echo", "ech"));
    assert!(same_text("", ""));
}

#[test]
fn concatenation_keeps_order() {
    assert_eq!(concat2("ab", "cd"), "abcd");
    assert_eq!(concat3("cd: ", "x", ": y"), "cd: x: y");
}
