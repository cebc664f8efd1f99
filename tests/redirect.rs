use minishell::redirect::{make_redirect, split_redirection, Descriptor, Redirect, Redirection, WriteMode};
use minishell::tokenizer::tokenize;

fn to(descriptor: Descriptor, mode: WriteMode, target: &str) -> Redirect {
    Redirect::To(Redirection { descriptor, mode, target: target.to_string() })
}

#[test]
fn stdout_truncate_clause_is_split_off() {
    let line = split_redirection(tokenize("echo hi > /tmp/out.txt"));
    assert_eq!(line.words, vec!["echo", "hi"]);
    assert_eq!(line.redirect, to(Descriptor::Stdout, WriteMode::Truncate, "/tmp/out.txt"));
}

#[test]
fn append_operators_append() {
    let line = split_redirection(tokenize("echo hi >> log.txt"));
    assert_eq!(line.words, vec!["echo", "hi"]);
    assert_eq!(line.redirect, to(Descriptor::Stdout, WriteMode::Append, "log.txt"));
    let line = split_redirection(tokenize("ls 1>> log.txt"));
    assert_eq!(line.redirect, to(Descriptor::Stdout, WriteMode::Append, "log.txt"));
    let line = split_redirection(tokenize("ls nope 2>> err.txt"));
    assert_eq!(line.words, vec!["ls", "nope"]);
    assert_eq!(line.redirect, to(Descriptor::Stderr, WriteMode::Append, "err.txt"));
}

#[test]
fn descriptor_digits_pick_the_stream() {
    let line = split_redirection(tokenize("cat x 1> out"));
    assert_eq!(line.redirect, to(Descriptor::Stdout, WriteMode::Truncate, "out"));
    let line = split_redirection(tokenize("cat x 2> err"));
    assert_eq!(line.redirect, to(Descriptor::Stderr, WriteMode::Truncate, "err"));
}

#[test]
fn unknown_descriptor_is_reported_not_applied() {
    let line = split_redirection(tokenize("echo hi 3> out"));
    assert_eq!(line.words, vec!["echo", "hi"]);
    assert_eq!(line.redirect, Redirect::BadDescriptor("3".to_string()));
    assert_eq!(make_redirect("x>", "f".to_string()), Redirect::BadDescriptor("x".to_string()));
}

#[test]
fn trailing_operator_is_an_ordinary_argument() {
    let line = split_redirection(tokenize("echo hi >"));
    assert_eq!(line.words, vec!["echo", "hi", ">"]);
    assert_eq!(line.redirect, Redirect::Inherit);
}

#[test]
fn only_the_first_operator_counts() {
    let line = split_redirection(tokenize("echo a > f1 > f2"));
    assert_eq!(line.words, vec!["echo", "a"]);
    assert_eq!(line.redirect, to(Descriptor::Stdout, WriteMode::Truncate, "f1"));
}

#[test]
fn operator_glued_to_a_word_is_found() {
    let line = split_redirection(tokenize("echo a>b c"));
    assert_eq!(line.words, vec!["echo"]);
    assert_eq!(line.redirect, Redirect::BadDescriptor("ab".to_string()));
}

#[test]
fn no_operator_keeps_every_word() {
    let line = split_redirection(tokenize("ls -l /tmp"));
    assert_eq!(line.words, vec!["ls", "-l", "/tmp"]);
    assert_eq!(line.redirect, Redirect::Inherit);
}
