use minishell::builtin::join_words;
use minishell::tokenizer::{parse_parts, tokenize};

#[test]
fn test_parse_input() {
    let input = "echo 'Hello, World!' \"This 'is'   a test\"";
    let expected = vec!["echo", "Hello, World!", "This 'is'   a test"];
    let result = parse_parts(input.to_string());
    assert_eq!(result, expected);
}

#[test]
fn test_backslash_escaping() {
    let input = r#"echo before\ \ after"#;
    let expected = vec!["echo", r#"before  after"#];
    let result = parse_parts(input.to_string());
    assert_eq!(result, expected);
}

#[test]
fn test_backslash_escape_quotes() {
    let input = "echo \\\'\\\"test shell\\\"\\\'";
    let expected = vec!["echo", r#"'"test"#, r#"shell"'"#];
    let result = parse_parts(input.to_string());
    assert_eq!(result, expected);
}

#[test]
fn test_backslash_within_double_quotes() {
    let input = r#"echo "hello\"insidequotes"script\""#;
    let expected = vec!["echo", r#"hello"insidequotesscript""#];
    let result = parse_parts(input.to_string());
    assert_eq!(result, expected);
}

#[test]
fn surrounding_whitespace_and_line_end_are_trimmed() {
    let result = parse_parts("  \techo   hi  \n".to_string());
    assert_eq!(result, vec!["echo", "hi"]);
}

#[test]
fn empty_and_blank_lines_give_no_tokens() {
    assert!(parse_parts(String::new()).is_empty());
    assert!(parse_parts("   \n".to_string()).is_empty());
    assert!(tokenize("    ").is_empty());
}

#[test]
fn other_quote_inside_quotes_is_literal() {
    assert_eq!(tokenize(r#"echo "it's" 'say "hi"'"#), vec!["echo", "it's", r#"say "hi""#]);
}

#[test]
fn backslash_inside_single_quotes_is_literal() {
    assert_eq!(tokenize(r#"echo 'a\nb\\'"#), vec!["echo", r#"a\nb\\"#]);
}

#[test]
fn backslash_in_double_quotes_before_ordinary_char_is_kept() {
    assert_eq!(tokenize(r#""a\nb" "c\$d" "e\\f""#), vec![r#"a\nb"#, "c$d", r#"e\f"#]);
}

#[test]
fn adjacent_quoted_parts_join_one_token() {
    assert_eq!(tokenize(r#"ab'cd'"ef"g"#), vec!["abcdefg"]);
}

#[test]
fn empty_quotes_make_no_token() {
    assert_eq!(tokenize("echo '' \"\""), vec!["echo"]);
}

#[test]
fn unterminated_quote_keeps_what_was_read() {
    assert_eq!(tokenize("echo 'abc  def"), vec!["echo", "abc  def"]);
    assert_eq!(tokenize("echo \"x"), vec!["echo", "x"]);
}

#[test]
fn trailing_backslash_is_dropped() {
    assert_eq!(tokenize("echo a\\"), vec!["echo", "a"]);
}

#[test]
fn joined_plain_words_retokenize_to_themselves() {
    let words: Vec<String> = vec!["hello".to_string(), "world".to_string(), "a-b.c".to_string()];
    let line = join_words(&words);
    assert_eq!(line, "hello world a-b.c");
    assert_eq!(tokenize(&line), words);
}

#[test]
fn join_words_of_nothing_is_empty() {
    assert_eq!(join_words(&Vec::new()), "");
    assert_eq!(join_words(&vec!["one".to_string()]), "one");
}
