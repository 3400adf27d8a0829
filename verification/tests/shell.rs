use coop_egress::shell::shell_escape;

#[test]
fn plain_string_unchanged() {
    assert_eq!(shell_escape("hello"), "'hello'");
}

#[test]
fn empty_string() {
    assert_eq!(shell_escape(""), "''");
}

#[test]
fn single_quote_escaped() {
    assert_eq!(shell_escape("it's"), "'it'\\''s'");
}

#[test]
fn multiple_single_quotes() {
    assert_eq!(shell_escape("a'b'c"), "'a'\\''b'\\''c'");
}

#[test]
fn special_chars_preserved() {
    assert_eq!(shell_escape("hello world $FOO"), "'hello world $FOO'");
}

#[test]
fn double_quotes_preserved() {
    assert_eq!(shell_escape("say \"hi\""), "'say \"hi\"'");
}

#[test]
fn backticks_preserved() {
    assert_eq!(shell_escape("`cmd`"), "'`cmd`'");
}

#[test]
fn newline_preserved() {
    assert_eq!(shell_escape("a\nb"), "'a\nb'");
}
