use coop_egress::lines::lines_of;
use coop_egress::path_text::{join_path, parent_of};
use coop_egress::rows::is_before;
use coop_egress::text::{contains_word, decimal_text, trim};
use coop_egress::tilde::{expand_tilde, expand_tilde_in};
use std::path::{Path, PathBuf};

fn expected(path: &str, home: &str) -> Vec<u8> {
    let path = Path::new(path);
    match path.strip_prefix("~") {
        Ok(stripped) => Path::new(home).join(stripped).to_str().expect("text").as_bytes().to_vec(),
        Err(_) => path.to_str().expect("text").as_bytes().to_vec(),
    }
}

#[test]
fn leading_tilde_is_the_home_directory() {
    let paths = [
        "~", "~/", "~/.", "~/./", "~/a", "~//a", "~/./a/b/", "~/a/.", "~/..", "~/.ssh/id", "~user/a",
        "/~/a", "a/~", "./~", "", ".", "~/a/./b", "~/.a", "~/a.", "~/a/..",
    ];
    for path in paths {
        for home in ["/home/me", "/", "/home/me/"] {
            assert_eq!(
                expand_tilde_in(path.as_bytes(), Some(home.as_bytes().to_vec())),
                expected(path, home),
                "{path} in {home}"
            );
        }
        assert_eq!(expand_tilde_in(path.as_bytes(), None), path.as_bytes());
    }
}

#[test]
fn other_paths_are_kept_wherever_home_is() {
    for path in ["/etc/hosts", "~root/x", "a/~", ""] {
        assert_eq!(expand_tilde(path.as_bytes()), path.as_bytes());
    }
}

#[test]
fn tilde_is_expanded_with_the_home_of_the_system() {
    let home = dirs::home_dir().expect("home");
    let joined = home.join("x");
    assert_eq!(expand_tilde(b"~/x"), joined.to_str().expect("text").as_bytes());
}

#[test]
fn parents_are_those_of_paths() {
    for text in ["/a/b/c", "/a/b/", "/a", "/", "", "a", "a/b", "/a/./b", "//a", "./a", "/a/b/.", "a//b"] {
        let mut path = PathBuf::from(text);
        path.pop();
        assert_eq!(parent_of(text), path.to_str().expect("text"), "{text}");
    }
}

#[test]
fn names_are_joined_to_directories() {
    for dir in ["/a", "/a/", "/", ""] {
        let joined = Path::new(dir).join("x/y");
        assert_eq!(join_path(dir, "x/y"), joined.to_str().expect("text"));
    }
}

#[test]
fn texts_are_taken_apart_as_the_standard_library_does() {
    for text in ["", " a b ", "\u{2003}x\u{a0}", "\n\t", "a\u{200b}", "\r\nx\r\ny\r", "x\n\n", "1\u{3000}2"] {
        assert_eq!(trim(text), text.trim());
        let lines: Vec<&str> = text.lines().collect();
        assert_eq!(lines_of(text), lines);
        for word in ["a", "b", "x", "1", "2", "", "a b"] {
            assert_eq!(
                contains_word(text, word),
                text.split_whitespace().any(|held| held == word)
            );
        }
    }
    assert_eq!(decimal_text(0), "0");
    assert_eq!(decimal_text(u64::MAX), "18446744073709551615");
}

#[test]
fn names_are_ordered_as_strings_are() {
    let names = ["", "a", "b", "ab", "A", "\u{e9}", "\u{ffff}", "\u{10000}", "a\u{0}"];
    for a in names {
        for b in names {
            assert_eq!(is_before(a, b), a < b, "{a:?} {b:?}");
        }
    }
}
