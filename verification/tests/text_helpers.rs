use vibingide::text::{
    contains_string, copy_range, is_whitespace_char, join_with_spaces, lex_le_str, push_char,
    push_decimal, push_str, split_on_char, split_whitespace, starts_with, str_bytes, str_eq,
    to_ascii_lowercase, to_ascii_uppercase, trim_end_matches_char, trim_str,
};

fn strings(list: &[&str]) -> Vec<String> {
    list.iter().map(|s| s.to_string()).collect()
}

#[test]
fn splitting_at_a_character_then_joining_gives_the_text_back() {
    for text in ["a;;b", "", ";", "x;y;z;", "no separator"] {
        let parts = split_on_char(text, ';');
        assert!(!parts.is_empty());
        assert!(parts.iter().all(|p| !p.contains(';')));
        assert_eq!(parts.join(";"), text);
    }
    assert_eq!(split_on_char("a;;b", ';'), strings(&["a", "", "b"]));
}

#[test]
fn words_are_nonblank_runs() {
    let words = split_whitespace(" \tone  two\nthree\u{3000}four ");
    assert_eq!(words, strings(&["one", "two", "three", "four"]));
    assert!(words.iter().all(|w| !w.is_empty() && !w.chars().any(char::is_whitespace)));
    assert!(split_whitespace(" \n\t ").is_empty());
    assert_eq!(join_with_spaces(&words), "one two three four");
    assert_eq!(join_with_spaces(&[]), "");
}

#[test]
fn whitespace_matches_unicode_white_space() {
    for c in [' ', '\t', '\n', '\r', '\u{0B}', '\u{0C}', '\u{85}', '\u{A0}', '\u{2003}', '\u{3000}'] {
        assert!(is_whitespace_char(c), "{c:?}");
        assert_eq!(is_whitespace_char(c), c.is_whitespace());
    }
    for c in ['a', '0', '-', '\u{200B}'] {
        assert!(!is_whitespace_char(c));
        assert_eq!(is_whitespace_char(c), c.is_whitespace());
    }
}

#[test]
fn string_building_and_trimming() {
    let mut s = String::new();
    push_char(&mut s, 'é');
    push_str(&mut s, "ab");
    push_decimal(&mut s, 0);
    push_decimal(&mut s, 4096);
    assert_eq!(s, "éab04096");
    assert_eq!(trim_str("  x y \t"), "x y");
    assert_eq!(trim_end_matches_char("dir///", '/'), "dir");
    assert_eq!(copy_range("héllo", 1, 4), "éll");
    assert_eq!(str_bytes("é"), vec![0xc3, 0xa9]);
}

#[test]
fn comparisons_and_case() {
    assert!(str_eq("abc", "abc"));
    assert!(!str_eq("abc", "abd"));
    assert!(starts_with("--project", "--"));
    assert!(!starts_with("-", "--"));
    assert!(lex_le_str("Cargo.toml", "docs"));
    assert!(lex_le_str("a", "ab"));
    assert!(!lex_le_str("b", "a"));
    assert_eq!(to_ascii_uppercase("Path-é"), "PATH-é");
    assert_eq!(to_ascii_lowercase("PS1"), "ps1");
    assert!(contains_string(&strings(&[".EXE", ".COM"]), ".COM"));
    assert!(!contains_string(&strings(&[".EXE"]), ".exe"));
}
