use oatproxy::text::{
    contains_text, join_spaces, same_text, split_compact, split_on, split_spaces, strip_prefix,
    to_chars, trim, trim_end_matches, trim_start_matches,
};

#[test]
fn to_chars_keeps_every_character() {
    assert_eq!(to_chars("a\u{e9}z"), vec!['a', '\u{e9}', 'z']);
    assert!(to_chars("").is_empty());
}

#[test]
fn same_text_compares_contents() {
    assert!(same_text("ES256", "ES256"));
    assert!(!same_text("ES256", "ES25"));
    assert!(!same_text("ES256", "es256"));
    assert!(same_text("", ""));
}

#[test]
fn strip_prefix_removes_only_a_leading_match() {
    assert_eq!(strip_prefix("Bearer abc", "Bearer "), Some("abc"));
    assert_eq!(strip_prefix("Bearer ", "Bearer "), Some(""));
    assert_eq!(strip_prefix("xBearer abc", "Bearer "), None);
    assert_eq!(strip_prefix("Bear", "Bearer "), None);
    assert_eq!(strip_prefix("\u{e9}t\u{e9}", "\u{e9}"), Some("t\u{e9}"));
}

#[test]
fn trim_end_removes_all_trailing_slashes() {
    assert_eq!(trim_end_matches("https://proxy.example/", '/'), "https://proxy.example");
    assert_eq!(trim_end_matches("https://proxy.example///", '/'), "https://proxy.example");
    assert_eq!(trim_end_matches("https://proxy.example", '/'), "https://proxy.example");
    assert_eq!(trim_end_matches("///", '/'), "");
}

#[test]
fn trim_start_removes_all_leading_slashes() {
    assert_eq!(trim_start_matches("/xrpc/a?b=1", '/'), "xrpc/a?b=1");
    assert_eq!(trim_start_matches("//xrpc/", '/'), "xrpc/");
    assert_eq!(trim_start_matches("xrpc", '/'), "xrpc");
}

#[test]
fn contains_text_finds_substrings() {
    assert!(contains_text("application/json; charset=utf-8", "application/json"));
    assert!(!contains_text("application/x-www-form-urlencoded", "application/json"));
    assert!(contains_text("abc", ""));
    assert!(!contains_text("ab", "abc"));
    assert!(contains_text("http://localhost:3000", "localhost"));
}

#[test]
fn split_compact_wants_exactly_two_dots() {
    assert_eq!(split_compact("a.b.c"), Some(("a", "b", "c")));
    assert_eq!(split_compact(".."), Some(("", "", "")));
    assert_eq!(split_compact("a.b"), None);
    assert_eq!(split_compact("a.b.c.d"), None);
    assert_eq!(split_compact(""), None);
    assert_eq!(split_compact("abc"), None);
}

#[test]
fn split_spaces_drops_empty_pieces() {
    assert_eq!(split_spaces("atproto transition:generic"), vec!["atproto", "transition:generic"]);
    assert_eq!(split_spaces("  a   b "), vec!["a", "b"]);
    assert!(split_spaces("").is_empty());
    assert!(split_spaces("   ").is_empty());
}

#[test]
fn join_spaces_puts_one_space_between() {
    let parts = vec!["atproto".to_string(), "transition:generic".to_string()];
    assert_eq!(join_spaces(&parts), "atproto transition:generic");
    assert_eq!(join_spaces(&vec!["one".to_string()]), "one");
    assert_eq!(join_spaces(&Vec::new()), "");
}

#[test]
fn split_on_keeps_empty_pieces() {
    assert_eq!(split_on("a,b,,c", ','), vec!["a", "b", "", "c"]);
    assert_eq!(split_on("", ','), vec![""]);
    assert_eq!(split_on(",", ','), vec!["", ""]);
    assert_eq!(split_on("did:plc:x/coll/rkey", '/'), vec!["did:plc:x", "coll", "rkey"]);
}

#[test]
fn trim_removes_surrounding_white_space() {
    assert_eq!(trim("  did:web:abc \t\n"), "did:web:abc");
    assert_eq!(trim("\u{a0}x\u{3000}"), "x");
    assert_eq!(trim("   "), "");
    assert_eq!(trim("a b"), "a b");
}
