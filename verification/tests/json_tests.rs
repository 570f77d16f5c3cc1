use oatproxy::json::{
    boolean_member, find_member, integer_member, raw_member, string_member, write_array,
    write_integer, write_object, write_string_array,
};

#[test]
fn integers_are_written_in_decimal() {
    assert_eq!(write_integer(0), "0");
    assert_eq!(write_integer(7), "7");
    assert_eq!(write_integer(10), "10");
    assert_eq!(write_integer(-1), "-1");
    assert_eq!(write_integer(3600), "3600");
    assert_eq!(write_integer(1700000000), "1700000000");
    assert_eq!(write_integer(i64::MAX), "9223372036854775807");
    assert_eq!(write_integer(i64::MIN), "-9223372036854775808");
}

#[test]
fn objects_keep_the_order_of_their_members() {
    let members = vec![
        string_member("request_uri", "urn:x"),
        integer_member("expires_in", 90),
        boolean_member("ok", true),
        boolean_member("no", false),
    ];
    assert_eq!(
        write_object(&members),
        "{\"request_uri\":\"urn:x\",\"expires_in\":90,\"ok\":true,\"no\":false}"
    );
    assert_eq!(write_object(&Vec::new()), "{}");
}

#[test]
fn strings_are_escaped_as_json() {
    let members = vec![string_member("a\"b", "line\nbreak \\ \"q\"")];
    let text = write_object(&members);
    assert_eq!(text, "{\"a\\\"b\":\"line\\nbreak \\\\ \\\"q\\\"\"}");
    let parsed: serde_json::Value = serde_json::from_str(&text).unwrap();
    assert_eq!(parsed.get("a\"b").and_then(|v| v.as_str()), Some("line\nbreak \\ \"q\""));
}

#[test]
fn arrays_are_written_compactly() {
    assert_eq!(write_string_array(&vec!["a".to_string(), "b".to_string()]), "[\"a\",\"b\"]");
    assert_eq!(write_string_array(&Vec::new()), "[]");
    assert_eq!(write_array(&vec!["1".to_string(), "{}".to_string()]), "[1,{}]");
}

#[test]
fn find_member_takes_the_first_of_the_name() {
    let members = vec![
        raw_member("a", "1".to_string()),
        raw_member("b", "2".to_string()),
        raw_member("a", "3".to_string()),
    ];
    assert_eq!(find_member(&members, "a").map(|v| v.as_str()), Some("1"));
    assert_eq!(find_member(&members, "b").map(|v| v.as_str()), Some("2"));
    assert!(find_member(&members, "c").is_none());
}
