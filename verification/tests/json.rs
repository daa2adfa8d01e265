use backend_llm_anthropic::json::{put, Json};
use backend_llm_anthropic::text::{
    chars_of, text_concat, text_contains, text_eq, text_join, text_trim_end,
};
use serde_json::Value;

fn value(text: &str) -> Value {
    serde_json::from_str(text).unwrap()
}

#[test]
fn values_go_both_ways() {
    for text in [
        "null",
        "true",
        "-7",
        "18446744073709551615",
        "1.5e300",
        "\"a\\u0000\\\"\\ud83d\\ude00\"",
        "[]",
        "[[1],[[],{}]]",
        "{\"b\":{\"c\":[null]},\"a\":2}",
    ] {
        let tree = value(text);
        assert_eq!(Json::from_value(tree.clone()).to_value(), tree);
        let read = Json::from_json_text(text).unwrap();
        assert_eq!(read.to_value(), tree);
        assert_eq!(read.clone().to_value(), tree);
        assert_eq!(Json::from_json_bytes(text.as_bytes()).unwrap().to_value(), tree);
        let written = read.to_json_text().unwrap();
        assert_eq!(written, serde_json::to_string(&tree).unwrap());
        assert_eq!(Json::from_json_text(&written).unwrap().to_value(), tree);
    }
}

#[test]
fn what_is_no_json_is_refused() {
    assert!(Json::from_json_text("").is_none());
    assert!(Json::from_json_text("{\"a\":1}x").is_none());
    assert_eq!(
        Json::from_json_bytes(b"[1,]").unwrap_err(),
        "trailing comma at line 1 column 4",
    );
    assert!(Json::from_json_bytes(b"\"\xff\"").is_err());
}

#[test]
fn the_last_entry_of_a_name_counts() {
    let read = Json::from_json_text("{\"a\":1,\"a\":2}").unwrap();
    assert_eq!(read.get_u64("a"), Some(2));
    let mut entries = vec![];
    put(&mut entries, "a", Json::from_u64(1));
    put(&mut entries, "b", Json::from_text("x"));
    put(&mut entries, "a", Json::from_u64(3));
    let object = Json::Object(entries);
    assert_eq!(object.get_u64("a"), Some(3));
    assert_eq!(object.get_str("b"), Some("x"));
    assert_eq!(object.to_value(), value("{\"a\":3,\"b\":\"x\"}"));
    let listed = Json::Object(vec![
        ("a".to_owned(), Json::Null),
        ("a".to_owned(), Json::Bool(true)),
    ]);
    assert_eq!(listed.to_value(), value("{\"a\":true}"));
    let listed = Json::Object(vec![
        ("a".to_owned(), Json::from_u64(1)),
        ("b".to_owned(), Json::from_u64(2)),
        ("a".to_owned(), Json::from_u64(3)),
        ("c".to_owned(), Json::from_u64(4)),
        ("b".to_owned(), Json::from_u64(5)),
    ]);
    assert_eq!(listed.to_value(), value("{\"a\":3,\"b\":5,\"c\":4}"));
    assert_eq!(listed.to_json_text().unwrap(), "{\"a\":3,\"b\":5,\"c\":4}");
}

#[test]
fn looks_inside() {
    let object = Json::from_json_text("{\"n\":-1,\"f\":1.0,\"u\":9,\"s\":\"t\",\"l\":[1]}").unwrap();
    assert_eq!(object.get_u64("n"), None);
    assert_eq!(object.get_u64("f"), None);
    assert_eq!(object.get_u64("u"), Some(9));
    assert_eq!(object.get_u64("s"), None);
    assert_eq!(object.get_str("s"), Some("t"));
    assert_eq!(object.get_str("u"), None);
    assert_eq!(object.get_str("none"), None);
    assert_eq!(object.get("l").unwrap().as_array().unwrap().len(), 1);
    assert_eq!(object.get("l").unwrap().as_array().unwrap()[0].as_u64(), Some(1));
    assert!(object.get("u").unwrap().as_array().is_none());
    assert!(object.get("l").unwrap().get("u").is_none());
    assert!(object.as_str().is_none());
}

#[test]
fn texts() {
    assert!(text_eq("a\u{e8}", "a\u{e8}"));
    assert!(!text_eq("a", "b"));
    assert_eq!(text_concat("a", "\u{e8}"), "a\u{e8}");
    assert_eq!(text_join(&vec![], ", "), "");
    assert_eq!(text_join(&vec!["a".to_owned()], ", "), "a");
    assert_eq!(text_join(&vec!["a".to_owned(), String::new(), "c".to_owned()], ", "), "a, , c");
    assert_eq!(chars_of("a\u{e8}"), vec!['a', '\u{e8}']);
    assert!(text_contains("abcabd", "abd"));
    assert!(!text_contains("abcab", "abd"));
    assert!(text_contains("", ""));
    assert_eq!(text_trim_end("a/b//", '/'), "a/b");
    assert_eq!(text_trim_end("//", '/'), "");
}
