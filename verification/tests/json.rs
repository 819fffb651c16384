use logicapps_lint::json::read::{number_of, spanned_from_json, JsonReadError};
use logicapps_lint::json::{
    as_object, as_string, escape_pointer_token, get, node_at_pointer, pointer_join, span,
    to_json_value, Json, JsonFile, Node, Number,
};
use logicapps_lint::ByteSpan;

fn parse(text: &str) -> Node {
    match JsonFile::parse("test.json", text) {
        Ok(file) => file.value,
        Err(error) => panic!("{}", error.message()),
    }
}

#[test]
fn parsing_keeps_byte_ranges() {
    let text = "{ \"é\": [1, \"x\"] }";
    let value = parse(text);
    assert_eq!(span(&value), ByteSpan { start: 0, end: text.len() });
    let items = get(&value, "é").expect("member");
    let range = span(items);
    assert_eq!(&text[range.start..range.end], "[1, \"x\"]");
}

#[test]
fn parsing_keeps_the_path() {
    let file = JsonFile::parse("a/b.json", "null").expect("document");
    assert_eq!(file.path, "a/b.json");
    assert!(file.value.is_null());
}

#[test]
fn numbers_are_kept_apart_by_kind() {
    assert!(matches!(parse("7").kind, Json::Number(Number::PosInt(7))));
    assert!(matches!(parse("-7").kind, Json::Number(Number::NegInt(-7))));
    match parse("7.5").kind {
        Json::Number(Number::Float(text)) => assert_eq!(text, "7.5"),
        other => panic!("{other:?}"),
    }
    assert!(matches!(
        number_of(None, Some(-1), "-1".to_owned()),
        Number::NegInt(-1)
    ));
}

#[test]
fn text_that_is_no_json_is_refused() {
    match JsonFile::parse("bad.json", "{ \"a\": }") {
        Err(JsonReadError::Parse { path, .. }) => assert_eq!(path, "bad.json"),
        other => panic!("{other:?}"),
    }
}

#[test]
fn repeated_keys_are_refused() {
    assert!(JsonFile::parse("bad.json", "{ \"a\": 1, \"a\": 2 }").is_err());
}

#[test]
fn bytes_that_are_no_text_are_refused() {
    match JsonFile::from_bytes("bad.json", vec![0x22, 0xff, 0x22]) {
        Err(JsonReadError::InvalidUtf8 { path, .. }) => assert_eq!(path, "bad.json"),
        other => panic!("{other:?}"),
    }
}

#[test]
fn bytes_are_read_as_utf8() {
    let file = JsonFile::from_bytes("ok.json", "\"é\"".as_bytes().to_vec()).expect("document");
    assert_eq!(as_string(&file.value), Some("é"));
}

#[test]
fn read_errors_name_the_file() {
    let error = JsonFile::parse("bad.json", "{").expect_err("no document");
    assert_eq!(error.path(), "bad.json");
    assert!(error.message().starts_with("failed to parse bad.json: "));
    let error = JsonFile::from_bytes("bad.json", vec![0xff]).expect_err("no text");
    assert!(error.message().starts_with("failed to decode bad.json: "));
    let source = std::io::Error::from(std::io::ErrorKind::NotFound);
    let error = JsonReadError::Io { path: "gone.json".to_owned(), source };
    assert!(error.message().starts_with("failed to read gone.json: "));
}

#[test]
fn pointer_tokens_are_escaped() {
    assert_eq!(escape_pointer_token("a/b~c"), "a~1b~0c");
    assert_eq!(escape_pointer_token("~1"), "~01");
    assert_eq!(pointer_join("", "a"), "/a");
    assert_eq!(pointer_join("/a", "b/c"), "/a/b~1c");
}

#[test]
fn joined_pointers_lead_to_their_members() {
    let value = parse("{ \"a/b\": { \"~\": [10, 20] } }");
    let first = pointer_join("", "a/b");
    let second = pointer_join(&first, "~");
    let third = pointer_join(&second, "1");
    let path: Vec<char> = third.chars().collect();
    let node = node_at_pointer(&value, &path).expect("node");
    assert!(matches!(node.kind, Json::Number(Number::PosInt(20))));
    let missing: Vec<char> = pointer_join(&second, "2").chars().collect();
    assert!(node_at_pointer(&value, &missing).is_none());
    assert!(node_at_pointer(&value, &['x']).is_none());
}

#[test]
fn plain_values_drop_their_places() {
    let value = parse("{ \"b\": [true, null, -1, 0.5], \"a\": \"x\" }");
    let plain = to_json_value(&value).expect("value");
    assert_eq!(plain.to_string(), "{\"a\":\"x\",\"b\":[true,null,-1,0.5]}");
}

#[test]
fn writing_and_reading_gives_places_in_the_compact_text() {
    let value = parse("{ \"a\" :   [ 1 ] }");
    let again = spanned_from_json(&value).expect("value");
    assert_eq!(span(&again), ByteSpan { start: 0, end: "{\"a\":[1]}".len() });
    let members = as_object(&again).expect("object");
    assert_eq!(members.len(), 1);
    assert_eq!(members[0].name, "a");
    assert_eq!(span(&members[0].value), ByteSpan { start: 5, end: 8 });
}

#[test]
fn lookups_miss_on_other_kinds() {
    let value = parse("[1]");
    assert!(get(&value, "a").is_none());
    assert!(as_object(&value).is_none());
    assert!(as_string(&value).is_none());
}
