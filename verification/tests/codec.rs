use carreras::carrera::Carrera;
use carreras::codec::{decode, encode, encode_all, from_document, from_fields, push_encoded, push_frame, DecodeError};
use carreras::id::push_decimal;

fn record(id: Option<i32>, name: &str, key: &str) -> Carrera {
    Carrera { id, name: name.to_string(), key: key.to_string() }
}

#[test]
fn decode_reads_name_and_key() {
    let c = decode("{\"id\":null,\"name\":\"Systems\",\"key\":\"SYS-1\"}").unwrap();
    assert_eq!(c, record(None, "Systems", "SYS-1"));
    let c = decode(" { \"key\" : \"k\" , \"name\" : \"n\" } ").unwrap();
    assert_eq!(c, record(None, "n", "k"));
    let c = decode("{\"name\":\"a\\\"b\\u00f1\",\"key\":\"\"}").unwrap();
    assert_eq!(c, record(None, "a\"bñ", ""));
}

#[test]
fn decode_ignores_the_id() {
    assert_eq!(decode("{\"id\":41,\"name\":\"a\",\"key\":\"b\"}").unwrap(), record(None, "a", "b"));
    assert_eq!(decode("{\"id\":\"x\",\"name\":\"a\",\"key\":\"b\"}").unwrap(), record(None, "a", "b"));
    assert_eq!(decode("{\"name\":\"a\",\"key\":\"b\",\"more\":[1,2]}").unwrap(), record(None, "a", "b"));
}

#[test]
fn decode_refuses_what_is_no_json() {
    assert_eq!(decode("not json"), Err(DecodeError::Malformed));
    assert_eq!(decode(""), Err(DecodeError::Malformed));
    assert_eq!(decode("{\"name\":\"a\",\"key\":\"b\""), Err(DecodeError::Malformed));
    assert_eq!(decode("{\"name\":\"a\",\"key\":\"b\"} x"), Err(DecodeError::Malformed));
}

#[test]
fn decode_asks_for_a_name() {
    assert_eq!(decode("{\"key\":\"b\"}"), Err(DecodeError::MissingName));
    assert_eq!(decode("{}"), Err(DecodeError::MissingName));
    assert_eq!(decode("{\"name\":1,\"key\":\"b\"}"), Err(DecodeError::MissingName));
    assert_eq!(decode("{\"name\":null,\"key\":\"b\"}"), Err(DecodeError::MissingName));
    assert_eq!(decode("[\"a\",\"b\"]"), Err(DecodeError::MissingName));
    assert_eq!(decode("\"name\""), Err(DecodeError::MissingName));
    assert_eq!(decode("null"), Err(DecodeError::MissingName));
}

#[test]
fn decode_asks_for_a_key() {
    assert_eq!(decode("{\"name\":\"a\"}"), Err(DecodeError::MissingKey));
    assert_eq!(decode("{\"name\":\"a\",\"key\":7}"), Err(DecodeError::MissingKey));
    assert_eq!(decode("{\"name\":\"a\",\"Key\":\"b\"}"), Err(DecodeError::MissingKey));
}

#[test]
fn from_fields_needs_both() {
    assert_eq!(from_fields(Some("a"), Some("b")), Ok(record(None, "a", "b")));
    assert_eq!(from_fields(None, Some("b")), Err(DecodeError::MissingName));
    assert_eq!(from_fields(None, None), Err(DecodeError::MissingName));
    assert_eq!(from_fields(Some("a"), None), Err(DecodeError::MissingKey));
}

#[test]
fn from_document_reads_an_object() {
    let doc: serde_json::Value = serde_json::from_str("{\"name\":\"a\",\"key\":\"b\"}").unwrap();
    assert_eq!(from_document(&doc), Ok(record(None, "a", "b")));
    assert_eq!(from_document(&serde_json::Value::Null), Err(DecodeError::MissingName));
    assert_eq!(from_document(&serde_json::Value::String("name".to_string())), Err(DecodeError::MissingName));
}

#[test]
fn encode_writes_id_name_key() {
    assert_eq!(encode(&record(Some(1), "Systems", "SYS-1")), "{\"id\":1,\"name\":\"Systems\",\"key\":\"SYS-1\"}");
    assert_eq!(encode(&record(None, "Systems", "SYS-1")), "{\"id\":null,\"name\":\"Systems\",\"key\":\"SYS-1\"}");
    assert_eq!(encode(&record(Some(-5), "", "")), "{\"id\":-5,\"name\":\"\",\"key\":\"\"}");
}

#[test]
fn encode_escapes_text() {
    assert_eq!(
        encode(&record(Some(2), "a\"b\\c\n", "tab\there ñ")),
        "{\"id\":2,\"name\":\"a\\\"b\\\\c\\n\",\"key\":\"tab\\there ñ\"}"
    );
}

#[test]
fn encode_agrees_with_serde_json() {
    let c = record(Some(77), "Ingeniería \"civil\"", "IC/1\u{0001}");
    let mut object = String::from("{\"id\":");
    object.push_str(&serde_json::to_string(&c.id).unwrap());
    object.push_str(",\"name\":");
    object.push_str(&serde_json::to_string(&c.name).unwrap());
    object.push_str(",\"key\":");
    object.push_str(&serde_json::to_string(&c.key).unwrap());
    object.push('}');
    assert_eq!(encode(&c), object);
    let back: serde_json::Value = serde_json::from_str(&encode(&c)).unwrap();
    assert_eq!(back.get("id").and_then(|v| v.as_i64()), Some(77));
    assert_eq!(back.get("name").and_then(|v| v.as_str()), Some("Ingeniería \"civil\""));
}

#[test]
fn push_decimal_writes_every_sign_and_size() {
    let cases = [0, 1, 9, 10, 11, 99, 100, 12345, -1, -10, -999, i32::MAX, i32::MIN, i32::MIN + 1, 1000000000];
    for n in cases {
        let mut out = String::from("x");
        push_decimal(&mut out, n);
        assert_eq!(out, format!("x{}", n));
    }
}

#[test]
fn push_frame_appends() {
    let mut out = String::from("[");
    push_frame(&mut out, Some(3), "\"n\"", "\"k\"");
    assert_eq!(out, "[{\"id\":3,\"name\":\"n\",\"key\":\"k\"}");
    push_frame(&mut out, None, "1", "2");
    assert_eq!(out, "[{\"id\":3,\"name\":\"n\",\"key\":\"k\"}{\"id\":null,\"name\":1,\"key\":2}");
    let mut out = String::from("> ");
    push_encoded(&mut out, &record(Some(1), "a", "b"));
    assert_eq!(out, "> {\"id\":1,\"name\":\"a\",\"key\":\"b\"}");
}

#[test]
fn encode_all_writes_an_array() {
    assert_eq!(encode_all(&vec![]), "[]");
    assert_eq!(encode_all(&vec![record(Some(1), "a", "b")]), "[{\"id\":1,\"name\":\"a\",\"key\":\"b\"}]");
    assert_eq!(
        encode_all(&vec![record(Some(1), "a", "b"), record(Some(2), "c", "d"), record(None, "e", "f")]),
        "[{\"id\":1,\"name\":\"a\",\"key\":\"b\"},{\"id\":2,\"name\":\"c\",\"key\":\"d\"},{\"id\":null,\"name\":\"e\",\"key\":\"f\"}]"
    );
}

#[test]
fn encode_after_decode_keeps_name_and_key() {
    let bodies = [
        "{\"id\":null,\"name\":\"Systems\",\"key\":\"SYS-1\"}",
        "{\"key\":\"k\\\"q\",\"name\":\"line\\nbreak\"}",
        "{\"id\":9,\"name\":\"\",\"key\":\"\\u00e9\"}",
    ];
    for body in bodies {
        let first = decode(body).unwrap();
        let again = decode(&encode(&first)).unwrap();
        assert_eq!(again, first);
        let doc: serde_json::Value = serde_json::from_str(body).unwrap();
        assert_eq!(doc.get("name").and_then(|v| v.as_str()), Some(first.name.as_str()));
        assert_eq!(doc.get("key").and_then(|v| v.as_str()), Some(first.key.as_str()));
    }
}

#[test]
fn clone_keeps_every_field() {
    let c = record(Some(4), "a", "b");
    assert_eq!(c.clone(), c);
}
