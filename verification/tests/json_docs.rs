use registry_search::errors::SearchError;
use registry_search::json::{error_envelope, JsonValue};
use registry_search::sources::{jsdelivr_failure, jsdelivr_hits};

fn hits_doc() -> JsonValue {
    JsonValue::Obj(vec![
        ("total".to_string(), JsonValue::Num("2".to_string())),
        (
            "hits".to_string(),
            JsonValue::Arr(vec![
                JsonValue::Text("a".to_string()),
                JsonValue::Text("b".to_string()),
            ]),
        ),
    ])
}

#[test]
fn hits_field_is_extracted() {
    let hits = jsdelivr_hits(hits_doc());
    assert_eq!(
        hits,
        JsonValue::Arr(vec![
            JsonValue::Text("a".to_string()),
            JsonValue::Text("b".to_string()),
        ])
    );
}

#[test]
fn missing_hits_yields_empty_array() {
    let body = JsonValue::Obj(vec![("total".to_string(), JsonValue::Num("0".to_string()))]);
    assert_eq!(jsdelivr_hits(body), JsonValue::Arr(vec![]));
}

#[test]
fn non_object_body_yields_empty_array() {
    assert_eq!(jsdelivr_hits(JsonValue::Null), JsonValue::Arr(vec![]));
    assert_eq!(
        jsdelivr_hits(JsonValue::Arr(vec![JsonValue::Bool(true)])),
        JsonValue::Arr(vec![])
    );
}

#[test]
fn first_member_wins_on_duplicate_names() {
    let body = JsonValue::Obj(vec![
        ("hits".to_string(), JsonValue::Text("first".to_string())),
        ("hits".to_string(), JsonValue::Text("second".to_string())),
    ]);
    assert_eq!(jsdelivr_hits(body), JsonValue::Text("first".to_string()));
}

#[test]
fn failure_carries_body_text() {
    let err = jsdelivr_failure("404 page not found".to_string());
    assert_eq!(err, SearchError::HttpStatus("404 page not found".to_string()));
    assert_eq!(err.message(), "404 page not found");
}

#[test]
fn every_error_variant_carries_its_message() {
    assert_eq!(SearchError::Transport("t".to_string()).message(), "t");
    assert_eq!(SearchError::Decode("d".to_string()).message(), "d");
    assert_eq!(SearchError::HttpStatus("h".to_string()).message(), "h");
    assert_eq!(SearchError::Io("i".to_string()).message(), "i");
    assert_eq!(SearchError::Serialize("s".to_string()).message(), "s");
}

#[test]
fn error_envelope_shape() {
    let v = error_envelope("boom");
    let expected = JsonValue::Obj(vec![(
        "items".to_string(),
        JsonValue::Arr(vec![JsonValue::Obj(vec![
            ("title".to_string(), JsonValue::Text("Error".to_string())),
            ("subtitle".to_string(), JsonValue::Text("boom".to_string())),
        ])]),
    )]);
    assert_eq!(v, expected);
}

#[test]
fn take_field_moves_value_out() {
    let doc = JsonValue::Obj(vec![("k".to_string(), JsonValue::Bool(true))]);
    assert_eq!(doc.take_field("k"), Some(JsonValue::Bool(true)));
    let doc = JsonValue::Obj(vec![("k".to_string(), JsonValue::Bool(true))]);
    assert_eq!(doc.take_field("missing"), None);
    assert_eq!(JsonValue::Null.take_field("k"), None);
}

#[test]
fn pretty_round_trip_preserves_document() {
    let mut inner = serde_json::Map::new();
    inner.insert("name".to_string(), serde_json::Value::String("tokio".to_string()));
    inner.insert(
        "downloads".to_string(),
        serde_json::Value::Number(serde_json::Number::from(123456789u64)),
    );
    inner.insert(
        "score".to_string(),
        serde_json::Value::Number(serde_json::Number::from_f64(0.875).unwrap()),
    );
    inner.insert("yanked".to_string(), serde_json::Value::Bool(false));
    inner.insert("license".to_string(), serde_json::Value::Null);
    let doc = serde_json::Value::Object({
        let mut top = serde_json::Map::new();
        top.insert(
            "crates".to_string(),
            serde_json::Value::Array(vec![serde_json::Value::Object(inner)]),
        );
        top
    });
    let text = serde_json::to_string_pretty(&doc).unwrap();
    let back: serde_json::Value = serde_json::from_str(&text).unwrap();
    assert_eq!(doc, back);
}
