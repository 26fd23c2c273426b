use registry_search::cli::{
    parse_source, plan_invocation, render_outcome, unsupported_message, usage_message, CliAction,
    Source,
};
use registry_search::errors::SearchError;
use registry_search::decimal::{i32_to_dec, u32_to_dec, u64_to_dec};
use registry_search::json::JsonValue;
use registry_search::sources;

#[test]
fn source_names_map_to_adapters() {
    assert_eq!(parse_source("npm"), Some(Source::Npm));
    assert_eq!(parse_source("docker"), Some(Source::Docker));
    assert_eq!(parse_source("jsdelivr"), Some(Source::Jsdelivr));
    assert_eq!(parse_source("crates"), Some(Source::Crates));
    assert_eq!(parse_source("composer"), Some(Source::Composer));
    assert_eq!(parse_source("foo"), None);
    assert_eq!(parse_source(""), None);
    assert_eq!(parse_source("Crates"), None);
}

#[test]
fn too_few_arguments_show_usage() {
    let args = vec!["prog".to_string()];
    assert_eq!(plan_invocation(&args), CliAction::Usage);
    let args = vec!["prog".to_string(), "crates".to_string()];
    assert_eq!(plan_invocation(&args), CliAction::Usage);
    assert_eq!(usage_message("prog"), "Usage: prog <source> <query>");
}

#[test]
fn unsupported_source_is_diagnosed() {
    let args = vec!["prog".to_string(), "foo".to_string(), "tokio".to_string()];
    assert_eq!(plan_invocation(&args), CliAction::Unsupported);
    assert_eq!(
        unsupported_message("foo"),
        "Unsupported source: foo. Supported sources are 'npm', 'docker', 'jsdelivr', 'crates', and 'composer'."
    );
}

fn crates_body() -> JsonValue {
    JsonValue::Obj(vec![(
        "crates".to_string(),
        JsonValue::Arr(vec![JsonValue::Obj(vec![(
            "name".to_string(),
            JsonValue::Text("tokio".to_string()),
        )])]),
    )])
}

#[test]
fn crates_invocation_prints_body_verbatim() {
    let args = vec!["prog".to_string(), "crates".to_string(), "tokio".to_string()];
    match plan_invocation(&args) {
        CliAction::Search(source, query) => {
            assert_eq!(source, Source::Crates);
            assert_eq!(query, "tokio");
            let req = sources::search_crates(Some(query.as_str()));
            assert_eq!(req.base_url, "https://crates.io/api/v1/");
            assert_eq!(req.endpoint, "crates");
            assert_eq!(req.params.get("q"), Some(&"tokio".to_string()));
            assert_eq!(render_outcome(Ok(crates_body())), crates_body());
        }
        other => panic!("unexpected action: {:?}", other),
    }
}

#[test]
fn crates_body_pretty_prints_exactly() {
    let mut inner = serde_json::Map::new();
    inner.insert("name".to_string(), serde_json::Value::String("tokio".to_string()));
    let mut top = serde_json::Map::new();
    top.insert(
        "crates".to_string(),
        serde_json::Value::Array(vec![serde_json::Value::Object(inner)]),
    );
    let doc = serde_json::Value::Object(top);
    let expected = "{\n  \"crates\": [\n    {\n      \"name\": \"tokio\"\n    }\n  ]\n}";
    assert_eq!(serde_json::to_string_pretty(&doc).unwrap(), expected);
}

#[test]
fn transport_failure_becomes_error_envelope() {
    let err = SearchError::Transport("connection refused".to_string());
    let out = render_outcome(Err(err));
    let expected = JsonValue::Obj(vec![(
        "items".to_string(),
        JsonValue::Arr(vec![JsonValue::Obj(vec![
            ("title".to_string(), JsonValue::Text("Error".to_string())),
            (
                "subtitle".to_string(),
                JsonValue::Text("connection refused".to_string()),
            ),
        ])]),
    )]);
    assert_eq!(out, expected);
}

#[test]
fn decimal_rendering() {
    assert_eq!(u64_to_dec(0), "0");
    assert_eq!(u64_to_dec(7), "7");
    assert_eq!(u64_to_dec(18446744073709551615), "18446744073709551615");
    assert_eq!(u32_to_dec(25), "25");
    assert_eq!(i32_to_dec(-123), "-123");
    assert_eq!(i32_to_dec(-2147483648), "-2147483648");
    assert_eq!(i32_to_dec(2147483647), "2147483647");
}
