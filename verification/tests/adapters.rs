use registry_search::crates::search_crates;
use registry_search::json::JsonValue;
use registry_search::npm::search_npm;
use registry_search::sources::{self, JsdelivrAuth};

#[test]
fn crates_defaults() {
    let req = search_crates(None, None, None);
    assert_eq!(req.base_url, "https://crates.io/api/v1/");
    assert_eq!(req.endpoint, "crates");
    assert_eq!(req.user_agent, Some("my_crawler (help@my_crawler.com)".to_string()));
    assert_eq!(req.params.get("page"), Some(&"1".to_string()));
    assert_eq!(req.params.get("per_page"), Some(&"25".to_string()));
    assert_eq!(req.params.get("q"), None);
    assert_eq!(req.params.len(), 2);
}

#[test]
fn crates_explicit_arguments() {
    let req = search_crates(Some("tokio".to_string()), Some(3), Some(50));
    assert_eq!(req.params.get("page"), Some(&"3".to_string()));
    assert_eq!(req.params.get("per_page"), Some(&"50".to_string()));
    assert_eq!(req.params.get("q"), Some(&"tokio".to_string()));
    assert_eq!(req.params.len(), 3);
}

#[test]
fn crates_negative_page_is_rendered_signed() {
    let req = search_crates(None, Some(-3), None);
    assert_eq!(req.params.get("page"), Some(&"-3".to_string()));
}

#[test]
fn npm_defaults() {
    let req = search_npm(None, None);
    assert_eq!(req.base_url, "https://api.npms.io/v2/search/");
    assert_eq!(req.endpoint, "");
    assert_eq!(req.user_agent, Some("my_crawler (help@my_crawler.com)".to_string()));
    assert_eq!(req.params.get("size"), Some(&"25".to_string()));
    assert_eq!(req.params.get("q"), None);
    assert_eq!(req.params.len(), 1);
}

#[test]
fn npm_explicit_arguments() {
    let req = search_npm(Some("left-pad".to_string()), Some(5));
    assert_eq!(req.params.get("q"), Some(&"left-pad".to_string()));
    assert_eq!(req.params.get("size"), Some(&"5".to_string()));
}

#[test]
fn source_crates_defaults() {
    let req = sources::search_crates(None);
    assert_eq!(req.base_url, "https://crates.io/api/v1/");
    assert_eq!(req.endpoint, "crates");
    assert_eq!(req.user_agent, Some("my_crawler (help@my_crawler.com)".to_string()));
    assert_eq!(req.params.get("page"), Some(&"1".to_string()));
    assert_eq!(req.params.get("per_page"), Some(&"25".to_string()));
    assert_eq!(req.params.get("q"), Some(&"".to_string()));
}

#[test]
fn source_npm_request() {
    let req = sources::search_npm(Some("express"));
    assert_eq!(req.base_url, "https://api.npms.io/v2/search/");
    assert_eq!(req.user_agent, Some("my_crawler (help@my_crawler.com)".to_string()));
    assert_eq!(req.params.get("q"), Some(&"express".to_string()));
    assert_eq!(req.params.get("size"), Some(&"25".to_string()));
}

#[test]
fn source_docker_request() {
    let req = sources::search_docker(Some("alpine"));
    assert_eq!(req.base_url, "https://index.docker.io/v1/search");
    assert_eq!(req.user_agent, Some("my_crawler (help@my_crawler.com)".to_string()));
    assert_eq!(req.params.get("q"), Some(&"alpine".to_string()));
    assert_eq!(req.params.get("page"), Some(&"1".to_string()));
}

#[test]
fn source_composer_request() {
    let req = sources::search_composer(Some("monolog"));
    assert_eq!(req.base_url, "https://packagist.org/search.json");
    assert_eq!(req.user_agent, Some("my_crawler (help@my_crawler.com)".to_string()));
    assert_eq!(req.params.get("q"), Some(&"monolog".to_string()));
    assert_eq!(req.params.get("per_page"), Some(&"25".to_string()));
}

fn test_auth() -> JsdelivrAuth {
    JsdelivrAuth {
        agent: "agent-under-test".to_string(),
        application_id: "app-id".to_string(),
        api_key: "key".to_string(),
    }
}

#[test]
fn jsdelivr_request_shape() {
    let req = sources::search_jsdelivr(Some("react"), &test_auth());
    assert_eq!(req.url, "https://ofcncog2cu-dsn.algolia.net/1/indexes/npm-search/query");
    assert_eq!(req.headers.len(), 3);
    assert_eq!(req.headers[0], ("x-algolia-agent".to_string(), "agent-under-test".to_string()));
    assert_eq!(
        req.headers[1],
        ("x-algolia-application-id".to_string(), "app-id".to_string())
    );
    assert_eq!(req.headers[2], ("x-algolia-api-key".to_string(), "key".to_string()));
    let expected = "query=react&page=0&hitsPerPage=25&attributesToHighlight=[]&attributesToRetrieve=[\"name\",\"version\",\"description\",\"homepage\"]";
    match req.payload {
        JsonValue::Obj(fields) => {
            assert_eq!(fields.len(), 1);
            assert_eq!(fields[0].0, "params");
            assert_eq!(fields[0].1, JsonValue::Text(expected.to_string()));
        }
        other => panic!("payload is not an object: {:?}", other),
    }
}

#[test]
fn jsdelivr_request_empty_query() {
    let req = sources::search_jsdelivr(None, &test_auth());
    let expected = "query=&page=0&hitsPerPage=25&attributesToHighlight=[]&attributesToRetrieve=[\"name\",\"version\",\"description\",\"homepage\"]";
    match req.payload {
        JsonValue::Obj(fields) => {
            assert_eq!(fields[0].1, JsonValue::Text(expected.to_string()));
        }
        other => panic!("payload is not an object: {:?}", other),
    }
}
