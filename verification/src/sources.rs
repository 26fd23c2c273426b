//! One adapter per registry: each lays out the one HTTP call that a search
//! against that registry makes, and, for the CDN index, decides what becomes
//! of the response.

use vstd::prelude::*;
use vstd::string::StringExecFns;
use crate::client::GetRequest;
use crate::errors::SearchError;
use crate::json::{field_of, JsonValue};
use crate::params::ParamMap;

verus! {

/// The characters that stand in for the query: the query itself, or nothing
/// when the caller gave none.
pub open spec fn query_view(q: Option<&str>) -> Seq<char> {
    match q {
        Some(s) => s@,
        None => Seq::empty(),
    }
}

/// The query text, or the empty string when the caller gave none.
fn query_or_empty(q: Option<&str>) -> (r: &str)
    ensures
        r@ == query_view(q),
{
    match q {
        Some(s) => s,
        None => {
            proof {
                reveal_strlit("");
                assert(""@ =~= Seq::<char>::empty());
            }
            ""
        },
    }
}

/// A client for making API requests: a search URL, query parameters, and an
/// optional user agent.
pub struct ApiClient {
    search_url: String,
    params: ParamMap,
    user_agent: Option<String>,
}

impl ApiClient {
    /// The search URL given at creation.
    pub closed spec fn search_url_view(&self) -> Seq<char> {
        self.search_url@
    }

    /// The parameters set so far.
    pub closed spec fn params_view(&self) -> Map<Seq<char>, Seq<char>> {
        self.params@
    }

    /// The user agent, when one was given.
    pub closed spec fn user_agent_view(&self) -> Option<Seq<char>> {
        match self.user_agent {
            Some(u) => Some(u@),
            None => None,
        }
    }

    /// Well-formed: the parameter mapping is.
    pub closed spec fn wf(&self) -> bool {
        self.params.wf()
    }

    /// Creates a new `ApiClient` with the specified search URL and optional
    /// user agent, and no parameters set.
    pub fn new(search_url: &str, user_agent: Option<&str>) -> (r: ApiClient)
        ensures
            r.wf(),
            r.search_url_view() == search_url@,
            r.params_view() == Map::<Seq<char>, Seq<char>>::empty(),
            match user_agent {
                Some(u) => r.user_agent_view() == Some(u@),
                None => r.user_agent_view() is None,
            },
    {
        ApiClient {
            search_url: String::from_str(search_url),
            params: ParamMap::new(),
            user_agent: match user_agent {
                Some(u) => Some(String::from_str(u)),
                None => None,
            },
        }
    }

    /// Sets a query parameter for the API request; a later call with the
    /// same key replaces the earlier value.
    pub fn set_param(self, key: &str, value: &str) -> (r: ApiClient)
        requires
            self.wf(),
        ensures
            r.wf(),
            r.params_view() == self.params_view().insert(key@, value@),
            r.search_url_view() == self.search_url_view(),
            r.user_agent_view() == self.user_agent_view(),
    {
        let mut c = self;
        c.params.insert(key, value);
        c
    }

    /// Lays out the GET request to `search_url + endpoint` that a transport
    /// outside the library issues.
    pub fn prepare_get(self, endpoint: &str) -> (r: GetRequest)
        ensures
            r.base_url@ == self.search_url_view(),
            r.endpoint@ == endpoint@,
            r.params@ == self.params_view(),
            self.wf() ==> r.wf(),
            r.ua_view() == self.user_agent_view(),
    {
        GetRequest {
            base_url: self.search_url,
            endpoint: String::from_str(endpoint),
            params: self.params,
            user_agent: self.user_agent,
        }
    }
}

/// Searches for crates on the crate registry: the GET that the transport
/// issues, with the query (empty unless given), the first page and 25
/// results per page.
pub fn search_crates(query: Option<&str>) -> (r: GetRequest)
    ensures
        r.wf(),
        r.base_url@ == "https://crates.io/api/v1/"@,
        r.endpoint@ == "crates"@,
        r.url_view() == "https://crates.io/api/v1/crates"@,
        r.ua_view() == Some("my_crawler (help@my_crawler.com)"@),
        r.params@ == Map::<Seq<char>, Seq<char>>::empty().insert("page"@, "1"@).insert(
            "per_page"@,
            "25"@,
        ).insert("q"@, query_view(query)),
{
    proof {
        reveal_strlit("https://crates.io/api/v1/");
        reveal_strlit("crates");
        reveal_strlit("https://crates.io/api/v1/crates");
        assert("https://crates.io/api/v1/"@ + "crates"@ =~= "https://crates.io/api/v1/crates"@);
    }
    ApiClient::new(
        "https://crates.io/api/v1/",
        Some("my_crawler (help@my_crawler.com)"),
    ).set_param("page", "1").set_param("per_page", "25").set_param(
        "q",
        query_or_empty(query),
    ).prepare_get("crates")
}

/// Searches for packages on the npm search service: the GET that the
/// transport issues, with the crawler's user agent, the query (empty unless
/// given) and 25 results.
pub fn search_npm(query: Option<&str>) -> (r: GetRequest)
    ensures
        r.wf(),
        r.base_url@ == "https://api.npms.io/v2/search/"@,
        r.endpoint@ == ""@,
        r.url_view() == "https://api.npms.io/v2/search/"@,
        r.ua_view() == Some("my_crawler (help@my_crawler.com)"@),
        r.params@ == Map::<Seq<char>, Seq<char>>::empty().insert("q"@, query_view(query)).insert(
            "size"@,
            "25"@,
        ),
{
    proof {
        reveal_strlit("");
        assert("https://api.npms.io/v2/search/"@ + ""@ =~= "https://api.npms.io/v2/search/"@);
    }
    ApiClient::new(
        "https://api.npms.io/v2/search/",
        Some("my_crawler (help@my_crawler.com)"),
    ).set_param(
        "q",
        query_or_empty(query),
    ).set_param("size", "25").prepare_get("")
}

/// Searches for images on the container-image registry: the GET that the
/// transport issues, with the crawler's user agent, the query (empty unless
/// given) and the first page.
pub fn search_docker(query: Option<&str>) -> (r: GetRequest)
    ensures
        r.wf(),
        r.base_url@ == "https://index.docker.io/v1/search"@,
        r.endpoint@ == ""@,
        r.url_view() == "https://index.docker.io/v1/search"@,
        r.ua_view() == Some("my_crawler (help@my_crawler.com)"@),
        r.params@ == Map::<Seq<char>, Seq<char>>::empty().insert("q"@, query_view(query)).insert(
            "page"@,
            "1"@,
        ),
{
    proof {
        reveal_strlit("");
        assert("https://index.docker.io/v1/search"@ + ""@ =~= "https://index.docker.io/v1/search"@);
    }
    ApiClient::new(
        "https://index.docker.io/v1/search",
        Some("my_crawler (help@my_crawler.com)"),
    ).set_param(
        "q",
        query_or_empty(query),
    ).set_param("page", "1").prepare_get("")
}

/// Searches for packages on the PHP package index: the GET that the
/// transport issues, with the crawler's user agent, the query (empty unless
/// given) and 25 results per page.
pub fn search_composer(query: Option<&str>) -> (r: GetRequest)
    ensures
        r.wf(),
        r.base_url@ == "https://packagist.org/search.json"@,
        r.endpoint@ == ""@,
        r.url_view() == "https://packagist.org/search.json"@,
        r.ua_view() == Some("my_crawler (help@my_crawler.com)"@),
        r.params@ == Map::<Seq<char>, Seq<char>>::empty().insert("q"@, query_view(query)).insert(
            "per_page"@,
            "25"@,
        ),
{
    proof {
        reveal_strlit("");
        assert("https://packagist.org/search.json"@ + ""@ =~= "https://packagist.org/search.json"@);
    }
    ApiClient::new(
        "https://packagist.org/search.json",
        Some("my_crawler (help@my_crawler.com)"),
    ).set_param(
        "q",
        query_or_empty(query),
    ).set_param("per_page", "25").prepare_get("")
}

/// The credentials and agent string that the CDN index's search backend
/// expects; the front end supplies them, so they are configuration, not
/// constants of the library.
pub struct JsdelivrAuth {
    /// The value of the backend's agent header.
    pub agent: String,
    /// The application identifier header value.
    pub application_id: String,
    /// The API key header value.
    pub api_key: String,
}

/// Everything a transport needs for the one POST that the CDN index search
/// makes: the URL, three fixed headers, and the JSON payload.
pub struct PostRequest {
    /// The URL the POST goes to.
    pub url: String,
    /// The header names and values sent with the POST.
    pub headers: Vec<(String, String)>,
    /// The JSON document sent as the body.
    pub payload: JsonValue,
}

/// The hand-built query string inside the CDN index's POST payload: the
/// query, the first page, 25 hits, and the fixed list of attributes asked
/// for.
pub open spec fn jsdelivr_params_chars(q: Seq<char>) -> Seq<char> {
    "query="@ + q
        + "&page=0&hitsPerPage=25&attributesToHighlight=[]&attributesToRetrieve=[\"name\",\"version\",\"description\",\"homepage\"]"@
}

/// The payload of the CDN index's POST: an object with the one member
/// `params`, holding the hand-built query string for the given query.
pub open spec fn is_jsdelivr_payload(v: JsonValue, q: Seq<char>) -> bool {
    &&& v matches JsonValue::Obj(fields)
    &&& fields@.len() == 1
    &&& fields@[0].0@ == "params"@
    &&& fields@[0].1 matches JsonValue::Text(p)
    &&& p@ == jsdelivr_params_chars(q)
}

/// Searches for packages on the CDN package index: the POST, against the
/// index's third-party search backend, that the transport issues.
pub fn search_jsdelivr(query: Option<&str>, auth: &JsdelivrAuth) -> (r: PostRequest)
    ensures
        r.url@ == "https://ofcncog2cu-dsn.algolia.net/1/indexes/npm-search/query"@,
        r.headers@.len() == 3,
        r.headers@[0].0@ == "x-algolia-agent"@ && r.headers@[0].1@ == auth.agent@,
        r.headers@[1].0@ == "x-algolia-application-id"@ && r.headers@[1].1@
            == auth.application_id@,
        r.headers@[2].0@ == "x-algolia-api-key"@ && r.headers@[2].1@ == auth.api_key@,
        is_jsdelivr_payload(r.payload, query_view(query)),
{
    let mut p = String::from_str("query=");
    p.append(query_or_empty(query));
    p.append(
        "&page=0&hitsPerPage=25&attributesToHighlight=[]&attributesToRetrieve=[\"name\",\"version\",\"description\",\"homepage\"]",
    );

    let mut fields: Vec<(String, JsonValue)> = Vec::new();
    fields.push((String::from_str("params"), JsonValue::Text(p)));

    let mut headers: Vec<(String, String)> = Vec::new();
    headers.push((String::from_str("x-algolia-agent"), auth.agent.clone()));
    headers.push((String::from_str("x-algolia-application-id"), auth.application_id.clone()));
    headers.push((String::from_str("x-algolia-api-key"), auth.api_key.clone()));

    PostRequest {
        url: String::from_str("https://ofcncog2cu-dsn.algolia.net/1/indexes/npm-search/query"),
        headers,
        payload: JsonValue::Obj(fields),
    }
}

/// What the CDN index search returns on a success response: the `hits`
/// member of the response envelope, or an empty array when the envelope has
/// none — never an error.
pub fn jsdelivr_hits(body: JsonValue) -> (r: JsonValue)
    ensures
        match field_of(body, "hits"@) {
            Some(h) => r == h,
            None => r matches JsonValue::Arr(a) && a@ == Seq::<JsonValue>::empty(),
        },
{
    match body.take_field("hits") {
        Some(h) => h,
        None => JsonValue::empty_array(),
    }
}

/// What the CDN index search returns on a non-success response: an error
/// whose message is exactly the response body text.
pub fn jsdelivr_failure(body_text: String) -> (r: SearchError)
    ensures
        r matches SearchError::HttpStatus(m) && m@ == body_text@,
{
    SearchError::HttpStatus(body_text)
}

} // verus!
