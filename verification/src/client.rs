//! The request builder and the configuration it freezes.

use vstd::prelude::*;
use vstd::string::StringExecFns;
use crate::params::ParamMap;

verus! {

/// Everything a transport needs for one GET: the URL is the base URL
/// followed by the endpoint, the parameters become the URL query, and the
/// user agent, when present, becomes a request header.
pub struct GetRequest {
    /// The fixed part of the URL, ending where the endpoint starts.
    pub base_url: String,
    /// The endpoint appended to the base URL.
    pub endpoint: String,
    /// The query parameters.
    pub params: ParamMap,
    /// The user-agent header value, when one is sent.
    pub user_agent: Option<String>,
}

impl GetRequest {
    /// The characters of the URL the GET goes to, before the query.
    pub open spec fn url_view(&self) -> Seq<char> {
        self.base_url@ + self.endpoint@
    }

    /// The characters of the user-agent header, when one is sent.
    pub open spec fn ua_view(&self) -> Option<Seq<char>> {
        match self.user_agent {
            Some(u) => Some(u@),
            None => None,
        }
    }

    /// Well-formed: the parameter mapping is.
    pub open spec fn wf(&self) -> bool {
        self.params.wf()
    }
}

/// A simple API client for making HTTP requests: an immutable configuration,
/// consumed by the step that issues the call.
pub struct ApiClient {
    base_url: String,
    params: ParamMap,
    user_agent: String,
}

/// A builder for the `ApiClient`: accumulates query parameters for a single
/// HTTP call.
pub struct ApiClientBuilder {
    base_url: String,
    params: ParamMap,
    user_agent: String,
}

impl ApiClientBuilder {
    /// The base URL given at creation.
    pub closed spec fn base_url_view(&self) -> Seq<char> {
        self.base_url@
    }

    /// The parameters set so far.
    pub closed spec fn params_view(&self) -> Map<Seq<char>, Seq<char>> {
        self.params@
    }

    /// The user agent given at creation.
    pub closed spec fn user_agent_view(&self) -> Seq<char> {
        self.user_agent@
    }

    /// Well-formed: the parameter mapping is.
    pub closed spec fn wf(&self) -> bool {
        self.params.wf()
    }

    /// Creates a new `ApiClientBuilder` with no parameters set.
    pub fn new(base_url: &str, user_agent: &str) -> (r: ApiClientBuilder)
        ensures
            r.wf(),
            r.base_url_view() == base_url@,
            r.user_agent_view() == user_agent@,
            r.params_view() == Map::<Seq<char>, Seq<char>>::empty(),
    {
        ApiClientBuilder {
            base_url: String::from_str(base_url),
            params: ParamMap::new(),
            user_agent: String::from_str(user_agent),
        }
    }

    /// Sets a parameter for the API request; a later call with the same key
    /// replaces the earlier value.
    pub fn set_param(self, key: &str, value: &str) -> (r: ApiClientBuilder)
        requires
            self.wf(),
        ensures
            r.wf(),
            r.params_view() == self.params_view().insert(key@, value@),
            r.base_url_view() == self.base_url_view(),
            r.user_agent_view() == self.user_agent_view(),
    {
        let mut b = self;
        b.params.insert(key, value);
        b
    }

    /// Freezes the configuration: no further parameter can be set.
    pub fn build(self) -> (r: ApiClient)
        ensures
            r.base_url_view() == self.base_url_view(),
            r.params_view() == self.params_view(),
            r.user_agent_view() == self.user_agent_view(),
            self.wf() ==> r.wf(),
    {
        ApiClient { base_url: self.base_url, params: self.params, user_agent: self.user_agent }
    }
}

impl ApiClient {
    /// The base URL given to the builder.
    pub closed spec fn base_url_view(&self) -> Seq<char> {
        self.base_url@
    }

    /// The accumulated parameters.
    pub closed spec fn params_view(&self) -> Map<Seq<char>, Seq<char>> {
        self.params@
    }

    /// The user agent given to the builder.
    pub closed spec fn user_agent_view(&self) -> Seq<char> {
        self.user_agent@
    }

    /// Well-formed: the parameter mapping is.
    pub closed spec fn wf(&self) -> bool {
        self.params.wf()
    }

    /// Lays out the GET request to `base_url + endpoint` that a transport
    /// outside the library issues.
    pub fn prepare_get(self, endpoint: &str) -> (r: GetRequest)
        ensures
            r.base_url@ == self.base_url_view(),
            r.endpoint@ == endpoint@,
            r.params@ == self.params_view(),
            self.wf() ==> r.wf(),
            r.ua_view() == Some(self.user_agent_view()),
    {
        GetRequest {
            base_url: self.base_url,
            endpoint: String::from_str(endpoint),
            params: self.params,
            user_agent: Some(self.user_agent),
        }
    }
}

} // verus!
