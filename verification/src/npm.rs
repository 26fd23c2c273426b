//! The adapter for the npm package search service.

use vstd::prelude::*;
use crate::client::{ApiClientBuilder, GetRequest};
use crate::decimal::{dec_chars, u32_to_dec};

verus! {

/// The given number, or the default when none is given.
pub open spec fn opt_u32(o: Option<u32>, d: u32) -> nat {
    match o {
        Some(v) => v as nat,
        None => d as nat,
    }
}

/// The parameters that an npm search sends: the query text when one is
/// given, and the result count (25 unless given).
pub open spec fn npm_params(query: Option<String>, size: Option<u32>) -> Map<Seq<char>, Seq<char>> {
    let m = match query {
        Some(q) => Map::<Seq<char>, Seq<char>>::empty().insert("q"@, q@),
        None => Map::<Seq<char>, Seq<char>>::empty(),
    };
    m.insert("size"@, dec_chars(opt_u32(size, 25)))
}

/// Searches for packages on the npm search service: lays out the single GET,
/// with the service's fixed base URL and user agent, that a transport
/// outside the library then issues.
pub fn search_npm(query: Option<String>, size: Option<u32>) -> (r: GetRequest)
    ensures
        r.wf(),
        r.base_url@ == "https://api.npms.io/v2/search/"@,
        r.endpoint@ == ""@,
        r.url_view() == "https://api.npms.io/v2/search/"@,
        r.ua_view() == Some("my_crawler (help@my_crawler.com)"@),
        r.params@ == npm_params(query, size),
{
    proof {
        reveal_strlit("");
        assert("https://api.npms.io/v2/search/"@ + ""@ =~= "https://api.npms.io/v2/search/"@);
    }
    let user_agent = "my_crawler (help@my_crawler.com)";
    let mut client = ApiClientBuilder::new("https://api.npms.io/v2/search/", user_agent);

    if let Some(q) = query {
        client = client.set_param("q", q.as_str());
    }

    let size_value = match size {
        Some(s) => s,
        None => 25,
    };
    let size_text = u32_to_dec(size_value);
    client = client.set_param("size", size_text.as_str());

    client.build().prepare_get("")
}

/// Omitting every optional argument sends the documented default: 25
/// results, and no query parameter at all.
pub proof fn lemma_npm_defaults()
    ensures
        npm_params(None, None) == Map::<Seq<char>, Seq<char>>::empty().insert("size"@, "25"@),
{
    reveal_strlit("25");
    assert(dec_chars(25nat) =~= "25"@) by {
        assert(dec_chars(25nat) =~= dec_chars(2nat).push('5'));
        assert(dec_chars(2nat) =~= seq!['2']);
    }
}

} // verus!
