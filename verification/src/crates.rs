//! The adapter for the crate registry's search endpoint.

use vstd::prelude::*;
use crate::client::{ApiClientBuilder, GetRequest};
use crate::decimal::{dec_chars_signed, i32_to_dec};

verus! {

/// The given number, or the default when none is given.
pub open spec fn opt_i32(o: Option<i32>, d: i32) -> int {
    match o {
        Some(v) => v as int,
        None => d as int,
    }
}

/// The parameters that a crate search sends: the page (1 unless given), the
/// page size (25 unless given), and the query text when one is given.
pub open spec fn crates_params(
    query: Option<String>,
    page: Option<i32>,
    per_page: Option<i32>,
) -> Map<Seq<char>, Seq<char>> {
    let m = Map::<Seq<char>, Seq<char>>::empty().insert(
        "page"@,
        dec_chars_signed(opt_i32(page, 1)),
    ).insert("per_page"@, dec_chars_signed(opt_i32(per_page, 25)));
    match query {
        Some(q) => m.insert("q"@, q@),
        None => m,
    }
}

/// Searches for crates on the crate registry: lays out the single GET, with
/// the registry's fixed base URL and user agent, that a transport outside
/// the library then issues.
pub fn search_crates(query: Option<String>, page: Option<i32>, per_page: Option<i32>) -> (r:
    GetRequest)
    ensures
        r.wf(),
        r.base_url@ == "https://crates.io/api/v1/"@,
        r.endpoint@ == "crates"@,
        r.url_view() == "https://crates.io/api/v1/crates"@,
        r.ua_view() == Some("my_crawler (help@my_crawler.com)"@),
        r.params@ == crates_params(query, page, per_page),
{
    proof {
        reveal_strlit("https://crates.io/api/v1/");
        reveal_strlit("crates");
        reveal_strlit("https://crates.io/api/v1/crates");
        assert("https://crates.io/api/v1/"@ + "crates"@ =~= "https://crates.io/api/v1/crates"@);
    }
    let user_agent = "my_crawler (help@my_crawler.com)";
    let page_value = match page {
        Some(p) => p,
        None => 1,
    };
    let per_page_value = match per_page {
        Some(p) => p,
        None => 25,
    };
    let page_text = i32_to_dec(page_value);
    let per_page_text = i32_to_dec(per_page_value);
    let mut client = ApiClientBuilder::new("https://crates.io/api/v1/", user_agent).set_param(
        "page",
        page_text.as_str(),
    ).set_param("per_page", per_page_text.as_str());

    if let Some(q) = query {
        client = client.set_param("q", q.as_str());
    }

    client.build().prepare_get("crates")
}

/// Omitting every optional argument sends the documented defaults: the
/// first page and 25 results per page, and no query parameter at all.
pub proof fn lemma_crates_defaults()
    ensures
        crates_params(None, None, None) == Map::<Seq<char>, Seq<char>>::empty().insert(
            "page"@,
            "1"@,
        ).insert("per_page"@, "25"@),
{
    reveal_strlit("1");
    reveal_strlit("25");
    assert(dec_chars_signed(1) =~= "1"@) by {
        assert(crate::decimal::dec_chars(1nat) =~= seq!['1']);
    }
    assert(dec_chars_signed(25) =~= "25"@) by {
        assert(crate::decimal::dec_chars(25nat) =~= crate::decimal::dec_chars(2nat).push('5'));
        assert(crate::decimal::dec_chars(2nat) =~= seq!['2']);
    }
}

} // verus!
