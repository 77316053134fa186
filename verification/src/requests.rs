//! The entry point: the whole request for one GET.

use crate::options::{Options, OptionsView};
use crate::request::{
    get_request_url, given_query, mandated_headers, set_headers, set_query_params, Request,
    RequestView,
};
use vstd::prelude::*;

verus! {

/// The operations on the API. There is one: `get`.
pub struct Requests;

/// The request that `get` composes: the target is the base URL followed by
/// the path, the headers are the three mandated ones and no other, and the
/// query pairs are the caller's, or none.
pub open spec fn composed(
    options: OptionsView,
    url: Seq<char>,
    query: Option<Seq<(Seq<char>, Seq<char>)>>,
) -> RequestView {
    RequestView {
        url: options.base_url + url,
        headers: mandated_headers(options),
        query: match query {
            Some(pairs) => pairs,
            None => Seq::empty(),
        },
    }
}

impl Requests {
    /// Composes the GET request for the relative path `url`: target,
    /// mandated headers, and the query pairs where some are given.
    pub fn get(options: &Options, url: &str, query: Option<Vec<(String, String)>>) -> (request:
        Request)
        ensures
            request@ == composed(options@, url@, given_query(query)),
    {
        let request_url = get_request_url(options, url);
        let fresh = Request::new(request_url);
        set_headers(options, set_query_params(query, fresh))
    }
}

/// Two requests composed under the same options for different paths do not
/// interfere: their targets differ, both carry the mandated headers and no
/// other, and each holds the query pairs of its own call and none of the
/// other's.
pub proof fn lemma_paths_do_not_interfere(
    options: OptionsView,
    first_url: Seq<char>,
    first_query: Option<Seq<(Seq<char>, Seq<char>)>>,
    second_url: Seq<char>,
    second_query: Option<Seq<(Seq<char>, Seq<char>)>>,
)
    requires
        first_url != second_url,
    ensures
        composed(options, first_url, first_query).url != composed(
            options,
            second_url,
            second_query,
        ).url,
        composed(options, first_url, first_query).headers == mandated_headers(options),
        composed(options, second_url, second_query).headers == mandated_headers(options),
        composed(options, first_url, first_query).query == composed(
            options,
            second_url,
            first_query,
        ).query,
        composed(options, second_url, second_query).query == composed(
            options,
            first_url,
            second_query,
        ).query,
{
    let base = options.base_url;
    let a = base + first_url;
    let b = base + second_url;
    if a == b {
        assert(first_url =~= a.subrange(base.len() as int, a.len() as int));
        assert(second_url =~= b.subrange(base.len() as int, b.len() as int));
    }
}

} // verus!
