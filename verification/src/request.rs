//! The request under construction: target, headers and query pairs.

use crate::options::{Options, OptionsView};
use vstd::prelude::*;

verus! {

/// One header line of a request.
#[derive(Clone, Debug, PartialEq, Eq)]
pub struct Header {
    pub name: String,
    pub value: String,
}

/// A GET request that is being put together, as the transport will need it:
/// the target, the headers in the order they were attached, and the pairs of
/// the query string in the order they were attached.
///
/// Without query pairs the request has no query string of its own.
#[derive(Clone, Debug, PartialEq, Eq)]
pub struct Request {
    pub url: String,
    pub headers: Vec<Header>,
    pub query: Vec<(String, String)>,
}

/// A request as plain character sequences.
pub struct RequestView {
    pub url: Seq<char>,
    pub headers: Seq<(Seq<char>, Seq<char>)>,
    pub query: Seq<(Seq<char>, Seq<char>)>,
}

/// Each header as its name and value.
pub open spec fn header_pairs(headers: Seq<Header>) -> Seq<(Seq<char>, Seq<char>)> {
    headers.map_values(|h: Header| (h.name@, h.value@))
}

/// Each query pair as its key and value.
pub open spec fn query_pairs(pairs: Seq<(String, String)>) -> Seq<(Seq<char>, Seq<char>)> {
    pairs.map_values(|p: (String, String)| (p.0@, p.1@))
}

/// The query pairs that a caller hands over, if any.
pub open spec fn given_query(query: Option<Vec<(String, String)>>) -> Option<
    Seq<(Seq<char>, Seq<char>)>,
> {
    match query {
        Some(pairs) => Some(query_pairs(pairs@)),
        None => None,
    }
}

impl View for Request {
    type V = RequestView;

    open spec fn view(&self) -> RequestView {
        RequestView {
            url: self.url@,
            headers: header_pairs(self.headers@),
            query: query_pairs(self.query@),
        }
    }
}

/// The three headers that every request carries, in the order they are
/// attached: the API key, the bearer token and the accepted content type.
pub open spec fn mandated_headers(options: OptionsView) -> Seq<(Seq<char>, Seq<char>)> {
    seq![
        ("x-api-key"@, options.api_key),
        ("Authorization"@, "Bearer "@ + options.authorization),
        ("Accept"@, "application/json"@),
    ]
}

/// `request` with the mandated headers attached behind those it has.
pub open spec fn with_headers(options: OptionsView, request: RequestView) -> RequestView {
    RequestView { headers: request.headers + mandated_headers(options), ..request }
}

/// `request` with the given pairs attached behind those it has; unchanged
/// where none are given.
pub open spec fn with_query(
    query: Option<Seq<(Seq<char>, Seq<char>)>>,
    request: RequestView,
) -> RequestView {
    match query {
        Some(pairs) => RequestView { query: request.query + pairs, ..request },
        None => request,
    }
}

impl Request {
    /// A request for `url` with no header and no query pair.
    pub fn new(url: String) -> (request: Request)
        ensures
            request@ == (RequestView { url: url@, headers: Seq::empty(), query: Seq::empty() }),
    {
        let request = Request { url, headers: Vec::new(), query: Vec::new() };
        assert(header_pairs(request.headers@) =~= Seq::empty());
        assert(query_pairs(request.query@) =~= Seq::empty());
        request
    }
}

/// The absolute request target: the base URL with `url` appended as it is.
///
/// Nothing is normalized: no slash is added or removed, and the result is not
/// checked to be a URL.
pub fn get_request_url(options: &Options, url: &str) -> (target: String)
    ensures
        target@ == options@.base_url + url@,
{
    let mut target = options.base_url().to_owned();
    target.append(url);
    target
}

/// Attaches the three mandated headers to `request` and leaves the rest of
/// it, and `options`, as they are.
pub fn set_headers(options: &Options, request: Request) -> (out: Request)
    ensures
        out@ == with_headers(options@, request@),
{
    let mut out = request;
    let mut bearer = "Bearer ".to_owned();
    bearer.append(options.authorization());
    out.headers.push(Header { name: "x-api-key".to_owned(), value: options.api_key().to_owned() });
    out.headers.push(Header { name: "Authorization".to_owned(), value: bearer });
    out.headers.push(Header { name: "Accept".to_owned(), value: "application/json".to_owned() });
    assert(header_pairs(out.headers@) =~= header_pairs(request.headers@) + mandated_headers(
        options@,
    ));
    out
}

/// Attaches the given query pairs to `request`, in their order; without
/// pairs to attach the request comes back unchanged.
pub fn set_query_params(query: Option<Vec<(String, String)>>, request: Request) -> (out: Request)
    ensures
        out@ == with_query(given_query(query), request@),
{
    match query {
        Some(pairs) => {
            let mut out = request;
            let mut pairs = pairs;
            out.query.append(&mut pairs);
            assert(query_pairs(out.query@) =~= query_pairs(request.query@) + query_pairs(
                query.unwrap()@,
            ));
            out
        },
        None => request,
    }
}

} // verus!
