use vstd::prelude::*;

use crate::api::Api;
use crate::params::{encoded, Scalar};

verus! {

/// HTTP methods that the API uses.
#[derive(PartialEq, Eq, Structural, Clone, Copy, Debug)]
pub enum Method {
    /// Read endpoints; parameters go in the query.
    Get,
    /// Batch and submit endpoints; parameters go in a form-encoded body.
    Post,
    /// Removal endpoints; parameters go in the query.
    Delete,
}

/// An outgoing request, exactly as it is to be sent.
#[derive(Debug)]
pub struct Request {
    /// HTTP method.
    pub method: Method,
    /// Absolute URL, query included.
    pub url: String,
    /// Header names and values, in the order they are attached.
    pub headers: Vec<(String, String)>,
    /// Body; empty unless the method is `Post`.
    pub body: String,
}

/// What a request holds, as plain sequences.
pub struct RequestView {
    /// HTTP method.
    pub method: Method,
    /// Absolute URL, query included.
    pub url: Seq<char>,
    /// Header names and values, in order.
    pub headers: Seq<(Seq<char>, Seq<char>)>,
    /// Body.
    pub body: Seq<char>,
}

impl View for Request {
    type V = RequestView;

    open spec fn view(&self) -> RequestView {
        RequestView {
            method: self.method,
            url: self.url@,
            headers: self.headers.deep_view(),
            body: self.body@,
        }
    }
}

/// Name of the header that carries the API key.
pub open spec fn key_header() -> Seq<char> {
    "X-ListenAPI-Key"@
}

/// Name of the user agent header.
pub open spec fn agent_header() -> Seq<char> {
    "User-Agent"@
}

/// Name of the content type header.
pub open spec fn content_type_header() -> Seq<char> {
    "Content-Type"@
}

/// Content type of a form-encoded body.
pub open spec fn form_content_type() -> Seq<char> {
    "application/x-www-form-urlencoded"@
}

/// Whether parameters of this method travel in the URL's query.
pub open spec fn uses_query(method: Method) -> bool {
    method != Method::Post
}

/// Absolute URL of a call: base, `/`, path, then the query if the method
/// carries one and it is not empty.
pub open spec fn call_url(base: Seq<char>, path: Seq<char>, method: Method, query: Seq<char>) -> Seq<
    char,
> {
    if uses_query(method) && query.len() > 0 {
        base + "/"@ + path + "?"@ + query
    } else {
        base + "/"@ + path
    }
}

/// Headers of a call: the form content type for `Post`, the key where the
/// context has one, and always the user agent.
pub open spec fn call_headers(method: Method, key: Option<Seq<char>>, agent: Seq<char>) -> Seq<
    (Seq<char>, Seq<char>),
> {
    let form = if method == Method::Post {
        seq![(content_type_header(), form_content_type())]
    } else {
        Seq::empty()
    };
    let auth = match key {
        Some(k) => seq![(key_header(), k)],
        None => Seq::empty(),
    };
    form + auth + seq![(agent_header(), agent)]
}

/// The request for a call of `path` with `method` and `params`, in context
/// `api`, with user agent `agent`.
pub open spec fn call_request(
    api: Api,
    agent: Seq<char>,
    method: Method,
    path: Seq<char>,
    params: Seq<(Seq<char>, Scalar)>,
) -> RequestView {
    RequestView {
        method,
        url: call_url(api.base_url(), path, method, encoded(params)),
        headers: call_headers(method, api.key(), agent),
        body: if uses_query(method) {
            Seq::empty()
        } else {
            encoded(params)
        },
    }
}

/// Whether a header of this name is among the headers.
pub open spec fn has_header(headers: Seq<(Seq<char>, Seq<char>)>, name: Seq<char>) -> bool {
    exists|i: int| 0 <= i < headers.len() && #[trigger] headers[i].0 == name
}

/// The three header names differ from one another.
proof fn header_names_differ()
    ensures
        content_type_header() != key_header(),
        content_type_header() != agent_header(),
        key_header() != agent_header(),
{
    reveal_strlit("Content-Type");
    reveal_strlit("X-ListenAPI-Key");
    reveal_strlit("User-Agent");
    assert(content_type_header().len() != key_header().len());
    assert(content_type_header().len() != agent_header().len());
    assert(key_header().len() != agent_header().len());
}

/// Parameters of `GET` and `DELETE` travel as the URL's query, exactly the
/// encoded bag, with an empty body and no content type header; those of `POST`
/// travel as the body, exactly the encoded bag, under the form content type,
/// with no query.
pub proof fn params_placement(
    api: Api,
    agent: Seq<char>,
    method: Method,
    path: Seq<char>,
    params: Seq<(Seq<char>, Scalar)>,
)
    ensures
        ({
            let r = call_request(api, agent, method, path, params);
            let q = encoded(params);
            &&& uses_query(method) ==> {
                &&& r.body.len() == 0
                &&& q.len() > 0 ==> r.url == api.base_url() + "/"@ + path + "?"@ + q
                &&& q.len() == 0 ==> r.url == api.base_url() + "/"@ + path
                &&& !has_header(r.headers, content_type_header())
            }
            &&& !uses_query(method) ==> {
                &&& r.body == q
                &&& r.url == api.base_url() + "/"@ + path
                &&& r.headers.contains((content_type_header(), form_content_type()))
            }
        }),
{
    let r = call_request(api, agent, method, path, params);
    header_names_differ();
    if uses_query(method) {
        if has_header(r.headers, content_type_header()) {
            let i = choose|i: int|
                0 <= i < r.headers.len() && #[trigger] r.headers[i].0 == content_type_header();
            assert(r.headers[i].0 == key_header() || r.headers[i].0 == agent_header());
        }
    } else {
        assert(r.headers[0] == (content_type_header(), form_content_type()));
    }
}

/// A mock context never sends the key header; a production context always
/// sends it, with its key.
pub proof fn key_header_by_context(
    api: Api,
    agent: Seq<char>,
    method: Method,
    path: Seq<char>,
    params: Seq<(Seq<char>, Scalar)>,
)
    ensures
        ({
            let h = call_request(api, agent, method, path, params).headers;
            &&& api is Mock ==> !has_header(h, key_header())
            &&& api is Production ==> h.contains((key_header(), api.key().unwrap()))
        }),
{
    let h = call_request(api, agent, method, path, params).headers;
    header_names_differ();
    if api is Mock {
        if has_header(h, key_header()) {
            let i = choose|i: int| 0 <= i < h.len() && #[trigger] h[i].0 == key_header();
            assert(h[i].0 == content_type_header() || h[i].0 == agent_header());
        }
    } else {
        let i: int = if method == Method::Post {
            1
        } else {
            0
        };
        assert(h[i] == (key_header(), api.key().unwrap()));
    }
}

} // verus!
