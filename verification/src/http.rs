//! Plain descriptions of the HTTP exchange.
//!
//! The crate never performs a request itself: each endpoint builds an
//! [`HttpRequest`] naming the method, the full URL and an optional JSON
//! body, the caller performs it, and hands back an [`HttpResponse`] (or
//! the text of a transport failure) for classification and decoding.

use vstd::prelude::*;
use vstd::string::StrSliceExecFns;
use vstd::string::StringExecFns;

use crate::query::present_pairs;
use crate::query::query_string;
use crate::query::urlencoded_of;
use crate::query::QueryParam;

verus! {

/// The request methods the service is spoken to with.
#[derive(Clone, Copy, Debug, PartialEq, Eq, Structural)]
pub enum Method {
    Get,
    Post,
    Delete,
}

/// One outbound request, ready to be performed: every request additionally
/// carries the client's `Authorization` header (see [`authorization_value`]).
#[derive(Debug)]
pub struct HttpRequest {
    pub method: Method,
    pub url: String,
    pub body: Option<String>,
}

/// What came back: the HTTP status code and the raw body text.
#[derive(Debug)]
pub struct HttpResponse {
    pub status: u16,
    pub body: String,
}

/// The value of the `Authorization` header sent with every request.
pub fn authorization_value(api_key: &str) -> (r: String)
    ensures
        r@ == "Bearer "@ + api_key@,
{
    let r = String::from_str("Bearer ").concat(api_key);
    r
}

/// The URL of a plain endpoint: the base URL followed by the path.
pub fn join_url(base: &str, path: &str) -> (r: String)
    ensures
        r@ == base@ + path@,
{
    base.to_owned().concat(path)
}

/// A GET request for the given path.
pub fn get_request(base: &str, path: &str) -> (r: HttpRequest)
    ensures
        r.method == Method::Get,
        r.url@ == base@ + path@,
        r.body is None,
{
    HttpRequest { method: Method::Get, url: join_url(base, path), body: None }
}

/// A GET request with query parameters.  An empty parameter set appends no
/// query string at all; otherwise `?` and the form-encoding of exactly the
/// present parameters follow the path.
pub fn get_request_with_query(base: &str, path: &str, params: &Vec<QueryParam>) -> (r: HttpRequest)
    ensures
        r.method == Method::Get,
        r.body is None,
        present_pairs(params@).len() == 0 ==> r.url@ == base@ + path@,
        present_pairs(params@).len() > 0 ==> r.url@ == base@ + path@ + "?"@ + urlencoded_of(
            present_pairs(params@),
        ),
{
    let q = query_string(params);
    let mut url = join_url(base, path);
    if q.unicode_len() > 0 {
        url.append("?");
        url.append(q.as_str());
    }
    HttpRequest { method: Method::Get, url, body: None }
}

/// A POST request carrying an already-written JSON body.
pub fn post_request(base: &str, path: &str, body: String) -> (r: HttpRequest)
    ensures
        r.method == Method::Post,
        r.url@ == base@ + path@,
        r.body == Some(body),
{
    HttpRequest { method: Method::Post, url: join_url(base, path), body: Some(body) }
}

/// A DELETE request for the given path with a path parameter appended
/// after a separating slash.
pub fn delete_request(base: &str, path: &str, path_param: &str) -> (r: HttpRequest)
    ensures
        r.method == Method::Delete,
        r.url@ == base@ + path@ + "/"@ + path_param@,
        r.body is None,
{
    let mut url = join_url(base, path);
    url.append("/");
    url.append(path_param);
    HttpRequest { method: Method::Delete, url, body: None }
}

} // verus!
