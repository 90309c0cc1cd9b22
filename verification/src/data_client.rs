//! The client for the market data API.
//!
//! Like [`crate::client::TradingClient`], but fixed to the market data
//! endpoint at construction.

use vstd::prelude::*;
use vstd::string::StringExecFns;

use crate::http::delete_request;
use crate::http::get_request;
use crate::http::get_request_with_query;
use crate::http::post_request;
use crate::http::HttpRequest;
use crate::http::Method;
use crate::query::present_pairs;
use crate::query::urlencoded_of;
use crate::query::QueryParam;

verus! {

/// The base URL of the market data environment.
pub open spec fn data_endpoint_text() -> Seq<char> {
    "https://data.lemon.markets/v1/"@
}

/// The market data endpoint.
pub fn data_endpoint() -> (r: &'static str)
    ensures
        r@ == data_endpoint_text(),
{
    "https://data.lemon.markets/v1/"
}

/// The data client for the Lemon API.
#[derive(Debug)]
pub struct DataClient {
    /// The API key.
    pub api_key: String,
    /// The base URL for the API.
    pub base_url: String,
}

impl DataClient {
    /// Create a new data client.
    pub fn new(api_key: String) -> (r: DataClient)
        ensures
            r.api_key == api_key,
            r.base_url@ == data_endpoint_text(),
    {
        DataClient { api_key, base_url: data_endpoint().to_owned() }
    }

    /// Generic get request.
    pub fn get(&self, path: &str) -> (r: HttpRequest)
        ensures
            r.method == Method::Get,
            r.url@ == self.base_url@ + path@,
            r.body is None,
    {
        get_request(self.base_url.as_str(), path)
    }

    /// Generic get request with query parameters: an empty parameter set
    /// appends no query string, absent parameters are skipped.
    pub fn get_with_query(&self, path: &str, query: &Vec<QueryParam>) -> (r: HttpRequest)
        ensures
            r.method == Method::Get,
            r.body is None,
            present_pairs(query@).len() == 0 ==> r.url@ == self.base_url@ + path@,
            present_pairs(query@).len() > 0 ==> r.url@ == self.base_url@ + path@ + "?"@
                + urlencoded_of(present_pairs(query@)),
    {
        get_request_with_query(self.base_url.as_str(), path, query)
    }

    /// Generic post request, carrying an already-written JSON body.
    pub fn post(&self, path: &str, body: String) -> (r: HttpRequest)
        ensures
            r.method == Method::Post,
            r.url@ == self.base_url@ + path@,
            r.body == Some(body),
    {
        post_request(self.base_url.as_str(), path, body)
    }

    /// Generic delete request.
    pub fn delete(&self, path: &str, path_param: &str) -> (r: HttpRequest)
        ensures
            r.method == Method::Delete,
            r.url@ == self.base_url@ + path@ + "/"@ + path_param@,
            r.body is None,
    {
        delete_request(self.base_url.as_str(), path, path_param)
    }
}

} // verus!
