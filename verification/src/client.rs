//! The client for the trading API.
//!
//! A client holds the API key and the base URL fixed at construction; the
//! trading environment (paper or live money) is selected by the base URL
//! alone and never changes for the lifetime of the instance.  The four
//! generic operations build the outbound request; the caller performs it
//! with the `Authorization` header of [`crate::http::authorization_value`]
//! and hands the outcome to [`crate::api::response_handler`].

use vstd::prelude::*;
use vstd::string::StringExecFns;

use crate::http::delete_request;
use crate::http::get_request;
use crate::http::get_request_with_query;
use crate::http::post_request;
use crate::http::HttpRequest;
use crate::http::Method;
use crate::query::present_pairs;
use crate::query::urlencoded_of;
use crate::query::QueryParam;

verus! {

/// The base URL of the paper trading environment.
pub open spec fn paper_endpoint_text() -> Seq<char> {
    "https://paper-trading.lemon.markets/v1/"@
}

/// The base URL of the live money trading environment.
pub open spec fn money_endpoint_text() -> Seq<char> {
    "https://trading.lemon.markets/v1/"@
}

/// The paper trading endpoint.
pub fn paper_endpoint() -> (r: &'static str)
    ensures
        r@ == paper_endpoint_text(),
{
    "https://paper-trading.lemon.markets/v1/"
}

/// The live money trading endpoint.
pub fn money_endpoint() -> (r: &'static str)
    ensures
        r@ == money_endpoint_text(),
{
    "https://trading.lemon.markets/v1/"
}

/// The client for the Lemon trading API.
#[derive(Debug)]
pub struct Client {
    /// The API key.
    pub api_key: String,
    /// The base URL for the API.
    pub base_url: String,
}

/// The historical name of the trading client.
pub type TradingClient = Client;

impl Client {
    /// Create a new client speaking to the given endpoint.
    pub fn new(api_key: String, endpoint: &str) -> (r: Client)
        ensures
            r.api_key == api_key,
            r.base_url@ == endpoint@,
    {
        Client { api_key, base_url: endpoint.to_owned() }
    }

    /// Create a new client for paper trading with the given API key.
    pub fn paper_client(api_key: &str) -> (r: Client)
        ensures
            r.api_key@ == api_key@,
            r.base_url@ == paper_endpoint_text(),
    {
        Client::new(api_key.to_owned(), paper_endpoint())
    }

    /// Create a new client for live trading with the given API key.
    pub fn live_client(api_key: String) -> (r: Client)
        ensures
            r.api_key == api_key,
            r.base_url@ == money_endpoint_text(),
    {
        Client::new(api_key, money_endpoint())
    }

    /// Generic get request.
    pub fn get(&self, path: &str) -> (r: HttpRequest)
        ensures
            r.method == Method::Get,
            r.url@ == self.base_url@ + path@,
            r.body is None,
    {
        get_request(self.base_url.as_str(), path)
    }

    /// Generic get request with query parameters: an empty parameter set
    /// appends no query string, absent parameters are skipped.
    pub fn get_with_query(&self, path: &str, query: &Vec<QueryParam>) -> (r: HttpRequest)
        ensures
            r.method == Method::Get,
            r.body is None,
            present_pairs(query@).len() == 0 ==> r.url@ == self.base_url@ + path@,
            present_pairs(query@).len() > 0 ==> r.url@ == self.base_url@ + path@ + "?"@
                + urlencoded_of(present_pairs(query@)),
    {
        get_request_with_query(self.base_url.as_str(), path, query)
    }

    /// Generic post request, carrying an already-written JSON body.
    pub fn post(&self, path: &str, body: String) -> (r: HttpRequest)
        ensures
            r.method == Method::Post,
            r.url@ == self.base_url@ + path@,
            r.body == Some(body),
    {
        post_request(self.base_url.as_str(), path, body)
    }

    /// Generic delete request.
    pub fn delete(&self, path: &str, path_param: &str) -> (r: HttpRequest)
        ensures
            r.method == Method::Delete,
            r.url@ == self.base_url@ + path@ + "/"@ + path_param@,
            r.body is None,
    {
        delete_request(self.base_url.as_str(), path, path_param)
    }
}

} // verus!
