//! The positions endpoint.

use vstd::prelude::*;

use crate::api::handled;
use crate::api::response_handler;
use crate::api::FromJson;
use crate::api::PaginationResponse;
use crate::client::Client;
use crate::error::Error;
use crate::http::HttpRequest;
use crate::http::HttpResponse;
use crate::http::Method;
use crate::json::req_i64;
use crate::json::req_string;
use crate::json::spec_req_i64;
use crate::json::spec_req_string;
use crate::json::JsonVal;

pub mod performance;
pub mod statements;

verus! {

/// One open position.
#[derive(Debug)]
pub struct Position {
    /// The instrument's ISIN.
    pub isin: String,
    /// The instrument's title.
    pub isin_title: String,
    /// The number of units held.
    pub quantity: i64,
    /// The average buy price.
    pub buy_price_avg: i64,
    /// The estimated total price of the position.
    pub estimated_price_total: i64,
    /// The estimated price of one unit.
    pub estimated_price: i64,
}

/// The position a document decodes to, when it has the expected shape.
pub open spec fn spec_position(v: JsonVal) -> Option<Position> {
    if spec_req_string(v, "isin"@) is Some && spec_req_string(v, "isin_title"@) is Some && spec_req_i64(v, "quantity"@) is Some && spec_req_i64(v, "buy_price_avg"@) is Some && spec_req_i64(v, "estimated_price_total"@) is Some && spec_req_i64(v, "estimated_price"@) is Some {
        Some(
            Position {
                isin: spec_req_string(v, "isin"@)->Some_0,
                isin_title: spec_req_string(v, "isin_title"@)->Some_0,
                quantity: spec_req_i64(v, "quantity"@)->Some_0,
                buy_price_avg: spec_req_i64(v, "buy_price_avg"@)->Some_0,
                estimated_price_total: spec_req_i64(v, "estimated_price_total"@)->Some_0,
                estimated_price: spec_req_i64(v, "estimated_price"@)->Some_0,
            },
        )
    } else {
        None
    }
}

impl FromJson for Position {
    open spec fn decode_rel(v: JsonVal, r: Option<Position>) -> bool {
        r == spec_position(v)
    }

    proof fn lemma_decode_exclusive(v: JsonVal, t: Position) {
    }

    fn from_json(v: &JsonVal) -> Option<Position> {
        let isin = match req_string(v, "isin") {
            Some(x) => x,
            None => {
                return None;
            },
        };
        let isin_title = match req_string(v, "isin_title") {
            Some(x) => x,
            None => {
                return None;
            },
        };
        let quantity = match req_i64(v, "quantity") {
            Some(x) => x,
            None => {
                return None;
            },
        };
        let buy_price_avg = match req_i64(v, "buy_price_avg") {
            Some(x) => x,
            None => {
                return None;
            },
        };
        let estimated_price_total = match req_i64(v, "estimated_price_total") {
            Some(x) => x,
            None => {
                return None;
            },
        };
        let estimated_price = match req_i64(v, "estimated_price") {
            Some(x) => x,
            None => {
                return None;
            },
        };
        Some(
            Position {
                isin,
                isin_title,
                quantity,
                buy_price_avg,
                estimated_price_total,
                estimated_price,
            },
        )
    }
}

impl Client {
    /// The request that lists all positions.
    pub fn positions_request(&self) -> (r: HttpRequest)
        ensures
            r.method == Method::Get,
            r.url@ == self.base_url@ + "positions/"@,
            r.body is None,
    {
        self.get("positions/")
    }

    /// Get all positions: classify and decode the outcome of
    /// [`Client::positions_request`].
    pub fn get_positions(&self, outcome: Result<HttpResponse, String>) -> (r: Result<
        PaginationResponse<Position>,
        Error,
    >)
        ensures
            outcome matches Err(cause) ==> (r matches Err(e) && e matches Error::Transport(m)
                && m@ == cause@),
            outcome matches Ok(resp) ==> handled::<PaginationResponse<Position>>(resp.status, resp.body@, r),
    {
        response_handler::<PaginationResponse<Position>>(outcome)
    }
}

} // verus!
