//! The position performance endpoint: when positions were opened and
//! closed, potential profits and losses, and related fees.

use vstd::prelude::*;

use crate::api::handled;
use crate::api::response_handler;
use crate::api::FromJson;
use crate::api::PaginationResponse;
use crate::client::Client;
use crate::error::Error;
use crate::http::HttpRequest;
use crate::http::HttpResponse;
use crate::http::Method;
use crate::json::opt_string;
use crate::json::req_i64;
use crate::json::req_string;
use crate::json::spec_opt_string;
use crate::json::spec_req_i64;
use crate::json::spec_req_string;
use crate::json::JsonVal;

verus! {

/// The performance of one position.
#[derive(Debug)]
pub struct PositionPerformance {
    /// The instrument's ISIN.
    pub isin: String,
    /// The instrument's title.
    pub isin_title: String,
    /// The realized profit.
    pub profit: i64,
    /// The realized loss.
    pub loss: i64,
    /// How many units were bought.
    pub quantity_bought: i64,
    /// How many units were sold.
    pub quantity_sold: i64,
    /// How many units are still open.
    pub quantity_open: i64,
    /// When the position was opened, if it has been.
    pub opened_at: Option<String>,
    /// When the position was closed, if it has been.
    pub closed_at: Option<String>,
    /// The fees related to the position's orders.
    pub fees: i64,
}

/// The position performance a document decodes to, when it has the expected shape.
pub open spec fn spec_position_performance(v: JsonVal) -> Option<PositionPerformance> {
    if spec_req_string(v, "isin"@) is Some && spec_req_string(v, "isin_title"@) is Some && spec_req_i64(v, "profit"@) is Some && spec_req_i64(v, "loss"@) is Some && spec_req_i64(v, "quantity_bought"@) is Some && spec_req_i64(v, "quantity_sold"@) is Some && spec_req_i64(v, "quantity_open"@) is Some && spec_opt_string(v, "opened_at"@) is Some && spec_opt_string(v, "closed_at"@) is Some && spec_req_i64(v, "fees"@) is Some {
        Some(
            PositionPerformance {
                isin: spec_req_string(v, "isin"@)->Some_0,
                isin_title: spec_req_string(v, "isin_title"@)->Some_0,
                profit: spec_req_i64(v, "profit"@)->Some_0,
                loss: spec_req_i64(v, "loss"@)->Some_0,
                quantity_bought: spec_req_i64(v, "quantity_bought"@)->Some_0,
                quantity_sold: spec_req_i64(v, "quantity_sold"@)->Some_0,
                quantity_open: spec_req_i64(v, "quantity_open"@)->Some_0,
                opened_at: spec_opt_string(v, "opened_at"@)->Some_0,
                closed_at: spec_opt_string(v, "closed_at"@)->Some_0,
                fees: spec_req_i64(v, "fees"@)->Some_0,
            },
        )
    } else {
        None
    }
}

impl FromJson for PositionPerformance {
    open spec fn decode_rel(v: JsonVal, r: Option<PositionPerformance>) -> bool {
        r == spec_position_performance(v)
    }

    proof fn lemma_decode_exclusive(v: JsonVal, t: PositionPerformance) {
    }

    fn from_json(v: &JsonVal) -> Option<PositionPerformance> {
        let isin = match req_string(v, "isin") {
            Some(x) => x,
            None => {
                return None;
            },
        };
        let isin_title = match req_string(v, "isin_title") {
            Some(x) => x,
            None => {
                return None;
            },
        };
        let profit = match req_i64(v, "profit") {
            Some(x) => x,
            None => {
                return None;
            },
        };
        let loss = match req_i64(v, "loss") {
            Some(x) => x,
            None => {
                return None;
            },
        };
        let quantity_bought = match req_i64(v, "quantity_bought") {
            Some(x) => x,
            None => {
                return None;
            },
        };
        let quantity_sold = match req_i64(v, "quantity_sold") {
            Some(x) => x,
            None => {
                return None;
            },
        };
        let quantity_open = match req_i64(v, "quantity_open") {
            Some(x) => x,
            None => {
                return None;
            },
        };
        let opened_at = match opt_string(v, "opened_at") {
            Some(x) => x,
            None => {
                return None;
            },
        };
        let closed_at = match opt_string(v, "closed_at") {
            Some(x) => x,
            None => {
                return None;
            },
        };
        let fees = match req_i64(v, "fees") {
            Some(x) => x,
            None => {
                return None;
            },
        };
        Some(
            PositionPerformance {
                isin,
                isin_title,
                profit,
                loss,
                quantity_bought,
                quantity_sold,
                quantity_open,
                opened_at,
                closed_at,
                fees,
            },
        )
    }
}

impl Client {
    /// The request that fetches the overview of position performances.
    pub fn positions_performance_request(&self) -> (r: HttpRequest)
        ensures
            r.method == Method::Get,
            r.url@ == self.base_url@ + "positions/performance"@,
            r.body is None,
    {
        self.get("positions/performance")
    }

    /// Get an overview of the position performances: classify and decode
    /// the outcome of [`Client::positions_performance_request`].
    pub fn get_positions_performance(&self, outcome: Result<HttpResponse, String>) -> (r: Result<
        PaginationResponse<PositionPerformance>,
        Error,
    >)
        ensures
            outcome matches Err(cause) ==> (r matches Err(e) && e matches Error::Transport(m)
                && m@ == cause@),
            outcome matches Ok(resp) ==> handled::<PaginationResponse<PositionPerformance>>(resp.status, resp.body@, r),
    {
        response_handler::<PaginationResponse<PositionPerformance>>(outcome)
    }
}

} // verus!
