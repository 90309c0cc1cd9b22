//! The order endpoints: placing, activating and deleting orders.

use vstd::prelude::*;
use vstd::string::StringExecFns;

use crate::api::handled;
use crate::api::response_handler;
use crate::api::FromJson;
use crate::api::GenericResponse;
use crate::api::Response;
use crate::client::Client;
use crate::error::Error;
use crate::http::HttpRequest;
use crate::http::HttpResponse;
use crate::http::Method;
use crate::json::field_of;
use crate::json::json_quote;
use crate::json::json_string;
use crate::json::opt_i64;
use crate::json::opt_string;
use crate::json::req_string;
use crate::json::spec_opt_i64;
use crate::json::spec_opt_string;
use crate::json::spec_req_string;
use crate::json::JsonVal;
use crate::text::dec_int;
use crate::text::i64_to_dec;
use crate::text::str_eq;

verus! {

/// Whether an order buys or sells.
#[derive(Clone, Copy, Debug, PartialEq, Eq, Structural)]
pub enum OrderType {
    /// A buy order.
    Buy,
    /// A sell order.
    Sell,
}

/// The text of an order side on the wire.
pub open spec fn order_type_name(t: OrderType) -> Seq<char> {
    match t {
        OrderType::Buy => "buy"@,
        OrderType::Sell => "sell"@,
    }
}

/// The order side a wire text stands for.
pub open spec fn order_type_of(s: Seq<char>) -> Option<OrderType> {
    if s == "buy"@ {
        Some(OrderType::Buy)
    } else if s == "sell"@ {
        Some(OrderType::Sell)
    } else {
        None
    }
}

impl OrderType {
    /// The wire text of this order side.
    pub fn as_str(&self) -> (r: &'static str)
        ensures
            r@ == order_type_name(*self),
    {
        match self {
            OrderType::Buy => "buy",
            OrderType::Sell => "sell",
        }
    }

    /// The order side a wire text stands for, if it stands for one.
    pub fn from_wire(s: &str) -> (r: Option<OrderType>)
        ensures
            r == order_type_of(s@),
    {
        if str_eq(s, "buy") {
            Some(OrderType::Buy)
        } else if str_eq(s, "sell") {
            Some(OrderType::Sell)
        } else {
            None
        }
    }
}

/// Law: writing an order side and reading the text back gives the side
/// again.
pub proof fn lemma_order_type_round_trip(t: OrderType)
    ensures
        order_type_of(order_type_name(t)) == Some(t),
{
    reveal_strlit("buy");
    reveal_strlit("sell");
    assert("buy"@.len() == 3);
    assert("sell"@.len() == 4);
    match t {
        OrderType::Buy => assert(order_type_of(order_type_name(t)) == Some(t)),
        OrderType::Sell => assert(order_type_of(order_type_name(t)) == Some(t)),
    }
}

/// The body of an order placement.
#[derive(Debug)]
pub struct OrderPlacing {
    /// The instrument to place the order for.
    pub isin: String,
    /// Expiry date of the order, if one is set.
    pub expires_at: Option<String>,
    /// Whether the order buys or sells.
    pub side: OrderType,
    /// How many units to buy or sell.
    pub quantity: i64,
    /// The venue to place the order at, if one is chosen.
    pub venue: Option<String>,
}

/// The JSON text sent for an order placement.
pub open spec fn order_placing_json(o: OrderPlacing) -> Seq<char> {
    "{\"isin\":"@ + json_string(o.isin@) + ",\"expires_at\":"@ + (match o.expires_at {
        Some(s) => json_string(s@),
        None => "null"@,
    }) + ",\"side\":"@ + json_string(order_type_name(o.side)) + ",\"quantity\":"@ + dec_int(
        o.quantity as int,
    ) + ",\"venue\":"@ + (match o.venue {
        Some(s) => json_string(s@),
        None => "null"@,
    }) + "}"@
}

impl OrderPlacing {
    /// Write this order placement as its JSON body.
    pub fn to_json(&self) -> (r: String)
        ensures
            r@ == order_placing_json(*self),
    {
        let mut r = String::from_str("{\"isin\":");
        r.append(json_quote(self.isin.as_str()).as_str());
        r.append(",\"expires_at\":");
        match &self.expires_at {
            Some(s) => {
                r.append(json_quote(s.as_str()).as_str());
            },
            None => {
                r.append("null");
            },
        }
        r.append(",\"side\":");
        r.append(json_quote(self.side.as_str()).as_str());
        r.append(",\"quantity\":");
        r.append(i64_to_dec(self.quantity).as_str());
        r.append(",\"venue\":");
        match &self.venue {
            Some(s) => {
                r.append(json_quote(s.as_str()).as_str());
            },
            None => {
                r.append("null");
            },
        }
        r.append("}");
        proof {
            assert(r@ =~= order_placing_json(*self));
        }
        r
    }
}

/// The envelope returned when an order is placed.
#[derive(Debug)]
pub struct OrderPlacingResponse<T> {
    /// Timestamp of the request, as the service reported it.
    pub time: String,
    /// Status of the request; the service sends `"ok"` on success.
    pub status: String,
    /// Environment the request was placed in.
    pub mode: String,
    /// The actual results of the query, when the service sent any.
    pub results: Option<T>,
}

impl<T> OrderPlacingResponse<T> {
    /// Whether the envelope's status field says `"ok"`.
    pub fn is_ok(&self) -> (r: bool)
        ensures
            r == (self.status@ == "ok"@),
    {
        str_eq(self.status.as_str(), "ok")
    }
}

/// Whether a document has the order envelope's shape, its payload (when
/// present) included.
pub open spec fn order_placing_response_decodes<T: FromJson>(v: JsonVal) -> bool {
    &&& spec_req_string(v, "time"@) is Some
    &&& spec_req_string(v, "status"@) is Some
    &&& spec_req_string(v, "mode"@) is Some
    &&& (match field_of(v, "results"@) {
        None => true,
        Some(JsonVal::Null) => true,
        Some(doc) => !T::decode_rel(doc, None),
    })
}

impl<T: FromJson> FromJson for OrderPlacingResponse<T> {
    /// The envelope fields are pinned by the field readers; the payload,
    /// when one is sent, by the payload type's own decode.
    open spec fn decode_rel(v: JsonVal, r: Option<OrderPlacingResponse<T>>) -> bool {
        match r {
            None => !order_placing_response_decodes::<T>(v),
            Some(p) => {
                &&& order_placing_response_decodes::<T>(v)
                &&& Some(p.time) == spec_req_string(v, "time"@)
                &&& Some(p.status) == spec_req_string(v, "status"@)
                &&& Some(p.mode) == spec_req_string(v, "mode"@)
                &&& (match field_of(v, "results"@) {
                    None => p.results is None,
                    Some(JsonVal::Null) => p.results is None,
                    Some(doc) => (match p.results {
                        Some(t) => T::decode_rel(doc, Some(t)),
                        None => false,
                    }),
                })
            },
        }
    }

    proof fn lemma_decode_exclusive(v: JsonVal, t: OrderPlacingResponse<T>) {
    }

    fn from_json(v: &JsonVal) -> Option<OrderPlacingResponse<T>> {
        let time = match req_string(v, "time") {
            Some(s) => s,
            None => {
                return None;
            },
        };
        let status = match req_string(v, "status") {
            Some(s) => s,
            None => {
                return None;
            },
        };
        let mode = match req_string(v, "mode") {
            Some(s) => s,
            None => {
                return None;
            },
        };
        let results: Option<T> = match v.get("results") {
            None => None,
            Some(f) => {
                match f {
                    JsonVal::Null => None,
                    _ => {
                        match T::from_json(f) {
                            Some(t) => {
                                proof {
                                    T::lemma_decode_exclusive(*f, t);
                                }
                                Some(t)
                            },
                            None => {
                                return None;
                            },
                        }
                    },
                }
            },
        };
        Some(OrderPlacingResponse { time, status, mode, results })
    }
}

/// Regulatory information about an order.
#[derive(Debug)]
pub struct RegulatoryInformation {
    /// Costs of entering the position.
    pub costs_entry: Option<i64>,
    /// Costs of entering the position, as a percentage.
    pub costs_entry_pct: Option<String>,
    /// Running costs of the position.
    pub costs_running: Option<i64>,
    /// Running costs of the position, as a percentage.
    pub costs_running_pct: Option<String>,
    /// Costs of the product.
    pub costs_product: Option<i64>,
    /// Costs of the product, as a percentage.
    pub costs_product_pct: Option<String>,
    /// Costs of exiting the position.
    pub costs_exit: Option<i64>,
    /// Costs of exiting the position, as a percentage.
    pub costs_exit_pct: Option<String>,
    /// Yield reduction in the first year.
    pub yield_reduction_year: Option<i64>,
    /// Yield reduction in the first year, as a percentage.
    pub yield_reduction_year_pct: Option<String>,
    /// Yield reduction in following years.
    pub yield_reduction_year_following: Option<i64>,
    /// Yield reduction in following years, as a percentage.
    pub yield_reduction_year_following_pct: Option<String>,
    /// Yield reduction in the exit year.
    pub yield_reduction_year_exit: Option<i64>,
    /// Yield reduction in the exit year, as a percentage.
    pub yield_reduction_year_exit_pct: Option<String>,
    /// The estimated holding duration, in years.
    pub estimated_holding_duration_years: Option<String>,
    /// The estimated total yield reduction.
    pub estimated_yield_reduction_total: Option<i64>,
    /// The estimated total yield reduction, as a percentage.
    pub estimated_yield_reduction_total_pct: Option<String>,
    /// A link to the key investor information document, sent as `KIID` on the wire.
    pub kiid: Option<String>,
    /// The legal disclaimer for the order.
    pub legal_disclaimer: Option<String>,
}

/// The regulatory information a document decodes to, when it has the expected shape.
pub open spec fn spec_regulatory_information(v: JsonVal) -> Option<RegulatoryInformation> {
    if spec_opt_i64(v, "costs_entry"@) is Some && spec_opt_string(v, "costs_entry_pct"@) is Some && spec_opt_i64(v, "costs_running"@) is Some && spec_opt_string(v, "costs_running_pct"@) is Some && spec_opt_i64(v, "costs_product"@) is Some && spec_opt_string(v, "costs_product_pct"@) is Some && spec_opt_i64(v, "costs_exit"@) is Some && spec_opt_string(v, "costs_exit_pct"@) is Some && spec_opt_i64(v, "yield_reduction_year"@) is Some && spec_opt_string(v, "yield_reduction_year_pct"@) is Some && spec_opt_i64(v, "yield_reduction_year_following"@) is Some && spec_opt_string(v, "yield_reduction_year_following_pct"@) is Some && spec_opt_i64(v, "yield_reduction_year_exit"@) is Some && spec_opt_string(v, "yield_reduction_year_exit_pct"@) is Some && spec_opt_string(v, "estimated_holding_duration_years"@) is Some && spec_opt_i64(v, "estimated_yield_reduction_total"@) is Some && spec_opt_string(v, "estimated_yield_reduction_total_pct"@) is Some && spec_opt_string(v, "KIID"@) is Some && spec_opt_string(v, "legal_disclaimer"@) is Some {
        Some(
            RegulatoryInformation {
                costs_entry: spec_opt_i64(v, "costs_entry"@)->Some_0,
                costs_entry_pct: spec_opt_string(v, "costs_entry_pct"@)->Some_0,
                costs_running: spec_opt_i64(v, "costs_running"@)->Some_0,
                costs_running_pct: spec_opt_string(v, "costs_running_pct"@)->Some_0,
                costs_product: spec_opt_i64(v, "costs_product"@)->Some_0,
                costs_product_pct: spec_opt_string(v, "costs_product_pct"@)->Some_0,
                costs_exit: spec_opt_i64(v, "costs_exit"@)->Some_0,
                costs_exit_pct: spec_opt_string(v, "costs_exit_pct"@)->Some_0,
                yield_reduction_year: spec_opt_i64(v, "yield_reduction_year"@)->Some_0,
                yield_reduction_year_pct: spec_opt_string(v, "yield_reduction_year_pct"@)->Some_0,
                yield_reduction_year_following: spec_opt_i64(v, "yield_reduction_year_following"@)->Some_0,
                yield_reduction_year_following_pct: spec_opt_string(v, "yield_reduction_year_following_pct"@)->Some_0,
                yield_reduction_year_exit: spec_opt_i64(v, "yield_reduction_year_exit"@)->Some_0,
                yield_reduction_year_exit_pct: spec_opt_string(v, "yield_reduction_year_exit_pct"@)->Some_0,
                estimated_holding_duration_years: spec_opt_string(v, "estimated_holding_duration_years"@)->Some_0,
                estimated_yield_reduction_total: spec_opt_i64(v, "estimated_yield_reduction_total"@)->Some_0,
                estimated_yield_reduction_total_pct: spec_opt_string(v, "estimated_yield_reduction_total_pct"@)->Some_0,
                kiid: spec_opt_string(v, "KIID"@)->Some_0,
                legal_disclaimer: spec_opt_string(v, "legal_disclaimer"@)->Some_0,
            },
        )
    } else {
        None
    }
}

impl FromJson for RegulatoryInformation {
    open spec fn decode_rel(v: JsonVal, r: Option<RegulatoryInformation>) -> bool {
        r == spec_regulatory_information(v)
    }

    proof fn lemma_decode_exclusive(v: JsonVal, t: RegulatoryInformation) {
    }

    fn from_json(v: &JsonVal) -> Option<RegulatoryInformation> {
        let costs_entry = match opt_i64(v, "costs_entry") {
            Some(x) => x,
            None => {
                return None;
            },
        };
        let costs_entry_pct = match opt_string(v, "costs_entry_pct") {
            Some(x) => x,
            None => {
                return None;
            },
        };
        let costs_running = match opt_i64(v, "costs_running") {
            Some(x) => x,
            None => {
                return None;
            },
        };
        let costs_running_pct = match opt_string(v, "costs_running_pct") {
            Some(x) => x,
            None => {
                return None;
            },
        };
        let costs_product = match opt_i64(v, "costs_product") {
            Some(x) => x,
            None => {
                return None;
            },
        };
        let costs_product_pct = match opt_string(v, "costs_product_pct") {
            Some(x) => x,
            None => {
                return None;
            },
        };
        let costs_exit = match opt_i64(v, "costs_exit") {
            Some(x) => x,
            None => {
                return None;
            },
        };
        let costs_exit_pct = match opt_string(v, "costs_exit_pct") {
            Some(x) => x,
            None => {
                return None;
            },
        };
        let yield_reduction_year = match opt_i64(v, "yield_reduction_year") {
            Some(x) => x,
            None => {
                return None;
            },
        };
        let yield_reduction_year_pct = match opt_string(v, "yield_reduction_year_pct") {
            Some(x) => x,
            None => {
                return None;
            },
        };
        let yield_reduction_year_following = match opt_i64(v, "yield_reduction_year_following") {
            Some(x) => x,
            None => {
                return None;
            },
        };
        let yield_reduction_year_following_pct = match opt_string(v, "yield_reduction_year_following_pct") {
            Some(x) => x,
            None => {
                return None;
            },
        };
        let yield_reduction_year_exit = match opt_i64(v, "yield_reduction_year_exit") {
            Some(x) => x,
            None => {
                return None;
            },
        };
        let yield_reduction_year_exit_pct = match opt_string(v, "yield_reduction_year_exit_pct") {
            Some(x) => x,
            None => {
                return None;
            },
        };
        let estimated_holding_duration_years = match opt_string(v, "estimated_holding_duration_years") {
            Some(x) => x,
            None => {
                return None;
            },
        };
        let estimated_yield_reduction_total = match opt_i64(v, "estimated_yield_reduction_total") {
            Some(x) => x,
            None => {
                return None;
            },
        };
        let estimated_yield_reduction_total_pct = match opt_string(v, "estimated_yield_reduction_total_pct") {
            Some(x) => x,
            None => {
                return None;
            },
        };
        let kiid = match opt_string(v, "KIID") {
            Some(x) => x,
            None => {
                return None;
            },
        };
        let legal_disclaimer = match opt_string(v, "legal_disclaimer") {
            Some(x) => x,
            None => {
                return None;
            },
        };
        Some(
            RegulatoryInformation {
                costs_entry,
                costs_entry_pct,
                costs_running,
                costs_running_pct,
                costs_product,
                costs_product_pct,
                costs_exit,
                costs_exit_pct,
                yield_reduction_year,
                yield_reduction_year_pct,
                yield_reduction_year_following,
                yield_reduction_year_following_pct,
                yield_reduction_year_exit,
                yield_reduction_year_exit_pct,
                estimated_holding_duration_years,
                estimated_yield_reduction_total,
                estimated_yield_reduction_total_pct,
                kiid,
                legal_disclaimer,
            },
        )
    }
}

/// The results returned when an order is placed.
#[derive(Debug)]
pub struct OrderResults {
    /// Timestamp for when the order was created.
    pub created_at: String,
    /// Unique identification number of the order.
    pub id: String,
    /// The status of the order.
    pub status: String,
    /// The instrument the order was placed for.
    pub isin: Option<String>,
    /// Expiry date of the order.
    pub expires_at: Option<String>,
    /// The quantity of the order.
    pub quantity: Option<i64>,
    /// The stop price of the order.
    pub stop_price: Option<String>,
    /// The limit price of the order.
    pub limit_price: Option<String>,
    /// The venue the order was placed at.
    pub venue: Option<String>,
    /// The estimated price of the order.
    pub estimated_price: Option<i64>,
    /// Notes about the order.
    pub notes: Option<String>,
    /// The idempotency key given for the request, if any.
    pub idempotency: Option<String>,
    /// Charges for the order request.
    pub charge: Option<i64>,
    /// When the charges become due.
    pub chargeable_at: Option<String>,
    /// Key creation identifier for the order request.
    pub key_creation_id: Option<String>,
    /// Regulatory information about the order.
    pub regulatory_information: Option<RegulatoryInformation>,
    /// Whether the order buys or sells.
    pub side: Option<OrderType>,
}

/// The order results a document decodes to, when it has the expected
/// shape.
pub open spec fn spec_order_results(v: JsonVal) -> Option<OrderResults> {
    let created_at = spec_req_string(v, "created_at"@);
    let id = spec_req_string(v, "id"@);
    let status = spec_req_string(v, "status"@);
    let isin = spec_opt_string(v, "isin"@);
    let expires_at = spec_opt_string(v, "expires_at"@);
    let quantity = spec_opt_i64(v, "quantity"@);
    let stop_price = spec_opt_string(v, "stop_price"@);
    let limit_price = spec_opt_string(v, "limit_price"@);
    let venue = spec_opt_string(v, "venue"@);
    let estimated_price = spec_opt_i64(v, "estimated_price"@);
    let notes = spec_opt_string(v, "notes"@);
    let idempotency = spec_opt_string(v, "idempotency"@);
    let charge = spec_opt_i64(v, "charge"@);
    let chargeable_at = spec_opt_string(v, "chargeable_at"@);
    let key_creation_id = spec_opt_string(v, "key_creation_id"@);
    let regulatory_information = (match field_of(v, "regulatory_information"@) {
        None => Some(None),
        Some(JsonVal::Null) => Some(None),
        Some(doc) => (match spec_regulatory_information(doc) {
            Some(info) => Some(Some(info)),
            None => None,
        }),
    });
    let side = (match spec_opt_string(v, "side"@) {
        Some(Some(s)) => (match order_type_of(s@) {
            Some(t) => Some(Some(t)),
            None => None,
        }),
        Some(None) => Some(None),
        None => None,
    });
    if created_at is Some && id is Some && status is Some && isin is Some && expires_at is Some && quantity is Some && stop_price is Some && limit_price is Some && venue is Some && estimated_price is Some && notes is Some && idempotency is Some && charge is Some && chargeable_at is Some && key_creation_id is Some && regulatory_information is Some && side is Some {
        Some(
            OrderResults {
                created_at: created_at->Some_0,
                id: id->Some_0,
                status: status->Some_0,
                isin: isin->Some_0,
                expires_at: expires_at->Some_0,
                quantity: quantity->Some_0,
                stop_price: stop_price->Some_0,
                limit_price: limit_price->Some_0,
                venue: venue->Some_0,
                estimated_price: estimated_price->Some_0,
                notes: notes->Some_0,
                idempotency: idempotency->Some_0,
                charge: charge->Some_0,
                chargeable_at: chargeable_at->Some_0,
                key_creation_id: key_creation_id->Some_0,
                regulatory_information: regulatory_information->Some_0,
                side: side->Some_0,
            },
        )
    } else {
        None
    }
}

impl FromJson for OrderResults {
    open spec fn decode_rel(v: JsonVal, r: Option<OrderResults>) -> bool {
        r == spec_order_results(v)
    }

    proof fn lemma_decode_exclusive(v: JsonVal, t: OrderResults) {
    }

    fn from_json(v: &JsonVal) -> Option<OrderResults> {
        let created_at = match req_string(v, "created_at") {
            Some(x) => x,
            None => {
                return None;
            },
        };
        let id = match req_string(v, "id") {
            Some(x) => x,
            None => {
                return None;
            },
        };
        let status = match req_string(v, "status") {
            Some(x) => x,
            None => {
                return None;
            },
        };
        let isin = match opt_string(v, "isin") {
            Some(x) => x,
            None => {
                return None;
            },
        };
        let expires_at = match opt_string(v, "expires_at") {
            Some(x) => x,
            None => {
                return None;
            },
        };
        let quantity = match opt_i64(v, "quantity") {
            Some(x) => x,
            None => {
                return None;
            },
        };
        let stop_price = match opt_string(v, "stop_price") {
            Some(x) => x,
            None => {
                return None;
            },
        };
        let limit_price = match opt_string(v, "limit_price") {
            Some(x) => x,
            None => {
                return None;
            },
        };
        let venue = match opt_string(v, "venue") {
            Some(x) => x,
            None => {
                return None;
            },
        };
        let estimated_price = match opt_i64(v, "estimated_price") {
            Some(x) => x,
            None => {
                return None;
            },
        };
        let notes = match opt_string(v, "notes") {
            Some(x) => x,
            None => {
                return None;
            },
        };
        let idempotency = match opt_string(v, "idempotency") {
            Some(x) => x,
            None => {
                return None;
            },
        };
        let charge = match opt_i64(v, "charge") {
            Some(x) => x,
            None => {
                return None;
            },
        };
        let chargeable_at = match opt_string(v, "chargeable_at") {
            Some(x) => x,
            None => {
                return None;
            },
        };
        let key_creation_id = match opt_string(v, "key_creation_id") {
            Some(x) => x,
            None => {
                return None;
            },
        };
        let regulatory_information: Option<RegulatoryInformation> = match v.get(
            "regulatory_information",
        ) {
            None => None,
            Some(f) => {
                match f {
                    JsonVal::Null => None,
                    _ => {
                        match RegulatoryInformation::from_json(f) {
                            Some(info) => Some(info),
                            None => {
                                return None;
                            },
                        }
                    },
                }
            },
        };
        let side: Option<OrderType> = match opt_string(v, "side") {
            Some(Some(s)) => {
                match OrderType::from_wire(s.as_str()) {
                    Some(t) => Some(t),
                    None => {
                        return None;
                    },
                }
            },
            Some(None) => None,
            None => {
                return None;
            },
        };
        Some(
            OrderResults {
                created_at,
                id,
                status,
                isin,
                expires_at,
                quantity,
                stop_price,
                limit_price,
                venue,
                estimated_price,
                notes,
                idempotency,
                charge,
                chargeable_at,
                key_creation_id,
                regulatory_information,
                side,
            },
        )
    }
}

/// The body of an order activation.
#[derive(Debug)]
pub struct ActivateOrder {
    /// The order to activate.
    pub id: String,
    /// The PIN to authorize the activation with.
    pub pin: i64,
}

/// The JSON text sent for an order activation.
pub open spec fn activate_order_json(id: Seq<char>, pin: int) -> Seq<char> {
    "{\"id\":"@ + json_string(id) + ",\"pin\":"@ + dec_int(pin) + "}"@
}

impl ActivateOrder {
    /// Write this activation as its JSON body.
    pub fn to_json(&self) -> (r: String)
        ensures
            r@ == activate_order_json(self.id@, self.pin as int),
    {
        let mut r = String::from_str("{\"id\":");
        r.append(json_quote(self.id.as_str()).as_str());
        r.append(",\"pin\":");
        r.append(i64_to_dec(self.pin).as_str());
        r.append("}");
        proof {
            assert(r@ =~= activate_order_json(self.id@, self.pin as int));
        }
        r
    }
}

impl Client {
    /// The request that places a new order.
    pub fn post_order_request(&self, body: &OrderPlacing) -> (r: HttpRequest)
        ensures
            r.method == Method::Post,
            r.url@ == self.base_url@ + "orders/"@,
            r.body matches Some(b) && b@ == order_placing_json(*body),
    {
        self.post("orders/", body.to_json())
    }

    /// Post and create a new order: classify and decode the outcome of
    /// [`Client::post_order_request`].
    pub fn post_order(&self, outcome: Result<HttpResponse, String>) -> (r: Result<
        GenericResponse<OrderResults>,
        Error,
    >)
        ensures
            outcome matches Err(cause) ==> (r matches Err(e) && e matches Error::Transport(m)
                && m@ == cause@),
            outcome matches Ok(resp) ==> handled::<GenericResponse<OrderResults>>(resp.status, resp.body@, r),
    {
        response_handler::<GenericResponse<OrderResults>>(outcome)
    }

    /// The request that activates an order by id.
    pub fn activate_order_request(&self, pin: i64, order_id: &str) -> (r: HttpRequest)
        ensures
            r.method == Method::Post,
            r.url@ == self.base_url@ + "orders/"@ + order_id@ + "/activate"@,
            r.body matches Some(b) && b@ == activate_order_json(order_id@, pin as int),
    {
        let mut path = String::from_str("orders/");
        path.append(order_id);
        path.append("/activate");
        let body = ActivateOrder { id: order_id.to_owned(), pin };
        let r = self.post(path.as_str(), body.to_json());
        proof {
            assert(r.url@ =~= self.base_url@ + "orders/"@ + order_id@ + "/activate"@);
        }
        r
    }

    /// Activate an order by id: classify and decode the outcome of
    /// [`Client::activate_order_request`].
    pub fn activate_order(&self, outcome: Result<HttpResponse, String>) -> (r: Result<
        Response,
        Error,
    >)
        ensures
            outcome matches Err(cause) ==> (r matches Err(e) && e matches Error::Transport(m)
                && m@ == cause@),
            outcome matches Ok(resp) ==> handled::<Response>(resp.status, resp.body@, r),
    {
        response_handler::<Response>(outcome)
    }

    /// The request that deletes an order by id.
    pub fn delete_order_request(&self, order_id: &str) -> (r: HttpRequest)
        ensures
            r.method == Method::Delete,
            r.url@ == self.base_url@ + "orders"@ + "/"@ + order_id@,
            r.body is None,
    {
        self.delete("orders", order_id)
    }

    /// Delete an order by id: classify and decode the outcome of
    /// [`Client::delete_order_request`].
    pub fn delete_order(&self, outcome: Result<HttpResponse, String>) -> (r: Result<
        Response,
        Error,
    >)
        ensures
            outcome matches Err(cause) ==> (r matches Err(e) && e matches Error::Transport(m)
                && m@ == cause@),
            outcome matches Ok(resp) ==> handled::<Response>(resp.status, resp.body@, r),
    {
        response_handler::<Response>(outcome)
    }
}

} // verus!
