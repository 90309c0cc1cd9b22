//! The position statements endpoint: all change events happening to
//! positions.

use vstd::prelude::*;

use crate::api::handled;
use crate::api::response_handler;
use crate::api::FromJson;
use crate::api::PaginationResponse;
use crate::client::Client;
use crate::error::Error;
use crate::http::HttpRequest;
use crate::http::HttpResponse;
use crate::http::Method;
use crate::json::opt_string;
use crate::json::req_i64;
use crate::json::req_string;
use crate::json::spec_opt_string;
use crate::json::spec_req_i64;
use crate::json::spec_req_string;
use crate::json::JsonVal;
use crate::query::lemma_absent_param_skipped;
use crate::query::lemma_present_param_kept;
use crate::query::opt_pair;
use crate::query::present_pairs;
use crate::query::urlencoded_of;
use crate::query::QueryParam;
use crate::text::dec_int;
use crate::text::dec_nat;
use crate::text::i64_to_dec;
use crate::text::str_eq;
use crate::text::u64_to_dec;

verus! {

/// One change event on a position.
#[derive(Debug)]
pub struct Statement {
    /// A unique identification number of the statement.
    pub id: Option<String>,
    /// The order that caused the statement, if an order did.
    pub order_id: Option<String>,
    /// An external identification number, if any.
    pub external_id: Option<String>,
    /// The kind of change, as the service names it, sent as `type` on the wire.
    pub statement_type: String,
    /// The number of units the change concerns.
    pub quantity: i64,
    /// The instrument's ISIN.
    pub isin: String,
    /// The instrument's title.
    pub isin_title: String,
    /// The day the change belongs to.
    pub date: String,
    /// When the statement was created.
    pub created_at: String,
}

/// The statement a document decodes to, when it has the expected shape.
pub open spec fn spec_statement(v: JsonVal) -> Option<Statement> {
    if spec_opt_string(v, "id"@) is Some && spec_opt_string(v, "order_id"@) is Some && spec_opt_string(v, "external_id"@) is Some && spec_req_string(v, "type"@) is Some && spec_req_i64(v, "quantity"@) is Some && spec_req_string(v, "isin"@) is Some && spec_req_string(v, "isin_title"@) is Some && spec_req_string(v, "date"@) is Some && spec_req_string(v, "created_at"@) is Some {
        Some(
            Statement {
                id: spec_opt_string(v, "id"@)->Some_0,
                order_id: spec_opt_string(v, "order_id"@)->Some_0,
                external_id: spec_opt_string(v, "external_id"@)->Some_0,
                statement_type: spec_req_string(v, "type"@)->Some_0,
                quantity: spec_req_i64(v, "quantity"@)->Some_0,
                isin: spec_req_string(v, "isin"@)->Some_0,
                isin_title: spec_req_string(v, "isin_title"@)->Some_0,
                date: spec_req_string(v, "date"@)->Some_0,
                created_at: spec_req_string(v, "created_at"@)->Some_0,
            },
        )
    } else {
        None
    }
}

impl FromJson for Statement {
    open spec fn decode_rel(v: JsonVal, r: Option<Statement>) -> bool {
        r == spec_statement(v)
    }

    proof fn lemma_decode_exclusive(v: JsonVal, t: Statement) {
    }

    fn from_json(v: &JsonVal) -> Option<Statement> {
        let id = match opt_string(v, "id") {
            Some(x) => x,
            None => {
                return None;
            },
        };
        let order_id = match opt_string(v, "order_id") {
            Some(x) => x,
            None => {
                return None;
            },
        };
        let external_id = match opt_string(v, "external_id") {
            Some(x) => x,
            None => {
                return None;
            },
        };
        let statement_type = match req_string(v, "type") {
            Some(x) => x,
            None => {
                return None;
            },
        };
        let quantity = match req_i64(v, "quantity") {
            Some(x) => x,
            None => {
                return None;
            },
        };
        let isin = match req_string(v, "isin") {
            Some(x) => x,
            None => {
                return None;
            },
        };
        let isin_title = match req_string(v, "isin_title") {
            Some(x) => x,
            None => {
                return None;
            },
        };
        let date = match req_string(v, "date") {
            Some(x) => x,
            None => {
                return None;
            },
        };
        let created_at = match req_string(v, "created_at") {
            Some(x) => x,
            None => {
                return None;
            },
        };
        Some(
            Statement {
                id,
                order_id,
                external_id,
                statement_type,
                quantity,
                isin,
                isin_title,
                date,
                created_at,
            },
        )
    }
}

/// The kinds of change a statement can report.
#[derive(Clone, Copy, Debug, PartialEq, Eq, Structural)]
pub enum StatementType {
    /// Units were bought.
    OrderBuy,
    /// Units were sold.
    OrderSell,
    /// The instrument was split.
    Split,
    /// Units were imported into the account.
    Import,
    /// A security transaction not covered by the other kinds.
    Snx,
}

/// The text of a statement kind on the wire.
pub open spec fn statement_type_name(t: StatementType) -> Seq<char> {
    match t {
        StatementType::OrderBuy => "order_buy"@,
        StatementType::OrderSell => "order_sell"@,
        StatementType::Split => "split"@,
        StatementType::Import => "import"@,
        StatementType::Snx => "snx"@,
    }
}

/// The statement kind a wire text stands for.
pub open spec fn statement_type_of(s: Seq<char>) -> Option<StatementType> {
    if s == "order_buy"@ {
        Some(StatementType::OrderBuy)
    } else if s == "order_sell"@ {
        Some(StatementType::OrderSell)
    } else if s == "split"@ {
        Some(StatementType::Split)
    } else if s == "import"@ {
        Some(StatementType::Import)
    } else if s == "snx"@ {
        Some(StatementType::Snx)
    } else {
        None
    }
}

impl StatementType {
    /// The wire text of this statement kind.
    pub fn as_str(&self) -> (r: &'static str)
        ensures
            r@ == statement_type_name(*self),
    {
        match self {
            StatementType::OrderBuy => "order_buy",
            StatementType::OrderSell => "order_sell",
            StatementType::Split => "split",
            StatementType::Import => "import",
            StatementType::Snx => "snx",
        }
    }

    /// The statement kind a wire text stands for, if it stands for one.
    pub fn from_wire(s: &str) -> (r: Option<StatementType>)
        ensures
            r == statement_type_of(s@),
    {
        if str_eq(s, "order_buy") {
            Some(StatementType::OrderBuy)
        } else if str_eq(s, "order_sell") {
            Some(StatementType::OrderSell)
        } else if str_eq(s, "split") {
            Some(StatementType::Split)
        } else if str_eq(s, "import") {
            Some(StatementType::Import)
        } else if str_eq(s, "snx") {
            Some(StatementType::Snx)
        } else {
            None
        }
    }
}

/// Law: writing a statement kind and reading the text back gives the kind
/// again.
pub proof fn lemma_statement_type_round_trip(t: StatementType)
    ensures
        statement_type_of(statement_type_name(t)) == Some(t),
{
    reveal_strlit("order_buy");
    reveal_strlit("order_sell");
    reveal_strlit("split");
    reveal_strlit("import");
    reveal_strlit("snx");
    assert("order_buy"@.len() == 9);
    assert("order_buy"@[6] == 'b');
    assert("order_sell"@.len() == 10);
    assert("split"@.len() == 5);
    assert("import"@.len() == 6);
    assert("snx"@.len() == 3);
    match t {
        StatementType::OrderBuy => assert(statement_type_of(statement_type_name(t)) == Some(t)),
        StatementType::OrderSell => assert(statement_type_of(statement_type_name(t)) == Some(t)),
        StatementType::Split => assert(statement_type_of(statement_type_name(t)) == Some(t)),
        StatementType::Import => assert(statement_type_of(statement_type_name(t)) == Some(t)),
        StatementType::Snx => assert(statement_type_of(statement_type_name(t)) == Some(t)),
    }
}

/// The query pairs the statements endpoint sends: `limit` and `page`, each
/// only when given.
pub open spec fn statements_query(limit: Option<i64>, page: Option<u32>) -> Seq<
    (Seq<char>, Seq<char>),
> {
    opt_pair(
        "limit"@,
        match limit {
            Some(n) => Some(dec_int(n as int)),
            None => None,
        },
    ) + opt_pair(
        "page"@,
        match page {
            Some(n) => Some(dec_nat(n as nat)),
            None => None,
        },
    )
}

impl Client {
    /// The request that lists position statements, with an optional page
    /// size and page number.
    pub fn statements_request(&self, limit: Option<i64>, page: Option<u32>) -> (r: HttpRequest)
        ensures
            r.method == Method::Get,
            r.body is None,
            limit is None && page is None ==> r.url@ == self.base_url@ + "positions/statements"@,
            !(limit is None && page is None) ==> r.url@ == self.base_url@
                + "positions/statements"@ + "?"@ + urlencoded_of(statements_query(limit, page)),
    {
        let mut query: Vec<QueryParam> = Vec::new();
        proof {
            assert(present_pairs(query@) =~= Seq::<(Seq<char>, Seq<char>)>::empty());
        }
        let limit_text: Option<String> = match limit {
            Some(n) => Some(i64_to_dec(n)),
            None => None,
        };
        let p_limit = QueryParam::new("limit", limit_text);
        let ghost q0 = query@;
        query.push(p_limit);
        proof {
            if p_limit.value is Some {
                lemma_present_param_kept(q0, p_limit);
            } else {
                lemma_absent_param_skipped(q0, p_limit);
            }
        }
        let page_text: Option<String> = match page {
            Some(n) => Some(u64_to_dec(n as u64)),
            None => None,
        };
        let p_page = QueryParam::new("page", page_text);
        let ghost q1 = query@;
        query.push(p_page);
        proof {
            if p_page.value is Some {
                lemma_present_param_kept(q1, p_page);
            } else {
                lemma_absent_param_skipped(q1, p_page);
            }
            assert(present_pairs(query@) =~= statements_query(limit, page));
        }
        self.get_with_query("positions/statements", &query)
    }

    /// Get all change events happening to positions: classify and decode
    /// the outcome of [`Client::statements_request`].
    pub fn get_statements(&self, outcome: Result<HttpResponse, String>) -> (r: Result<
        PaginationResponse<Statement>,
        Error,
    >)
        ensures
            outcome matches Err(cause) ==> (r matches Err(e) && e matches Error::Transport(m)
                && m@ == cause@),
            outcome matches Ok(resp) ==> handled::<PaginationResponse<Statement>>(resp.status, resp.body@, r),
    {
        response_handler::<PaginationResponse<Statement>>(outcome)
    }
}

} // verus!
