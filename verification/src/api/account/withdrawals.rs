//! The withdrawal endpoints: listing withdrawals and submitting one.

use vstd::prelude::*;
use vstd::string::StringExecFns;

use crate::api::handled;
use crate::api::response_handler;
use crate::api::FromJson;
use crate::client::Client;
use crate::error::Error;
use crate::http::HttpRequest;
use crate::http::HttpResponse;
use crate::http::Method;
use crate::json::json_quote;
use crate::json::json_string;
use crate::json::opt_string;
use crate::json::req_i64;
use crate::json::req_string;
use crate::json::spec_opt_string;
use crate::json::spec_req_i64;
use crate::json::spec_req_string;
use crate::json::JsonVal;
use crate::text::dec_int;
use crate::text::dec_nat;
use crate::text::i64_to_dec;
use crate::text::str_eq;
use crate::text::u64_to_dec;

verus! {

/// The envelope returned by the withdrawal endpoints.
#[derive(Debug)]
pub struct WithdrawalResponse {
    /// Timestamp of the request, as the service reported it.
    pub time: String,
    /// Environment the request was placed in.
    pub mode: String,
    /// Status of the request; the service sends `"ok"` on success.
    pub status: String,
}

impl WithdrawalResponse {
    /// Whether the envelope's status field says `"ok"`.
    pub fn is_ok(&self) -> (r: bool)
        ensures
            r == (self.status@ == "ok"@),
    {
        str_eq(self.status.as_str(), "ok")
    }
}

/// The withdrawal envelope a document decodes to, when it has the expected shape.
pub open spec fn spec_withdrawal_response(v: JsonVal) -> Option<WithdrawalResponse> {
    if spec_req_string(v, "time"@) is Some && spec_req_string(v, "mode"@) is Some && spec_req_string(v, "status"@) is Some {
        Some(
            WithdrawalResponse {
                time: spec_req_string(v, "time"@)->Some_0,
                mode: spec_req_string(v, "mode"@)->Some_0,
                status: spec_req_string(v, "status"@)->Some_0,
            },
        )
    } else {
        None
    }
}

impl FromJson for WithdrawalResponse {
    open spec fn decode_rel(v: JsonVal, r: Option<WithdrawalResponse>) -> bool {
        r == spec_withdrawal_response(v)
    }

    proof fn lemma_decode_exclusive(v: JsonVal, t: WithdrawalResponse) {
    }

    fn from_json(v: &JsonVal) -> Option<WithdrawalResponse> {
        let time = match req_string(v, "time") {
            Some(x) => x,
            None => {
                return None;
            },
        };
        let mode = match req_string(v, "mode") {
            Some(x) => x,
            None => {
                return None;
            },
        };
        let status = match req_string(v, "status") {
            Some(x) => x,
            None => {
                return None;
            },
        };
        Some(
            WithdrawalResponse {
                time,
                mode,
                status,
            },
        )
    }
}

/// The body of a withdrawal submission.
#[derive(Debug)]
pub struct WithdrawalRequest {
    /// Amount to withdraw.
    pub amount: usize,
    /// PIN to authorize the withdrawal with.
    pub pin: i64,
    /// An optional idempotency key: subsequent requests carrying the same
    /// key do not go through, so the same withdrawal cannot be made twice.
    pub idempotency: Option<String>,
}

/// The JSON text sent for a withdrawal submission.
pub open spec fn withdrawal_request_json(w: WithdrawalRequest) -> Seq<char> {
    "{\"amount\":"@ + dec_nat(w.amount as nat) + ",\"pin\":"@ + dec_int(w.pin as int)
        + ",\"idempotency\":"@ + (match w.idempotency {
        Some(s) => json_string(s@),
        None => "null"@,
    }) + "}"@
}

impl WithdrawalRequest {
    /// Write this request as its JSON body.
    pub fn to_json(&self) -> (r: String)
        ensures
            r@ == withdrawal_request_json(*self),
    {
        let mut r = String::from_str("{\"amount\":");
        r.append(u64_to_dec(self.amount as u64).as_str());
        r.append(",\"pin\":");
        r.append(i64_to_dec(self.pin).as_str());
        r.append(",\"idempotency\":");
        match &self.idempotency {
            Some(s) => {
                r.append(json_quote(s.as_str()).as_str());
            },
            None => {
                r.append("null");
            },
        }
        r.append("}");
        proof {
            assert(r@ =~= withdrawal_request_json(*self));
        }
        r
    }
}

/// One withdrawal, as the service lists it.
#[derive(Debug)]
pub struct Withdrawal {
    /// A unique identification number of the withdrawal.
    pub id: String,
    /// The amount of the withdrawal.
    pub amount: i64,
    /// Timestamp at which the withdrawal was created.
    pub created_at: String,
    /// Timestamp at which the withdrawal was processed by the partner bank, when it has been.
    pub date: Option<String>,
    /// The idempotency key specified on submission, if any.
    pub idempotency: Option<String>,
}

/// The withdrawal a document decodes to, when it has the expected shape.
pub open spec fn spec_withdrawal(v: JsonVal) -> Option<Withdrawal> {
    if spec_req_string(v, "id"@) is Some && spec_req_i64(v, "amount"@) is Some && spec_req_string(v, "created_at"@) is Some && spec_opt_string(v, "date"@) is Some && spec_opt_string(v, "idempotency"@) is Some {
        Some(
            Withdrawal {
                id: spec_req_string(v, "id"@)->Some_0,
                amount: spec_req_i64(v, "amount"@)->Some_0,
                created_at: spec_req_string(v, "created_at"@)->Some_0,
                date: spec_opt_string(v, "date"@)->Some_0,
                idempotency: spec_opt_string(v, "idempotency"@)->Some_0,
            },
        )
    } else {
        None
    }
}

impl FromJson for Withdrawal {
    open spec fn decode_rel(v: JsonVal, r: Option<Withdrawal>) -> bool {
        r == spec_withdrawal(v)
    }

    proof fn lemma_decode_exclusive(v: JsonVal, t: Withdrawal) {
    }

    fn from_json(v: &JsonVal) -> Option<Withdrawal> {
        let id = match req_string(v, "id") {
            Some(x) => x,
            None => {
                return None;
            },
        };
        let amount = match req_i64(v, "amount") {
            Some(x) => x,
            None => {
                return None;
            },
        };
        let created_at = match req_string(v, "created_at") {
            Some(x) => x,
            None => {
                return None;
            },
        };
        let date = match opt_string(v, "date") {
            Some(x) => x,
            None => {
                return None;
            },
        };
        let idempotency = match opt_string(v, "idempotency") {
            Some(x) => x,
            None => {
                return None;
            },
        };
        Some(
            Withdrawal {
                id,
                amount,
                created_at,
                date,
                idempotency,
            },
        )
    }
}

impl Client {
    /// The request that lists the account's withdrawals.
    pub fn account_withdrawals_request(&self) -> (r: HttpRequest)
        ensures
            r.method == Method::Get,
            r.url@ == self.base_url@ + "account/withdrawals/"@,
            r.body is None,
    {
        self.get("account/withdrawals/")
    }

    /// Get account withdrawls: classify and decode the outcome of
    /// [`Client::account_withdrawals_request`].  The limit and page
    /// arguments are accepted and not yet sent, as the service defaults
    /// them; the result is fixed by the outcome alone.
    pub fn get_account_withdrawls(
        &self,
        _limit: Option<i32>,
        _page: Option<i32>,
        outcome: Result<HttpResponse, String>,
    ) -> (r: Result<WithdrawalResponse, Error>)
        ensures
            outcome matches Err(cause) ==> (r matches Err(e) && e matches Error::Transport(m)
                && m@ == cause@),
            outcome matches Ok(resp) ==> handled::<WithdrawalResponse>(resp.status, resp.body@, r),
    {
        response_handler::<WithdrawalResponse>(outcome)
    }

    /// The request that submits a new withdrawal.
    pub fn post_withdrawal_request(&self, withdrawal: &WithdrawalRequest) -> (r: HttpRequest)
        ensures
            r.method == Method::Post,
            r.url@ == self.base_url@ + "account/withdrawals/"@,
            r.body matches Some(b) && b@ == withdrawal_request_json(*withdrawal),
    {
        self.post("account/withdrawals/", withdrawal.to_json())
    }

    /// Submit a new withdrawal: classify and decode the outcome of
    /// [`Client::post_withdrawal_request`].
    pub fn post_withdrawal(&self, outcome: Result<HttpResponse, String>) -> (r: Result<
        WithdrawalResponse,
        Error,
    >)
        ensures
            outcome matches Err(cause) ==> (r matches Err(e) && e matches Error::Transport(m)
                && m@ == cause@),
            outcome matches Ok(resp) ==> handled::<WithdrawalResponse>(resp.status, resp.body@, r),
    {
        response_handler::<WithdrawalResponse>(outcome)
    }
}

} // verus!
