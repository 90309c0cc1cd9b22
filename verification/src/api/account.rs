//! The account information endpoint.

use vstd::prelude::*;

use crate::api::handled;
use crate::api::response_handler;
use crate::api::FromJson;
use crate::client::Client;
use crate::error::Error;
use crate::http::HttpRequest;
use crate::http::HttpResponse;
use crate::http::Method;
use crate::json::field_of;
use crate::json::opt_i64;
use crate::json::opt_string;
use crate::json::req_i64;
use crate::json::req_string;
use crate::json::spec_opt_i64;
use crate::json::spec_opt_string;
use crate::json::spec_req_i64;
use crate::json::spec_req_string;
use crate::json::JsonVal;
use crate::text::str_eq;

pub mod withdrawals;

verus! {

/// The envelope of the account endpoint: like the generic envelope, but
/// with the mode kept as raw text and the results required.
#[derive(Debug)]
pub struct AccountInformation<T> {
    /// Timestamp of the API request.
    pub time: String,
    /// Environment the request was placed in.
    pub mode: String,
    /// The service returns `"ok"` when the account was retrieved.
    pub status: String,
    /// The actual results of the query.
    pub results: T,
}

impl<T> AccountInformation<T> {
    /// Whether the envelope's status field says `"ok"`.
    pub fn is_ok(&self) -> (r: bool)
        ensures
            r == (self.status@ == "ok"@),
    {
        str_eq(self.status.as_str(), "ok")
    }
}

/// Whether a document has the account envelope's shape, its required
/// results included.
pub open spec fn account_information_decodes<T: FromJson>(v: JsonVal) -> bool {
    &&& spec_req_string(v, "time"@) is Some
    &&& spec_req_string(v, "mode"@) is Some
    &&& spec_req_string(v, "status"@) is Some
    &&& (match field_of(v, "results"@) {
        Some(doc) => !T::decode_rel(doc, None),
        None => false,
    })
}

impl<T: FromJson> FromJson for AccountInformation<T> {
    /// The envelope fields are pinned by the field readers; the required
    /// results by the payload type's own decode.
    open spec fn decode_rel(v: JsonVal, r: Option<AccountInformation<T>>) -> bool {
        match r {
            None => !account_information_decodes::<T>(v),
            Some(a) => {
                &&& account_information_decodes::<T>(v)
                &&& Some(a.time) == spec_req_string(v, "time"@)
                &&& Some(a.mode) == spec_req_string(v, "mode"@)
                &&& Some(a.status) == spec_req_string(v, "status"@)
                &&& (match field_of(v, "results"@) {
                    Some(doc) => T::decode_rel(doc, Some(a.results)),
                    None => false,
                })
            },
        }
    }

    proof fn lemma_decode_exclusive(v: JsonVal, t: AccountInformation<T>) {
    }

    fn from_json(v: &JsonVal) -> Option<AccountInformation<T>> {
        let time = match req_string(v, "time") {
            Some(s) => s,
            None => {
                return None;
            },
        };
        let mode = match req_string(v, "mode") {
            Some(s) => s,
            None => {
                return None;
            },
        };
        let status = match req_string(v, "status") {
            Some(s) => s,
            None => {
                return None;
            },
        };
        let results = match v.get("results") {
            Some(f) => {
                match T::from_json(f) {
                    Some(t) => {
                        proof {
                            T::lemma_decode_exclusive(*f, t);
                        }
                        t
                    },
                    None => {
                        return None;
                    },
                }
            },
            None => {
                return None;
            },
        };
        Some(AccountInformation { time, mode, status, results })
    }
}

/// Struct for account information.
#[derive(Debug)]
pub struct AccountResults {
    /// Timestamp for when the account was created.
    pub created_at: String,
    /// Unique identification number of the account.
    pub account_id: String,
    /// First name of the account holder.
    pub firstname: String,
    /// Last name of the account holder.
    pub lastname: Option<String>,
    /// The specified email address.
    pub email: String,
    /// The specified phone number.
    pub phone: Option<String>,
    /// The specified address.
    pub address: Option<String>,
    /// The billing address provided for the account.
    pub billing_address: Option<String>,
    /// The billing email address provided for the account.
    pub billing_email: Option<String>,
    /// The billing name provided for the account.
    pub billing_name: Option<String>,
    /// The billing VAT number provided for the account.
    pub billing_vat: Option<String>,
    /// The mode the account is currently on.
    pub mode: String,
    /// Identification number of the securities account.
    pub deposit_id: Option<String>,
    /// The internal client identification number.
    pub client_id: Option<String>,
    /// The account reference number.
    pub account_number: Option<String>,
    /// IBAN of the brokerage account at the partner bank.
    pub iban_brokerage: Option<String>,
    /// IBAN of the reference account.
    pub iban_origin: Option<String>,
    /// Bank name of the reference account.
    pub bank_name_origin: Option<String>,
    /// The account balance.
    pub balance: i64,
    /// How much cash is left to invest.
    pub cash_to_invest: i64,
    /// How much cash can be withdrawn to the reference account.
    pub cash_to_withdraw: i64,
    /// The intraday buy order amount.
    pub amount_bought_intraday: i64,
    /// The intraday sell order amount.
    pub amount_sold_intraday: i64,
    /// The intraday amount of open orders.
    pub amount_open_orders: i64,
    /// The intraday amount of open withdrawals.
    pub amount_open_withdrawals: i64,
    /// The amount of estimated taxes for intraday sell orders.
    pub amount_estimate_taxes: i64,
    /// Timestamp of live trading account approval.
    pub approved_at: Option<String>,
    /// The subscription plan the account trades on.
    pub trading_plan: String,
    /// The subscription plan the account reads data on.
    pub data_plan: String,
    /// The tax allowance specified in onboarding.
    pub tax_allowance: Option<i64>,
    /// Start date of the tax allowance.
    pub tax_allowance_start: Option<String>,
    /// End date of the tax allowance.
    pub tax_allowance_end: Option<String>,
}

/// The account results a document decodes to, when it has the expected shape.
pub open spec fn spec_account_results(v: JsonVal) -> Option<AccountResults> {
    if spec_req_string(v, "created_at"@) is Some && spec_req_string(v, "account_id"@) is Some && spec_req_string(v, "firstname"@) is Some && spec_opt_string(v, "lastname"@) is Some && spec_req_string(v, "email"@) is Some && spec_opt_string(v, "phone"@) is Some && spec_opt_string(v, "address"@) is Some && spec_opt_string(v, "billing_address"@) is Some && spec_opt_string(v, "billing_email"@) is Some && spec_opt_string(v, "billing_name"@) is Some && spec_opt_string(v, "billing_vat"@) is Some && spec_req_string(v, "mode"@) is Some && spec_opt_string(v, "deposit_id"@) is Some && spec_opt_string(v, "client_id"@) is Some && spec_opt_string(v, "account_number"@) is Some && spec_opt_string(v, "iban_brokerage"@) is Some && spec_opt_string(v, "iban_origin"@) is Some && spec_opt_string(v, "bank_name_origin"@) is Some && spec_req_i64(v, "balance"@) is Some && spec_req_i64(v, "cash_to_invest"@) is Some && spec_req_i64(v, "cash_to_withdraw"@) is Some && spec_req_i64(v, "amount_bought_intraday"@) is Some && spec_req_i64(v, "amount_sold_intraday"@) is Some && spec_req_i64(v, "amount_open_orders"@) is Some && spec_req_i64(v, "amount_open_withdrawals"@) is Some && spec_req_i64(v, "amount_estimate_taxes"@) is Some && spec_opt_string(v, "approved_at"@) is Some && spec_req_string(v, "trading_plan"@) is Some && spec_req_string(v, "data_plan"@) is Some && spec_opt_i64(v, "tax_allowance"@) is Some && spec_opt_string(v, "tax_allowance_start"@) is Some && spec_opt_string(v, "tax_allowance_end"@) is Some {
        Some(
            AccountResults {
                created_at: spec_req_string(v, "created_at"@)->Some_0,
                account_id: spec_req_string(v, "account_id"@)->Some_0,
                firstname: spec_req_string(v, "firstname"@)->Some_0,
                lastname: spec_opt_string(v, "lastname"@)->Some_0,
                email: spec_req_string(v, "email"@)->Some_0,
                phone: spec_opt_string(v, "phone"@)->Some_0,
                address: spec_opt_string(v, "address"@)->Some_0,
                billing_address: spec_opt_string(v, "billing_address"@)->Some_0,
                billing_email: spec_opt_string(v, "billing_email"@)->Some_0,
                billing_name: spec_opt_string(v, "billing_name"@)->Some_0,
                billing_vat: spec_opt_string(v, "billing_vat"@)->Some_0,
                mode: spec_req_string(v, "mode"@)->Some_0,
                deposit_id: spec_opt_string(v, "deposit_id"@)->Some_0,
                client_id: spec_opt_string(v, "client_id"@)->Some_0,
                account_number: spec_opt_string(v, "account_number"@)->Some_0,
                iban_brokerage: spec_opt_string(v, "iban_brokerage"@)->Some_0,
                iban_origin: spec_opt_string(v, "iban_origin"@)->Some_0,
                bank_name_origin: spec_opt_string(v, "bank_name_origin"@)->Some_0,
                balance: spec_req_i64(v, "balance"@)->Some_0,
                cash_to_invest: spec_req_i64(v, "cash_to_invest"@)->Some_0,
                cash_to_withdraw: spec_req_i64(v, "cash_to_withdraw"@)->Some_0,
                amount_bought_intraday: spec_req_i64(v, "amount_bought_intraday"@)->Some_0,
                amount_sold_intraday: spec_req_i64(v, "amount_sold_intraday"@)->Some_0,
                amount_open_orders: spec_req_i64(v, "amount_open_orders"@)->Some_0,
                amount_open_withdrawals: spec_req_i64(v, "amount_open_withdrawals"@)->Some_0,
                amount_estimate_taxes: spec_req_i64(v, "amount_estimate_taxes"@)->Some_0,
                approved_at: spec_opt_string(v, "approved_at"@)->Some_0,
                trading_plan: spec_req_string(v, "trading_plan"@)->Some_0,
                data_plan: spec_req_string(v, "data_plan"@)->Some_0,
                tax_allowance: spec_opt_i64(v, "tax_allowance"@)->Some_0,
                tax_allowance_start: spec_opt_string(v, "tax_allowance_start"@)->Some_0,
                tax_allowance_end: spec_opt_string(v, "tax_allowance_end"@)->Some_0,
            },
        )
    } else {
        None
    }
}

impl FromJson for AccountResults {
    open spec fn decode_rel(v: JsonVal, r: Option<AccountResults>) -> bool {
        r == spec_account_results(v)
    }

    proof fn lemma_decode_exclusive(v: JsonVal, t: AccountResults) {
    }

    fn from_json(v: &JsonVal) -> Option<AccountResults> {
        let created_at = match req_string(v, "created_at") {
            Some(x) => x,
            None => {
                return None;
            },
        };
        let account_id = match req_string(v, "account_id") {
            Some(x) => x,
            None => {
                return None;
            },
        };
        let firstname = match req_string(v, "firstname") {
            Some(x) => x,
            None => {
                return None;
            },
        };
        let lastname = match opt_string(v, "lastname") {
            Some(x) => x,
            None => {
                return None;
            },
        };
        let email = match req_string(v, "email") {
            Some(x) => x,
            None => {
                return None;
            },
        };
        let phone = match opt_string(v, "phone") {
            Some(x) => x,
            None => {
                return None;
            },
        };
        let address = match opt_string(v, "address") {
            Some(x) => x,
            None => {
                return None;
            },
        };
        let billing_address = match opt_string(v, "billing_address") {
            Some(x) => x,
            None => {
                return None;
            },
        };
        let billing_email = match opt_string(v, "billing_email") {
            Some(x) => x,
            None => {
                return None;
            },
        };
        let billing_name = match opt_string(v, "billing_name") {
            Some(x) => x,
            None => {
                return None;
            },
        };
        let billing_vat = match opt_string(v, "billing_vat") {
            Some(x) => x,
            None => {
                return None;
            },
        };
        let mode = match req_string(v, "mode") {
            Some(x) => x,
            None => {
                return None;
            },
        };
        let deposit_id = match opt_string(v, "deposit_id") {
            Some(x) => x,
            None => {
                return None;
            },
        };
        let client_id = match opt_string(v, "client_id") {
            Some(x) => x,
            None => {
                return None;
            },
        };
        let account_number = match opt_string(v, "account_number") {
            Some(x) => x,
            None => {
                return None;
            },
        };
        let iban_brokerage = match opt_string(v, "iban_brokerage") {
            Some(x) => x,
            None => {
                return None;
            },
        };
        let iban_origin = match opt_string(v, "iban_origin") {
            Some(x) => x,
            None => {
                return None;
            },
        };
        let bank_name_origin = match opt_string(v, "bank_name_origin") {
            Some(x) => x,
            None => {
                return None;
            },
        };
        let balance = match req_i64(v, "balance") {
            Some(x) => x,
            None => {
                return None;
            },
        };
        let cash_to_invest = match req_i64(v, "cash_to_invest") {
            Some(x) => x,
            None => {
                return None;
            },
        };
        let cash_to_withdraw = match req_i64(v, "cash_to_withdraw") {
            Some(x) => x,
            None => {
                return None;
            },
        };
        let amount_bought_intraday = match req_i64(v, "amount_bought_intraday") {
            Some(x) => x,
            None => {
                return None;
            },
        };
        let amount_sold_intraday = match req_i64(v, "amount_sold_intraday") {
            Some(x) => x,
            None => {
                return None;
            },
        };
        let amount_open_orders = match req_i64(v, "amount_open_orders") {
            Some(x) => x,
            None => {
                return None;
            },
        };
        let amount_open_withdrawals = match req_i64(v, "amount_open_withdrawals") {
            Some(x) => x,
            None => {
                return None;
            },
        };
        let amount_estimate_taxes = match req_i64(v, "amount_estimate_taxes") {
            Some(x) => x,
            None => {
                return None;
            },
        };
        let approved_at = match opt_string(v, "approved_at") {
            Some(x) => x,
            None => {
                return None;
            },
        };
        let trading_plan = match req_string(v, "trading_plan") {
            Some(x) => x,
            None => {
                return None;
            },
        };
        let data_plan = match req_string(v, "data_plan") {
            Some(x) => x,
            None => {
                return None;
            },
        };
        let tax_allowance = match opt_i64(v, "tax_allowance") {
            Some(x) => x,
            None => {
                return None;
            },
        };
        let tax_allowance_start = match opt_string(v, "tax_allowance_start") {
            Some(x) => x,
            None => {
                return None;
            },
        };
        let tax_allowance_end = match opt_string(v, "tax_allowance_end") {
            Some(x) => x,
            None => {
                return None;
            },
        };
        Some(
            AccountResults {
                created_at,
                account_id,
                firstname,
                lastname,
                email,
                phone,
                address,
                billing_address,
                billing_email,
                billing_name,
                billing_vat,
                mode,
                deposit_id,
                client_id,
                account_number,
                iban_brokerage,
                iban_origin,
                bank_name_origin,
                balance,
                cash_to_invest,
                cash_to_withdraw,
                amount_bought_intraday,
                amount_sold_intraday,
                amount_open_orders,
                amount_open_withdrawals,
                amount_estimate_taxes,
                approved_at,
                trading_plan,
                data_plan,
                tax_allowance,
                tax_allowance_start,
                tax_allowance_end,
            },
        )
    }
}

/// Enum for the different ways of sorting results.
#[derive(Clone, Copy, Debug, PartialEq, Eq, Structural)]
pub enum Sorting {
    /// Sort in ascending order: oldest entries first.
    Asc,
    /// Sort in descending order: newest entries first.
    Desc,
}

/// The text of a sorting on the wire.
pub open spec fn sorting_name(s: Sorting) -> Seq<char> {
    match s {
        Sorting::Asc => "asc_"@,
        Sorting::Desc => "desc"@,
    }
}

impl Sorting {
    /// The wire text of this sorting.
    pub fn as_str(&self) -> (r: &'static str)
        ensures
            r@ == sorting_name(*self),
    {
        match self {
            Sorting::Asc => "asc_",
            Sorting::Desc => "desc",
        }
    }
}

impl Client {
    /// The request that fetches the account information.
    pub fn account_information_request(&self) -> (r: HttpRequest)
        ensures
            r.method == Method::Get,
            r.url@ == self.base_url@ + "account"@,
            r.body is None,
    {
        self.get("account")
    }

    /// Get account information: classify and decode the outcome of
    /// [`Client::account_information_request`].
    pub fn get_account_information(&self, outcome: Result<HttpResponse, String>) -> (r: Result<
        AccountInformation<AccountResults>,
        Error,
    >)
        ensures
            outcome matches Err(cause) ==> (r matches Err(e) && e matches Error::Transport(m)
                && m@ == cause@),
            outcome matches Ok(resp) ==> handled::<AccountInformation<AccountResults>>(resp.status, resp.body@, r),
    {
        response_handler::<AccountInformation<AccountResults>>(outcome)
    }
}

} // verus!
