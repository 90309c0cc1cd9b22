//! The crate's error taxonomy and the service's structured error payload.
//!
//! A failed exchange is one of three kinds: the request never got a
//! classifiable response (`Transport`), the service answered with a
//! structured error body (`Remote`), or a successful status carried a body
//! of the wrong shape (`Decode`).  None of them is recovered here; the
//! dispatcher always hands the classified error to the caller.

use vstd::prelude::*;
use vstd::string::StringExecFns;

use crate::api::spec_req_mode;
use crate::api::FromJson;
use crate::api::Mode;
use crate::json::req_string;
use crate::json::spec_req_string;
use crate::json::JsonVal;
use crate::text::str_eq;

verus! {

/// Error type for the library.
#[derive(Debug, PartialEq, Eq)]
pub enum Error {
    /// The request never got a classifiable HTTP response: a network
    /// failure before any status arrived, or a non-200 response whose body
    /// was not the service's error shape.  Carries the cause, or the raw
    /// status code as text.
    Transport(String),
    /// The service responded with a structured error payload.
    Remote { status: u16, error_code: ErrorCode, error_message: String },
    /// The response had status 200 but its body did not match the
    /// expected shape.
    Decode(String),
}

/// Error codes of the service, as they appear in the `error_code` field of
/// an error payload.
#[derive(Debug, PartialEq, Eq)]
pub enum ErrorCode {
    /// The API key is not provided, cannot be decoded, or does not exist.
    Unauthorized,
    /// The API key is revoked or the user is deleted or suspended.
    TokenInvalid,
    /// The API key has exceeded its rate limit.
    RateLimitExceeded,
    /// An error occurred in the service's backend.
    InternalError,
    /// The same idempotency key has been used within the current period.
    OrderIdempotencyViolation,
    /// Cannot withdraw money because the PIN is not provided.
    PinMissing,
    /// Cannot withdraw money because the PIN is not set.
    PinNotSet,
    /// Cannot withdraw money because the PIN verification failed.
    PinInvalid,
    /// Cannot withdraw money because the account funds are insufficient.
    WithdrawInsufficientFunds,
    /// Cannot withdraw money because the daily payout limit is exceeded.
    WithdrawLimitExceeded,
    /// Cannot withdraw money because the daily request limit is exceeded.
    WithdrawRequestLimitExceeded,
    /// Cannot update the account in its current state.
    ForbiddenInCurrentState,
    /// Cannot update the trading plan.
    PlanNotAllowed,
    /// Insufficient instrument holdings on an order sell.
    InsufficientHoldings,
    /// Cannot place an order that expires before the market opens again.
    OrderExpirationDateInvalid,
    /// Cannot place or activate an order above the total price limit.
    OrderTotalPriceLimitExceeded,
    /// Cannot place the order in this venue for this environment.
    ForbiddenForVenue,
    /// Cannot place an order while trading is not enabled.
    TradingDisabled,
    /// The maximum daily amount of orders is reached.
    OrderLimitExceeded,
    /// The instrument is not tradable.
    InstrumentNotTradable,
    /// Cannot place or activate a buy order with insufficient funds.
    AccountInsufficientFunds,
    /// Cannot place or activate an order while trading is blocked globally.
    TradingBlocked,
    /// Cannot activate an order that is not inactive.
    OrderNotInactive,
    /// Cannot delete an order that is not in a terminal state.
    OrderNotTerminated,
    /// A code this crate does not know.  The service may add codes at any
    /// time; an unrecognized one is kept as its raw text rather than
    /// failing the decode of the whole error payload.
    Unknown(String),
}

/// The text of an error code on the wire.
pub open spec fn wire_name(c: ErrorCode) -> Seq<char> {
    match c {
        ErrorCode::Unauthorized => "unauthorized"@,
        ErrorCode::TokenInvalid => "token_invalid"@,
        ErrorCode::RateLimitExceeded => "rate_limit_exceeded"@,
        ErrorCode::InternalError => "internal_error"@,
        ErrorCode::OrderIdempotencyViolation => "order_idempotency_violation"@,
        ErrorCode::PinMissing => "pin_missing"@,
        ErrorCode::PinNotSet => "pin_not_set"@,
        ErrorCode::PinInvalid => "pin_invalid"@,
        ErrorCode::WithdrawInsufficientFunds => "withdraw_insufficient_funds"@,
        ErrorCode::WithdrawLimitExceeded => "withdraw_limit_exceeded"@,
        ErrorCode::WithdrawRequestLimitExceeded => "withdraw_request_limit_exceeded"@,
        ErrorCode::ForbiddenInCurrentState => "forbidden_in_current_state"@,
        ErrorCode::PlanNotAllowed => "plan_not_allowed"@,
        ErrorCode::InsufficientHoldings => "insufficient_holdings"@,
        ErrorCode::OrderExpirationDateInvalid => "order_expiration_date_invalid"@,
        ErrorCode::OrderTotalPriceLimitExceeded => "order_total_price_limit_exceeded"@,
        ErrorCode::ForbiddenForVenue => "forbidden_for_venue"@,
        ErrorCode::TradingDisabled => "trading_disabled"@,
        ErrorCode::OrderLimitExceeded => "order_limit_exceeded"@,
        ErrorCode::InstrumentNotTradable => "instrument_not_tradable"@,
        ErrorCode::AccountInsufficientFunds => "account_insufficient_funds"@,
        ErrorCode::TradingBlocked => "trading_blocked"@,
        ErrorCode::OrderNotInactive => "order_not_inactive"@,
        ErrorCode::OrderNotTerminated => "order_not_terminated"@,
        ErrorCode::Unknown(raw) => raw@,
    }
}

/// The code a known wire text stands for, and `None` for a text this crate
/// does not know.
pub open spec fn known_code_of(s: Seq<char>) -> Option<ErrorCode> {
    if s == "unauthorized"@ {
        Some(ErrorCode::Unauthorized)
    } else if s == "token_invalid"@ {
        Some(ErrorCode::TokenInvalid)
    } else if s == "rate_limit_exceeded"@ {
        Some(ErrorCode::RateLimitExceeded)
    } else if s == "internal_error"@ {
        Some(ErrorCode::InternalError)
    } else if s == "order_idempotency_violation"@ {
        Some(ErrorCode::OrderIdempotencyViolation)
    } else if s == "pin_missing"@ {
        Some(ErrorCode::PinMissing)
    } else if s == "pin_not_set"@ {
        Some(ErrorCode::PinNotSet)
    } else if s == "pin_invalid"@ {
        Some(ErrorCode::PinInvalid)
    } else if s == "withdraw_insufficient_funds"@ {
        Some(ErrorCode::WithdrawInsufficientFunds)
    } else if s == "withdraw_limit_exceeded"@ {
        Some(ErrorCode::WithdrawLimitExceeded)
    } else if s == "withdraw_request_limit_exceeded"@ {
        Some(ErrorCode::WithdrawRequestLimitExceeded)
    } else if s == "forbidden_in_current_state"@ {
        Some(ErrorCode::ForbiddenInCurrentState)
    } else if s == "plan_not_allowed"@ {
        Some(ErrorCode::PlanNotAllowed)
    } else if s == "insufficient_holdings"@ {
        Some(ErrorCode::InsufficientHoldings)
    } else if s == "order_expiration_date_invalid"@ {
        Some(ErrorCode::OrderExpirationDateInvalid)
    } else if s == "order_total_price_limit_exceeded"@ {
        Some(ErrorCode::OrderTotalPriceLimitExceeded)
    } else if s == "forbidden_for_venue"@ {
        Some(ErrorCode::ForbiddenForVenue)
    } else if s == "trading_disabled"@ {
        Some(ErrorCode::TradingDisabled)
    } else if s == "order_limit_exceeded"@ {
        Some(ErrorCode::OrderLimitExceeded)
    } else if s == "instrument_not_tradable"@ {
        Some(ErrorCode::InstrumentNotTradable)
    } else if s == "account_insufficient_funds"@ {
        Some(ErrorCode::AccountInsufficientFunds)
    } else if s == "trading_blocked"@ {
        Some(ErrorCode::TradingBlocked)
    } else if s == "order_not_inactive"@ {
        Some(ErrorCode::OrderNotInactive)
    } else if s == "order_not_terminated"@ {
        Some(ErrorCode::OrderNotTerminated)
    } else {
        None
    }
}

impl ErrorCode {
    /// The code a wire text stands for: the known code where there is one,
    /// and the raw text kept under [`ErrorCode::Unknown`] otherwise.  The
    /// wire text is never lost: writing the result back gives it again.
    pub fn from_wire(s: &str) -> (r: ErrorCode)
        ensures
            known_code_of(s@) matches Some(c) ==> r == c,
            known_code_of(s@) is None ==> (r matches ErrorCode::Unknown(raw) && raw@ == s@),
            wire_name(r) == s@,
    {
        if str_eq(s, "unauthorized") {
            ErrorCode::Unauthorized
        } else if str_eq(s, "token_invalid") {
            ErrorCode::TokenInvalid
        } else if str_eq(s, "rate_limit_exceeded") {
            ErrorCode::RateLimitExceeded
        } else if str_eq(s, "internal_error") {
            ErrorCode::InternalError
        } else if str_eq(s, "order_idempotency_violation") {
            ErrorCode::OrderIdempotencyViolation
        } else if str_eq(s, "pin_missing") {
            ErrorCode::PinMissing
        } else if str_eq(s, "pin_not_set") {
            ErrorCode::PinNotSet
        } else if str_eq(s, "pin_invalid") {
            ErrorCode::PinInvalid
        } else if str_eq(s, "withdraw_insufficient_funds") {
            ErrorCode::WithdrawInsufficientFunds
        } else if str_eq(s, "withdraw_limit_exceeded") {
            ErrorCode::WithdrawLimitExceeded
        } else if str_eq(s, "withdraw_request_limit_exceeded") {
            ErrorCode::WithdrawRequestLimitExceeded
        } else if str_eq(s, "forbidden_in_current_state") {
            ErrorCode::ForbiddenInCurrentState
        } else if str_eq(s, "plan_not_allowed") {
            ErrorCode::PlanNotAllowed
        } else if str_eq(s, "insufficient_holdings") {
            ErrorCode::InsufficientHoldings
        } else if str_eq(s, "order_expiration_date_invalid") {
            ErrorCode::OrderExpirationDateInvalid
        } else if str_eq(s, "order_total_price_limit_exceeded") {
            ErrorCode::OrderTotalPriceLimitExceeded
        } else if str_eq(s, "forbidden_for_venue") {
            ErrorCode::ForbiddenForVenue
        } else if str_eq(s, "trading_disabled") {
            ErrorCode::TradingDisabled
        } else if str_eq(s, "order_limit_exceeded") {
            ErrorCode::OrderLimitExceeded
        } else if str_eq(s, "instrument_not_tradable") {
            ErrorCode::InstrumentNotTradable
        } else if str_eq(s, "account_insufficient_funds") {
            ErrorCode::AccountInsufficientFunds
        } else if str_eq(s, "trading_blocked") {
            ErrorCode::TradingBlocked
        } else if str_eq(s, "order_not_inactive") {
            ErrorCode::OrderNotInactive
        } else if str_eq(s, "order_not_terminated") {
            ErrorCode::OrderNotTerminated
        } else {
            ErrorCode::Unknown(s.to_owned())
        }
    }

    /// The wire text of this code.
    pub fn as_wire_str(&self) -> (r: String)
        ensures
            r@ == wire_name(*self),
    {
        match self {
            ErrorCode::Unauthorized => String::from_str("unauthorized"),
            ErrorCode::TokenInvalid => String::from_str("token_invalid"),
            ErrorCode::RateLimitExceeded => String::from_str("rate_limit_exceeded"),
            ErrorCode::InternalError => String::from_str("internal_error"),
            ErrorCode::OrderIdempotencyViolation => String::from_str(
                "order_idempotency_violation",
            ),
            ErrorCode::PinMissing => String::from_str("pin_missing"),
            ErrorCode::PinNotSet => String::from_str("pin_not_set"),
            ErrorCode::PinInvalid => String::from_str("pin_invalid"),
            ErrorCode::WithdrawInsufficientFunds => String::from_str(
                "withdraw_insufficient_funds",
            ),
            ErrorCode::WithdrawLimitExceeded => String::from_str("withdraw_limit_exceeded"),
            ErrorCode::WithdrawRequestLimitExceeded => String::from_str(
                "withdraw_request_limit_exceeded",
            ),
            ErrorCode::ForbiddenInCurrentState => String::from_str("forbidden_in_current_state"),
            ErrorCode::PlanNotAllowed => String::from_str("plan_not_allowed"),
            ErrorCode::InsufficientHoldings => String::from_str("insufficient_holdings"),
            ErrorCode::OrderExpirationDateInvalid => String::from_str(
                "order_expiration_date_invalid",
            ),
            ErrorCode::OrderTotalPriceLimitExceeded => String::from_str(
                "order_total_price_limit_exceeded",
            ),
            ErrorCode::ForbiddenForVenue => String::from_str("forbidden_for_venue"),
            ErrorCode::TradingDisabled => String::from_str("trading_disabled"),
            ErrorCode::OrderLimitExceeded => String::from_str("order_limit_exceeded"),
            ErrorCode::InstrumentNotTradable => String::from_str("instrument_not_tradable"),
            ErrorCode::AccountInsufficientFunds => String::from_str("account_insufficient_funds"),
            ErrorCode::TradingBlocked => String::from_str("trading_blocked"),
            ErrorCode::OrderNotInactive => String::from_str("order_not_inactive"),
            ErrorCode::OrderNotTerminated => String::from_str("order_not_terminated"),
            ErrorCode::Unknown(raw) => raw.clone(),
        }
    }
}

/// The code a wire text stands for: the known code where there is one,
/// and otherwise the text itself kept under [`ErrorCode::Unknown`].
pub open spec fn spec_code_of(s: String) -> ErrorCode {
    match known_code_of(s@) {
        Some(c) => c,
        None => ErrorCode::Unknown(s),
    }
}

impl ErrorCode {
    /// As [`ErrorCode::from_wire`], but keeping the given text itself
    /// when the code is unknown.
    pub fn from_wire_string(s: String) -> (r: ErrorCode)
        ensures
            r == spec_code_of(s),
    {
        match ErrorCode::from_wire(s.as_str()) {
            ErrorCode::Unknown(_) => ErrorCode::Unknown(s),
            known => known,
        }
    }
}

/// Law: a known wire text decodes to the code whose wire name it is, so
/// decoding and re-encoding a known code's text is lossless.
pub proof fn lemma_wire_text_round_trip(s: Seq<char>)
    ensures
        known_code_of(s) matches Some(c) ==> wire_name(c) == s,
{
}

/// Law: encoding a known code and decoding the text gives the code back.
pub proof fn lemma_code_round_trip(c: ErrorCode)
    requires
        !(c is Unknown),
    ensures
        known_code_of(wire_name(c)) == Some(c),
{
    reveal_strlit("unauthorized");
    reveal_strlit("token_invalid");
    reveal_strlit("rate_limit_exceeded");
    reveal_strlit("internal_error");
    reveal_strlit("order_idempotency_violation");
    reveal_strlit("pin_missing");
    reveal_strlit("pin_not_set");
    reveal_strlit("pin_invalid");
    reveal_strlit("withdraw_insufficient_funds");
    reveal_strlit("withdraw_limit_exceeded");
    reveal_strlit("withdraw_request_limit_exceeded");
    reveal_strlit("forbidden_in_current_state");
    reveal_strlit("plan_not_allowed");
    reveal_strlit("insufficient_holdings");
    reveal_strlit("order_expiration_date_invalid");
    reveal_strlit("order_total_price_limit_exceeded");
    reveal_strlit("forbidden_for_venue");
    reveal_strlit("trading_disabled");
    reveal_strlit("order_limit_exceeded");
    reveal_strlit("instrument_not_tradable");
    reveal_strlit("account_insufficient_funds");
    reveal_strlit("trading_blocked");
    reveal_strlit("order_not_inactive");
    reveal_strlit("order_not_terminated");
    // Each wire text's length and two of its characters: enough to tell any
    // two of the texts apart, so the earlier branches of `known_code_of`
    // are seen to miss.
    assert("unauthorized"@.len() == 12);
    assert("unauthorized"@[0] == 'u');
    assert("unauthorized"@[6] == 'o');
    assert("token_invalid"@.len() == 13);
    assert("token_invalid"@[0] == 't');
    assert("token_invalid"@[6] == 'i');
    assert("rate_limit_exceeded"@.len() == 19);
    assert("rate_limit_exceeded"@[0] == 'r');
    assert("rate_limit_exceeded"@[6] == 'i');
    assert("internal_error"@.len() == 14);
    assert("internal_error"@[0] == 'i');
    assert("internal_error"@[6] == 'a');
    assert("order_idempotency_violation"@.len() == 27);
    assert("order_idempotency_violation"@[0] == 'o');
    assert("order_idempotency_violation"@[6] == 'i');
    assert("pin_missing"@.len() == 11);
    assert("pin_missing"@[0] == 'p');
    assert("pin_missing"@[6] == 's');
    assert("pin_not_set"@.len() == 11);
    assert("pin_not_set"@[0] == 'p');
    assert("pin_not_set"@[6] == 't');
    assert("pin_invalid"@.len() == 11);
    assert("pin_invalid"@[0] == 'p');
    assert("pin_invalid"@[6] == 'v');
    assert("withdraw_insufficient_funds"@.len() == 27);
    assert("withdraw_insufficient_funds"@[0] == 'w');
    assert("withdraw_insufficient_funds"@[6] == 'a');
    assert("withdraw_limit_exceeded"@.len() == 23);
    assert("withdraw_limit_exceeded"@[0] == 'w');
    assert("withdraw_limit_exceeded"@[6] == 'a');
    assert("withdraw_request_limit_exceeded"@.len() == 31);
    assert("withdraw_request_limit_exceeded"@[0] == 'w');
    assert("withdraw_request_limit_exceeded"@[6] == 'a');
    assert("forbidden_in_current_state"@.len() == 26);
    assert("forbidden_in_current_state"@[0] == 'f');
    assert("forbidden_in_current_state"@[6] == 'd');
    assert("plan_not_allowed"@.len() == 16);
    assert("plan_not_allowed"@[0] == 'p');
    assert("plan_not_allowed"@[6] == 'o');
    assert("insufficient_holdings"@.len() == 21);
    assert("insufficient_holdings"@[0] == 'i');
    assert("insufficient_holdings"@[6] == 'i');
    assert("order_expiration_date_invalid"@.len() == 29);
    assert("order_expiration_date_invalid"@[0] == 'o');
    assert("order_expiration_date_invalid"@[6] == 'e');
    assert("order_total_price_limit_exceeded"@.len() == 32);
    assert("order_total_price_limit_exceeded"@[0] == 'o');
    assert("order_total_price_limit_exceeded"@[6] == 't');
    assert("forbidden_for_venue"@.len() == 19);
    assert("forbidden_for_venue"@[0] == 'f');
    assert("forbidden_for_venue"@[6] == 'd');
    assert("trading_disabled"@.len() == 16);
    assert("trading_disabled"@[0] == 't');
    assert("trading_disabled"@[6] == 'g');
    assert("order_limit_exceeded"@.len() == 20);
    assert("order_limit_exceeded"@[0] == 'o');
    assert("order_limit_exceeded"@[6] == 'l');
    assert("instrument_not_tradable"@.len() == 23);
    assert("instrument_not_tradable"@[0] == 'i');
    assert("instrument_not_tradable"@[6] == 'm');
    assert("account_insufficient_funds"@.len() == 26);
    assert("account_insufficient_funds"@[0] == 'a');
    assert("account_insufficient_funds"@[6] == 't');
    assert("trading_blocked"@.len() == 15);
    assert("trading_blocked"@[0] == 't');
    assert("trading_blocked"@[6] == 'g');
    assert("order_not_inactive"@.len() == 18);
    assert("order_not_inactive"@[0] == 'o');
    assert("order_not_inactive"@[6] == 'n');
    assert("order_not_terminated"@.len() == 20);
    assert("order_not_terminated"@[0] == 'o');
    assert("order_not_terminated"@[6] == 'n');
    match c {
        ErrorCode::Unauthorized => assert(known_code_of(wire_name(c)) == Some(c)),
        ErrorCode::TokenInvalid => assert(known_code_of(wire_name(c)) == Some(c)),
        ErrorCode::RateLimitExceeded => assert(known_code_of(wire_name(c)) == Some(c)),
        ErrorCode::InternalError => assert(known_code_of(wire_name(c)) == Some(c)),
        ErrorCode::OrderIdempotencyViolation => assert(known_code_of(wire_name(c)) == Some(c)),
        ErrorCode::PinMissing => assert(known_code_of(wire_name(c)) == Some(c)),
        ErrorCode::PinNotSet => assert(known_code_of(wire_name(c)) == Some(c)),
        ErrorCode::PinInvalid => assert(known_code_of(wire_name(c)) == Some(c)),
        ErrorCode::WithdrawInsufficientFunds => assert(known_code_of(wire_name(c)) == Some(c)),
        ErrorCode::WithdrawLimitExceeded => assert(known_code_of(wire_name(c)) == Some(c)),
        ErrorCode::WithdrawRequestLimitExceeded => assert(known_code_of(wire_name(c)) == Some(c)),
        ErrorCode::ForbiddenInCurrentState => assert(known_code_of(wire_name(c)) == Some(c)),
        ErrorCode::PlanNotAllowed => assert(known_code_of(wire_name(c)) == Some(c)),
        ErrorCode::InsufficientHoldings => assert(known_code_of(wire_name(c)) == Some(c)),
        ErrorCode::OrderExpirationDateInvalid => assert(known_code_of(wire_name(c)) == Some(c)),
        ErrorCode::OrderTotalPriceLimitExceeded => assert(known_code_of(wire_name(c)) == Some(c)),
        ErrorCode::ForbiddenForVenue => assert(known_code_of(wire_name(c)) == Some(c)),
        ErrorCode::TradingDisabled => assert(known_code_of(wire_name(c)) == Some(c)),
        ErrorCode::OrderLimitExceeded => assert(known_code_of(wire_name(c)) == Some(c)),
        ErrorCode::InstrumentNotTradable => assert(known_code_of(wire_name(c)) == Some(c)),
        ErrorCode::AccountInsufficientFunds => assert(known_code_of(wire_name(c)) == Some(c)),
        ErrorCode::TradingBlocked => assert(known_code_of(wire_name(c)) == Some(c)),
        ErrorCode::OrderNotInactive => assert(known_code_of(wire_name(c)) == Some(c)),
        ErrorCode::OrderNotTerminated => assert(known_code_of(wire_name(c)) == Some(c)),
        ErrorCode::Unknown(_) => assert(false),
    }
}

/// The structured error payload the service sends with a non-200 status.
#[derive(Debug)]
pub struct LemonError {
    /// The time the error occurred, as the service reported it.
    pub time: String,
    /// The environment the request was placed in.
    pub mode: Mode,
    /// The status text of the error response.
    pub status: String,
    /// The service's error code.
    pub error_code: ErrorCode,
    /// The service's error message.
    pub error_message: String,
}

/// Law: a wire text naming no known code still decodes, kept verbatim
/// under the reserved variant, so a service-side addition never fails the
/// decode of an error payload.
pub proof fn lemma_unknown_code_tolerated(s: String)
    requires
        known_code_of(s@) is None,
    ensures
        spec_code_of(s) == ErrorCode::Unknown(s),
{
}

/// Law: decoding any wire text and writing the code back gives the text
/// again, known or not.
pub proof fn lemma_wire_code_total_round_trip(s: String)
    ensures
        wire_name(spec_code_of(s)) == s@,
{
}

/// The error payload a document decodes to, when it has the expected
/// shape.  An unknown code text is kept, not rejected.
pub open spec fn spec_lemon_error(v: JsonVal) -> Option<LemonError> {
    if spec_req_string(v, "time"@) is Some && spec_req_mode(v, "mode"@) is Some && spec_req_string(
        v,
        "status"@,
    ) is Some && spec_req_string(v, "error_code"@) is Some && spec_req_string(
        v,
        "error_message"@,
    ) is Some {
        Some(
            LemonError {
                time: spec_req_string(v, "time"@)->Some_0,
                mode: spec_req_mode(v, "mode"@)->Some_0,
                status: spec_req_string(v, "status"@)->Some_0,
                error_code: spec_code_of(spec_req_string(v, "error_code"@)->Some_0),
                error_message: spec_req_string(v, "error_message"@)->Some_0,
            },
        )
    } else {
        None
    }
}

impl FromJson for LemonError {
    open spec fn decode_rel(v: JsonVal, r: Option<LemonError>) -> bool {
        r == spec_lemon_error(v)
    }

    proof fn lemma_decode_exclusive(v: JsonVal, t: LemonError) {
    }

    fn from_json(v: &JsonVal) -> Option<LemonError> {
        let time = match req_string(v, "time") {
            Some(s) => s,
            None => {
                return None;
            },
        };
        let mode = match req_string(v, "mode") {
            Some(s) => {
                match Mode::from_wire(s.as_str()) {
                    Some(m) => m,
                    None => {
                        return None;
                    },
                }
            },
            None => {
                return None;
            },
        };
        let status = match req_string(v, "status") {
            Some(s) => s,
            None => {
                return None;
            },
        };
        let error_code = match req_string(v, "error_code") {
            Some(s) => ErrorCode::from_wire_string(s),
            None => {
                return None;
            },
        };
        let error_message = match req_string(v, "error_message") {
            Some(s) => s,
            None => {
                return None;
            },
        };
        Some(LemonError { time, mode, status, error_code, error_message })
    }
}

/// The display text of an error payload.
pub open spec fn lemon_error_text(e: LemonError) -> Seq<char> {
    "time: "@ + e.time@ + ", mode: "@ + crate::api::mode_name(e.mode) + ", status: "@ + e.status@
        + ", error_code: "@ + wire_name(e.error_code) + ", error_message: "@ + e.error_message@
}

impl LemonError {
    /// One line naming every field of the payload.
    pub fn to_display_string(&self) -> (r: String)
        ensures
            r@ == lemon_error_text(*self),
    {
        let mut r = String::from_str("time: ");
        r.append(self.time.as_str());
        r.append(", mode: ");
        r.append(self.mode.as_str());
        r.append(", status: ");
        r.append(self.status.as_str());
        r.append(", error_code: ");
        r.append(self.error_code.as_wire_str().as_str());
        r.append(", error_message: ");
        r.append(self.error_message.as_str());
        r
    }
}

} // verus!
