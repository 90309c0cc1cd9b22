//! The wire texts of modes, error codes and other enumerations.

use lemon_markets::api::orders::OrderType;
use lemon_markets::api::positions::statements::StatementType;
use lemon_markets::api::account::Sorting;
use lemon_markets::api::Mode;
use lemon_markets::error::ErrorCode;
use lemon_markets::error::LemonError;

#[test]
fn mode_texts_round_trip() {
    assert_eq!(Mode::Paper.as_str(), "paper");
    assert_eq!(Mode::Live.as_str(), "live");
    assert_eq!(Mode::MarketData.as_str(), "market_data");
    assert_eq!(Mode::from_wire("paper"), Some(Mode::Paper));
    assert_eq!(Mode::from_wire("live"), Some(Mode::Live));
    assert_eq!(Mode::from_wire("market_data"), Some(Mode::MarketData));
    assert_eq!(Mode::from_wire("money"), None);
}

#[test]
fn known_error_codes_round_trip() {
    let codes = vec![
        ErrorCode::Unauthorized,
        ErrorCode::TokenInvalid,
        ErrorCode::RateLimitExceeded,
        ErrorCode::InternalError,
        ErrorCode::OrderIdempotencyViolation,
        ErrorCode::PinMissing,
        ErrorCode::PinNotSet,
        ErrorCode::PinInvalid,
        ErrorCode::WithdrawInsufficientFunds,
        ErrorCode::WithdrawLimitExceeded,
        ErrorCode::WithdrawRequestLimitExceeded,
        ErrorCode::ForbiddenInCurrentState,
        ErrorCode::PlanNotAllowed,
        ErrorCode::InsufficientHoldings,
        ErrorCode::OrderExpirationDateInvalid,
        ErrorCode::OrderTotalPriceLimitExceeded,
        ErrorCode::ForbiddenForVenue,
        ErrorCode::TradingDisabled,
        ErrorCode::OrderLimitExceeded,
        ErrorCode::InstrumentNotTradable,
        ErrorCode::AccountInsufficientFunds,
        ErrorCode::TradingBlocked,
        ErrorCode::OrderNotInactive,
        ErrorCode::OrderNotTerminated,
    ];
    for code in codes {
        let text = code.as_wire_str();
        assert_eq!(ErrorCode::from_wire(&text), code);
    }
}

#[test]
fn specific_code_texts_match_the_service() {
    assert_eq!(ErrorCode::PinInvalid.as_wire_str(), "pin_invalid");
    assert_eq!(ErrorCode::Unauthorized.as_wire_str(), "unauthorized");
    assert_eq!(ErrorCode::RateLimitExceeded.as_wire_str(), "rate_limit_exceeded");
    assert_eq!(ErrorCode::from_wire("order_not_terminated"), ErrorCode::OrderNotTerminated);
}

#[test]
fn unknown_code_text_is_kept_verbatim() {
    let code = ErrorCode::from_wire("some_future_code");
    assert_eq!(code, ErrorCode::Unknown("some_future_code".to_string()));
    assert_eq!(code.as_wire_str(), "some_future_code");
}

#[test]
fn sorting_and_statement_texts() {
    assert_eq!(Sorting::Asc.as_str(), "asc_");
    assert_eq!(Sorting::Desc.as_str(), "desc");
    assert_eq!(StatementType::OrderBuy.as_str(), "order_buy");
    assert_eq!(StatementType::Snx.as_str(), "snx");
    assert_eq!(StatementType::from_wire("split"), Some(StatementType::Split));
    assert_eq!(StatementType::from_wire("merge"), None);
}

#[test]
fn order_side_texts_round_trip() {
    assert_eq!(OrderType::Buy.as_str(), "buy");
    assert_eq!(OrderType::Sell.as_str(), "sell");
    assert_eq!(OrderType::from_wire("buy"), Some(OrderType::Buy));
    assert_eq!(OrderType::from_wire("sell"), Some(OrderType::Sell));
    assert_eq!(OrderType::from_wire("hold"), None);
}

#[test]
fn error_payload_display_names_every_field() {
    let payload = LemonError {
        time: "t".to_string(),
        mode: Mode::Paper,
        status: "error".to_string(),
        error_code: ErrorCode::PinInvalid,
        error_message: "pin verification failed".to_string(),
    };
    assert_eq!(
        payload.to_display_string(),
        "time: t, mode: paper, status: error, error_code: pin_invalid, error_message: pin verification failed"
    );
}
