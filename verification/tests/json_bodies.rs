//! The JSON bodies written for POST requests, and their round trip through
//! a real JSON parser.

use lemon_markets::api::orders::ActivateOrder;
use lemon_markets::api::orders::OrderPlacing;
use lemon_markets::api::orders::OrderType;
use lemon_markets::api::account::withdrawals::WithdrawalRequest;
use lemon_markets::client::TradingClient;
use lemon_markets::json::json_quote;
use lemon_markets::text::i64_to_dec;
use lemon_markets::text::u64_to_dec;

#[test]
fn withdrawal_body_is_written_exactly() {
    let w = WithdrawalRequest { amount: 100, pin: 1234, idempotency: None };
    assert_eq!(w.to_json(), "{\"amount\":100,\"pin\":1234,\"idempotency\":null}");
    let w2 = WithdrawalRequest { amount: 0, pin: -7, idempotency: Some("once".to_string()) };
    assert_eq!(w2.to_json(), "{\"amount\":0,\"pin\":-7,\"idempotency\":\"once\"}");
}

#[test]
fn order_body_is_written_exactly() {
    let order = OrderPlacing {
        isin: "US0378331005".to_string(),
        expires_at: Some("2022-02-03".to_string()),
        side: OrderType::Buy,
        quantity: 1,
        venue: Some("XMUN".to_string()),
    };
    assert_eq!(
        order.to_json(),
        "{\"isin\":\"US0378331005\",\"expires_at\":\"2022-02-03\",\"side\":\"buy\",\"quantity\":1,\"venue\":\"XMUN\"}"
    );
    let bare = OrderPlacing {
        isin: "US0378331005".to_string(),
        expires_at: None,
        side: OrderType::Sell,
        quantity: 2,
        venue: None,
    };
    assert_eq!(
        bare.to_json(),
        "{\"isin\":\"US0378331005\",\"expires_at\":null,\"side\":\"sell\",\"quantity\":2,\"venue\":null}"
    );
}

#[test]
fn string_values_are_escaped() {
    assert_eq!(json_quote("plain"), "\"plain\"");
    assert_eq!(json_quote("say \"hi\""), "\"say \\\"hi\\\"\"");
    assert_eq!(json_quote("a\\b"), "\"a\\\\b\"");
    assert_eq!(json_quote("line\nbreak"), "\"line\\u000abreak\"");
    assert_eq!(json_quote("comté"), "\"comté\"");
}

#[test]
fn integers_are_rendered_in_decimal() {
    assert_eq!(u64_to_dec(0), "0");
    assert_eq!(u64_to_dec(90210), "90210");
    assert_eq!(u64_to_dec(u64::MAX), "18446744073709551615");
    assert_eq!(i64_to_dec(-1), "-1");
    assert_eq!(i64_to_dec(i64::MIN), "-9223372036854775808");
    assert_eq!(i64_to_dec(i64::MAX), "9223372036854775807");
}

#[test]
fn written_bodies_parse_back_losslessly() {
    let w = WithdrawalRequest { amount: 100, pin: 1234, idempotency: Some("key-1".to_string()) };
    let parsed: serde_json::Value = serde_json::from_str(&w.to_json()).unwrap();
    assert_eq!(parsed.get("amount").unwrap().as_u64(), Some(100));
    assert_eq!(parsed.get("pin").unwrap().as_i64(), Some(1234));
    assert_eq!(parsed.get("idempotency").unwrap().as_str(), Some("key-1"));

    let order = OrderPlacing {
        isin: "US0378331005".to_string(),
        expires_at: Some("2022-02-03".to_string()),
        side: OrderType::Buy,
        quantity: 1,
        venue: Some("XMUN".to_string()),
    };
    let parsed: serde_json::Value = serde_json::from_str(&order.to_json()).unwrap();
    assert_eq!(parsed.get("isin").unwrap().as_str(), Some("US0378331005"));
    assert_eq!(parsed.get("expires_at").unwrap().as_str(), Some("2022-02-03"));
    assert_eq!(parsed.get("side").unwrap().as_str(), Some("buy"));
    assert_eq!(parsed.get("quantity").unwrap().as_i64(), Some(1));
    assert_eq!(parsed.get("venue").unwrap().as_str(), Some("XMUN"));

    let escaped = ActivateOrder { id: "with \"quotes\" and \\slashes\\".to_string(), pin: 1 };
    let parsed: serde_json::Value = serde_json::from_str(&escaped.to_json()).unwrap();
    assert_eq!(parsed.get("id").unwrap().as_str(), Some("with \"quotes\" and \\slashes\\"));
}

#[test]
fn posted_withdrawal_carries_the_body() {
    let client = TradingClient::paper_client("paper-key");
    let w = WithdrawalRequest { amount: 100, pin: 1234, idempotency: None };
    let request = client.post_withdrawal_request(&w);
    assert_eq!(request.url, "https://paper-trading.lemon.markets/v1/account/withdrawals/");
    assert_eq!(request.body, Some("{\"amount\":100,\"pin\":1234,\"idempotency\":null}".to_string()));
}

#[test]
fn documented_withdrawal_response_decodes_losslessly() {
    let client = TradingClient::paper_client("paper-key");
    let body = "{\"time\":\"2022-02-02T17:43:05.307+00:00\",\"mode\":\"paper\",\"status\":\"ok\"}";
    let outcome = Ok(lemon_markets::http::HttpResponse { status: 200, body: body.to_string() });
    let resp = client.post_withdrawal(outcome).unwrap();
    assert_eq!(resp.time, "2022-02-02T17:43:05.307+00:00");
    assert_eq!(resp.mode, "paper");
    assert_eq!(resp.status, "ok");
    assert!(resp.is_ok());
}
