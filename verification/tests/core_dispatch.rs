//! The dispatcher's classification policy, exercised on concrete bodies.

use lemon_markets::api::Mode;
use lemon_markets::client::TradingClient;
use lemon_markets::data_client::DataClient;
use lemon_markets::error::Error;
use lemon_markets::error::ErrorCode;
use lemon_markets::http::HttpResponse;
use lemon_markets::http::Method;

fn ok(status: u16, body: &str) -> Result<HttpResponse, String> {
    Ok(HttpResponse { status, body: body.to_string() })
}

#[test]
fn account_scenario_yields_ok_envelope() {
    let client = TradingClient::paper_client("paper-key");
    let request = client.account_information_request();
    assert_eq!(request.method, Method::Get);
    assert_eq!(request.url, "https://paper-trading.lemon.markets/v1/account");
    assert!(request.body.is_none());

    let body = "{\"time\":\"2022-02-02T17:43:05.307+00:00\",\"mode\":\"paper\",\"status\":\"ok\",\"results\":{\"created_at\":\"2021-12-01T00:00:00.000+00:00\",\"account_id\":\"abc\",\"firstname\":\"Jane\",\"lastname\":null,\"email\":\"jane@example.com\",\"phone\":null,\"address\":null,\"billing_address\":null,\"billing_email\":null,\"billing_name\":null,\"billing_vat\":null,\"mode\":\"paper\",\"deposit_id\":null,\"client_id\":null,\"account_number\":null,\"iban_brokerage\":null,\"iban_origin\":null,\"bank_name_origin\":null,\"balance\":100000,\"cash_to_invest\":100000,\"cash_to_withdraw\":100000,\"amount_bought_intraday\":0,\"amount_sold_intraday\":0,\"amount_open_orders\":0,\"amount_open_withdrawals\":0,\"amount_estimate_taxes\":0,\"approved_at\":null,\"trading_plan\":\"go\",\"data_plan\":\"go\",\"tax_allowance\":null,\"tax_allowance_start\":null,\"tax_allowance_end\":null}}";
    let resp = client.get_account_information(ok(200, body)).unwrap();
    assert_eq!(resp.status, "ok");
    assert!(resp.is_ok());
    assert_eq!(resp.mode, "paper");
    assert_eq!(resp.results.account_id, "abc");
    assert_eq!(resp.results.balance, 100000);
    assert_eq!(resp.results.lastname, None);
}

#[test]
fn empty_positions_scenario_yields_empty_page() {
    let client = TradingClient::paper_client("paper-key");
    let request = client.positions_request();
    assert_eq!(request.url, "https://paper-trading.lemon.markets/v1/positions/");

    let body = "{\"time\":\"2022-02-02T17:43:05.307+00:00\",\"status\":\"ok\",\"mode\":\"paper\",\"results\":[],\"previous\":null,\"next\":null,\"total\":0,\"page\":1,\"pages\":0}";
    let page = client.get_positions(ok(200, body)).unwrap();
    assert!(page.is_ok());
    assert_eq!(page.status, Some("ok".to_string()));
    assert_eq!(page.mode, Some(Mode::Paper));
    assert_eq!(page.total, 0);
    assert_eq!(page.page, 1);
    assert_eq!(page.result_count(), 0);
}

#[test]
fn invalid_pin_scenario_yields_remote_error() {
    let client = TradingClient::paper_client("paper-key");
    let body = "{\"time\":\"2022-02-02T17:43:05.307+00:00\",\"mode\":\"paper\",\"status\":\"error\",\"error_code\":\"pin_invalid\",\"error_message\":\"pin verification failed\"}";
    let result = client.post_order(ok(400, body));
    assert_eq!(
        result.unwrap_err(),
        Error::Remote {
            status: 400,
            error_code: ErrorCode::PinInvalid,
            error_message: "pin verification failed".to_string(),
        }
    );
}

#[test]
fn structured_error_keeps_unknown_codes() {
    let client = TradingClient::paper_client("paper-key");
    let body = "{\"time\":\"t\",\"mode\":\"paper\",\"status\":\"error\",\"error_code\":\"brand_new_code\",\"error_message\":\"m\"}";
    let result = client.delete_order(ok(404, body));
    assert_eq!(
        result.unwrap_err(),
        Error::Remote {
            status: 404,
            error_code: ErrorCode::Unknown("brand_new_code".to_string()),
            error_message: "m".to_string(),
        }
    );
}

#[test]
fn unstructured_error_body_yields_transport_error() {
    let client = TradingClient::paper_client("paper-key");
    let result = client.activate_order(ok(500, "gateway fell over"));
    assert_eq!(result.unwrap_err(), Error::Transport("500".to_string()));
}

#[test]
fn empty_error_body_yields_transport_error() {
    let client = TradingClient::paper_client("paper-key");
    let result = client.get_positions(ok(429, ""));
    assert_eq!(result.unwrap_err(), Error::Transport("429".to_string()));
}

#[test]
fn transport_failure_surfaces_before_status_logic() {
    let client = TradingClient::paper_client("paper-key");
    let result = client.get_account_information(Err("connection refused".to_string()));
    assert_eq!(result.unwrap_err(), Error::Transport("connection refused".to_string()));
}

#[test]
fn malformed_success_body_yields_decode_error() {
    let client = TradingClient::paper_client("paper-key");
    let result = client.get_account_information(ok(200, "not json at all"));
    assert_eq!(
        result.unwrap_err(),
        Error::Decode("response body did not match the expected shape".to_string())
    );
}

#[test]
fn wrong_shape_success_body_yields_decode_error() {
    let client = TradingClient::paper_client("paper-key");
    let result = client.get_positions(ok(200, "{\"time\":\"t\",\"status\":\"ok\"}"));
    assert!(matches!(result.unwrap_err(), Error::Decode(_)));
}

#[test]
fn client_constructors_fix_the_base_urls() {
    let paper = TradingClient::paper_client("k1");
    assert_eq!(paper.base_url, "https://paper-trading.lemon.markets/v1/");
    assert_eq!(paper.api_key, "k1");
    let live = TradingClient::live_client("k2".to_string());
    assert_eq!(live.base_url, "https://trading.lemon.markets/v1/");
    let data = DataClient::new("k3".to_string());
    assert_eq!(data.base_url, "https://data.lemon.markets/v1/");
    assert_eq!(lemon_markets::http::authorization_value("k1"), "Bearer k1");
}

#[test]
fn delete_request_appends_the_path_parameter() {
    let client = TradingClient::paper_client("paper-key");
    let request = client.delete_order_request("ord_123");
    assert_eq!(request.method, Method::Delete);
    assert_eq!(request.url, "https://paper-trading.lemon.markets/v1/orders/ord_123");
    assert!(request.body.is_none());
}

#[test]
fn activate_order_request_names_the_order() {
    let client = TradingClient::paper_client("paper-key");
    let request = client.activate_order_request(1234, "ord_123");
    assert_eq!(request.method, Method::Post);
    assert_eq!(request.url, "https://paper-trading.lemon.markets/v1/orders/ord_123/activate");
    assert_eq!(request.body, Some("{\"id\":\"ord_123\",\"pin\":1234}".to_string()));
}
