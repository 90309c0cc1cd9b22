//! Decoding of the richer payload shapes: nested results, arrays, and
//! optional fields.

use lemon_markets::api::orders::OrderType;
use lemon_markets::api::Mode;
use lemon_markets::client::TradingClient;
use lemon_markets::data_client::DataClient;
use lemon_markets::http::HttpResponse;

fn ok(status: u16, body: &str) -> Result<HttpResponse, String> {
    Ok(HttpResponse { status, body: body.to_string() })
}

#[test]
fn placed_order_results_decode() {
    let client = TradingClient::paper_client("paper-key");
    let body = "{\"time\":\"2022-02-02T17:43:05.307+00:00\",\"mode\":\"paper\",\"status\":\"ok\",\"results\":{\"created_at\":\"2022-02-02T17:43:05.307+00:00\",\"id\":\"ord_abc123\",\"status\":\"inactive\",\"regulatory_information\":{\"costs_entry\":20000,\"costs_entry_pct\":\"0.30%\",\"costs_running\":0,\"costs_running_pct\":\"0.00%\",\"costs_product\":0,\"costs_product_pct\":\"0.00%\",\"costs_exit\":20000,\"costs_exit_pct\":\"0.30%\",\"yield_reduction_year\":20000,\"yield_reduction_year_pct\":\"0.30%\",\"yield_reduction_year_following\":0,\"yield_reduction_year_following_pct\":\"0.00%\",\"yield_reduction_year_exit\":20000,\"yield_reduction_year_exit_pct\":\"0.30%\",\"estimated_holding_duration_years\":\"5\",\"estimated_yield_reduction_total\":40000,\"estimated_yield_reduction_total_pct\":\"0.61%\",\"KIID\":\"text\",\"legal_disclaimer\":\"text\"},\"isin\":\"US0378331005\",\"expires_at\":\"2022-02-03\",\"side\":\"buy\",\"quantity\":1,\"stop_price\":null,\"limit_price\":null,\"venue\":\"XMUN\",\"estimated_price\":6650000,\"notes\":null,\"idempotency\":null,\"charge\":0,\"chargeable_at\":null,\"key_creation_id\":null}}";
    let resp = client.post_order(ok(200, body)).unwrap();
    assert_eq!(resp.status, "ok");
    assert_eq!(resp.mode, Mode::Paper);
    let results = resp.results.unwrap();
    assert_eq!(results.id, "ord_abc123");
    assert_eq!(results.side, Some(OrderType::Buy));
    assert_eq!(results.quantity, Some(1));
    assert_eq!(results.estimated_price, Some(6650000));
    assert_eq!(results.stop_price, None);
    let info = results.regulatory_information.unwrap();
    assert_eq!(info.costs_entry, Some(20000));
    assert_eq!(info.kiid, Some("text".to_string()));
}

#[test]
fn instruments_page_decodes_nested_venues() {
    let client = DataClient::new("data-key".to_string());
    let body = "{\"time\":\"2022-02-02T17:43:05.307+00:00\",\"status\":\"ok\",\"mode\":\"market_data\",\"results\":[{\"isin\":\"US0378331005\",\"wkn\":\"865985\",\"name\":\"APPLE INC.\",\"title\":\"APPLE INC\",\"symbol\":\"AAPL\",\"type\":\"stock\",\"venues\":[{\"name\":\"B\\u00f6rse M\\u00fcnchen - Gettex\",\"title\":\"Gettex\",\"mic\":\"XMUN\",\"is_open\":true,\"tradable\":true,\"currency\":\"EUR\"}]}],\"previous\":null,\"next\":null,\"total\":1,\"page\":1,\"pages\":1}";
    let page = client.get_instruments(ok(200, body)).unwrap();
    assert_eq!(page.mode, Some(Mode::MarketData));
    assert_eq!(page.total, 1);
    let results = page.results.unwrap();
    assert_eq!(results.len(), 1);
    assert_eq!(results[0].isin, Some("US0378331005".to_string()));
    assert_eq!(results[0].instrument_type, Some("stock".to_string()));
    let venues = results[0].venues.as_ref().unwrap();
    assert_eq!(venues.len(), 1);
    assert_eq!(venues[0].mic, "XMUN");
    assert!(venues[0].tradable);
}

#[test]
fn venues_page_decodes_opening_days() {
    let client = DataClient::new("data-key".to_string());
    let body = "{\"time\":\"2022-02-02T17:43:05.307+00:00\",\"status\":\"ok\",\"mode\":\"market_data\",\"results\":[{\"name\":\"Gettex\",\"title\":\"Gettex\",\"mic\":\"XMUN\",\"is_open\":true,\"opening_hours\":{\"start\":\"08:00\",\"end\":\"22:00\",\"timezone\":\"Europe/Berlin\"},\"opening_days\":[\"2022-02-02\",\"2022-02-03\"]}],\"previous\":null,\"next\":null,\"total\":1,\"page\":1,\"pages\":1}";
    let page = client.get_venues(ok(200, body)).unwrap();
    let results = page.results.unwrap();
    assert_eq!(results[0].opening_hours.timezone, "Europe/Berlin");
    assert_eq!(results[0].opening_days, vec!["2022-02-02".to_string(), "2022-02-03".to_string()]);
}

#[test]
fn statements_page_decodes() {
    let client = TradingClient::paper_client("paper-key");
    let body = "{\"time\":\"2022-02-02T17:43:05.307+00:00\",\"status\":\"ok\",\"mode\":\"paper\",\"results\":[{\"id\":\"st_123\",\"order_id\":\"ord_abc123\",\"external_id\":null,\"type\":\"order_buy\",\"quantity\":1,\"isin\":\"US0378331005\",\"isin_title\":\"APPLE INC\",\"date\":\"2022-02-02\",\"created_at\":\"2022-02-02T17:43:05.307+00:00\"}],\"previous\":null,\"next\":null,\"total\":1,\"page\":1,\"pages\":1}";
    let page = client.get_statements(ok(200, body)).unwrap();
    let results = page.results.unwrap();
    assert_eq!(results[0].statement_type, "order_buy");
    assert_eq!(results[0].order_id, Some("ord_abc123".to_string()));
    assert_eq!(results[0].external_id, None);
    assert_eq!(results[0].quantity, 1);
}

#[test]
fn positions_performance_page_decodes() {
    let client = TradingClient::paper_client("paper-key");
    let body = "{\"time\":\"2022-02-02T17:43:05.307+00:00\",\"status\":\"ok\",\"mode\":\"paper\",\"results\":[{\"isin\":\"US0378331005\",\"isin_title\":\"APPLE INC\",\"profit\":1000,\"loss\":0,\"quantity_bought\":2,\"quantity_sold\":1,\"quantity_open\":1,\"opened_at\":\"2022-02-02T17:43:05.307+00:00\",\"closed_at\":null,\"fees\":500}],\"previous\":null,\"next\":null,\"total\":1,\"page\":1,\"pages\":1}";
    let page = client.get_positions_performance(ok(200, body)).unwrap();
    let results = page.results.unwrap();
    assert_eq!(results[0].profit, 1000);
    assert_eq!(results[0].closed_at, None);
    assert_eq!(results[0].fees, 500);
}

#[test]
fn extra_and_fractional_fields_outside_the_shape_are_ignored() {
    let client = TradingClient::paper_client("paper-key");
    let body = "{\"time\":\"t\",\"status\":\"ok\",\"mode\":\"paper\",\"results\":[],\"previous\":null,\"next\":null,\"total\":0,\"page\":1,\"pages\":0,\"ratio\":1.5}";
    let page = client.get_positions(ok(200, body)).unwrap();
    assert_eq!(page.total, 0);
}

#[test]
fn fractional_number_in_an_integer_field_fails_the_decode() {
    let client = TradingClient::paper_client("paper-key");
    let body = "{\"time\":\"t\",\"status\":\"ok\",\"mode\":\"paper\",\"results\":[],\"previous\":null,\"next\":null,\"total\":0.5,\"page\":1,\"pages\":0}";
    let result = client.get_positions(ok(200, body));
    assert!(matches!(result.unwrap_err(), lemon_markets::error::Error::Decode(_)));
}

#[test]
fn consistency_check_follows_the_documented_invariants() {
    let client = TradingClient::paper_client("paper-key");
    let body = "{\"time\":\"t\",\"status\":\"ok\",\"mode\":\"paper\",\"results\":[],\"previous\":null,\"next\":null,\"total\":0,\"page\":1,\"pages\":0}";
    let page = client.get_positions(ok(200, body)).unwrap();
    assert!(page.check_consistent());
    let zero_page = "{\"time\":\"t\",\"status\":\"ok\",\"mode\":\"paper\",\"results\":[],\"previous\":null,\"next\":null,\"total\":0,\"page\":0,\"pages\":0}";
    let page = client.get_positions(ok(200, zero_page)).unwrap();
    assert!(!page.check_consistent());
}

#[test]
fn element_of_wrong_shape_fails_the_whole_page() {
    let client = TradingClient::paper_client("paper-key");
    let body = "{\"time\":\"t\",\"status\":\"ok\",\"mode\":\"paper\",\"results\":[{\"isin\":\"US0378331005\"}],\"previous\":null,\"next\":null,\"total\":1,\"page\":1,\"pages\":1}";
    let result = client.get_positions(ok(200, body));
    assert!(result.is_err());
}
