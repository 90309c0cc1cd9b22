//! Query-string building: absent parameters are skipped, present ones keep
//! their order, and an empty set appends no query string at all.

use lemon_markets::client::TradingClient;
use lemon_markets::data_client::DataClient;
use lemon_markets::http::Method;
use lemon_markets::query::query_string;
use lemon_markets::query::QueryParam;

#[test]
fn empty_parameter_set_appends_no_query_string() {
    let client = TradingClient::paper_client("paper-key");
    let params: Vec<QueryParam> = Vec::new();
    let request = client.get_with_query("positions/", &params);
    assert_eq!(request.url, "https://paper-trading.lemon.markets/v1/positions/");
    assert!(!request.url.contains('?'));
}

#[test]
fn all_absent_parameters_append_no_query_string() {
    let client = DataClient::new("data-key".to_string());
    let request = client.instruments_request(None, None, None);
    assert_eq!(request.url, "https://data.lemon.markets/v1/instruments/");
}

#[test]
fn isin_filter_scenario_sends_only_the_isin() {
    let client = DataClient::new("data-key".to_string());
    let request = client.instruments_request(Some("US0378331005".to_string()), None, None);
    assert_eq!(request.method, Method::Get);
    assert_eq!(request.url, "https://data.lemon.markets/v1/instruments/?isin=US0378331005");
    assert!(!request.url.contains("search"));
    assert!(!request.url.contains("instrument_type"));
}

#[test]
fn search_filter_names_the_instrument() {
    let client = DataClient::new("data-key".to_string());
    let request = client.instruments_request(None, Some("Aker".to_string()), None);
    assert_eq!(request.url, "https://data.lemon.markets/v1/instruments/?search=Aker");
}

#[test]
fn present_parameters_keep_their_order() {
    let params = vec![
        QueryParam::new("isin", Some("US0378331005".to_string())),
        QueryParam::new("search", None),
        QueryParam::new("instrument_type", Some("stock".to_string())),
    ];
    assert_eq!(query_string(&params), "isin=US0378331005&instrument_type=stock");
}

#[test]
fn query_values_are_form_encoded() {
    let params = vec![QueryParam::new("search", Some("Aker ASA & sons".to_string()))];
    assert_eq!(query_string(&params), "search=Aker+ASA+%26+sons");
}

#[test]
fn statements_request_sends_only_given_paging() {
    let client = TradingClient::paper_client("paper-key");
    let bare = client.statements_request(None, None);
    assert_eq!(bare.url, "https://paper-trading.lemon.markets/v1/positions/statements");
    let paged = client.statements_request(Some(25), Some(3));
    assert_eq!(
        paged.url,
        "https://paper-trading.lemon.markets/v1/positions/statements?limit=25&page=3"
    );
    let only_page = client.statements_request(None, Some(2));
    assert_eq!(
        only_page.url,
        "https://paper-trading.lemon.markets/v1/positions/statements?page=2"
    );
}
