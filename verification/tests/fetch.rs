use coin_price::api::{error_message, interpret_response, price_url, FetchError, Price, Quote};
use coin_price::report::{dispatch_plan, report_line};
use coin_price::text::{ascii_lower, ascii_upper, u64_to_dec, usd_dec};

fn quote(key: &str, cents: u64) -> Quote {
    Quote { key: key.to_string(), usd: Price { cents } }
}

#[test]
fn test_fetch_price_success() {
    let body = vec![quote("btc", 2000000)];
    let price = interpret_response("BTC", 200, Some(&body)).unwrap();
    assert_eq!(price, Price { cents: 2000000 });
}

#[test]
fn test_success_returns_value_unchanged() {
    let body = vec![quote("eth", 150075), quote("btc", 2000000)];
    assert_eq!(
        interpret_response("ETH", 200, Some(&body)),
        Ok(Price { cents: 150075 })
    );
    assert_eq!(
        interpret_response("btc", 200, Some(&body)),
        Ok(Price { cents: 2000000 })
    );
}

#[test]
fn test_symbol_absent_is_not_found() {
    let body = vec![quote("eth", 150075)];
    assert_eq!(
        interpret_response("BTC", 200, Some(&body)),
        Err(FetchError::NotFound)
    );
    let empty: Vec<Quote> = Vec::new();
    assert_eq!(
        interpret_response("BTC", 200, Some(&empty)),
        Err(FetchError::NotFound)
    );
}

#[test]
fn test_rate_limited_on_429_regardless_of_body() {
    let body = vec![quote("btc", 2000000)];
    assert_eq!(
        interpret_response("BTC", 429, Some(&body)),
        Err(FetchError::RateLimited)
    );
    assert_eq!(
        interpret_response("BTC", 429, None),
        Err(FetchError::RateLimited)
    );
}

#[test]
fn test_not_found_on_404() {
    assert_eq!(
        interpret_response("BTC", 404, None),
        Err(FetchError::NotFound)
    );
}

#[test]
fn test_transport_error_on_other_status() {
    assert_eq!(
        interpret_response("BTC", 500, None),
        Err(FetchError::TransportError(500))
    );
    assert_eq!(
        interpret_response("BTC", 503, None),
        Err(FetchError::TransportError(503))
    );
    assert_eq!(
        interpret_response("BTC", 301, None),
        Err(FetchError::TransportError(301))
    );
}

#[test]
fn test_parse_error_on_unreadable_success_body() {
    assert_eq!(
        interpret_response("BTC", 200, None),
        Err(FetchError::ParseError)
    );
}

#[test]
fn test_empty_symbol_surfaces_as_not_found() {
    let body = vec![quote("btc", 2000000)];
    assert_eq!(
        interpret_response("", 200, Some(&body)),
        Err(FetchError::NotFound)
    );
    assert_eq!(
        price_url(""),
        "https://api.coingecko.com/api/v3/simple/price?ids=&vs_currencies=usd"
    );
}

#[test]
fn test_first_entry_wins_on_equal_keys() {
    let body = vec![quote("btc", 100), quote("btc", 200)];
    assert_eq!(
        interpret_response("BTC", 200, Some(&body)),
        Ok(Price { cents: 100 })
    );
}

#[test]
fn test_query_url() {
    assert_eq!(
        price_url("BTC"),
        "https://api.coingecko.com/api/v3/simple/price?ids=btc&vs_currencies=usd"
    );
}

#[test]
fn test_case_insensitive_end_to_end() {
    assert_eq!(price_url("btc"), price_url("BTC"));
    assert_eq!(ascii_upper("btc"), "BTC");
    assert_eq!(ascii_lower("BtC"), "btc");
    let plan = dispatch_plan(&vec!["btc".to_string()]);
    assert_eq!(plan.len(), 1);
    assert_eq!(plan[0].display, "BTC");
    assert_eq!(
        plan[0].url,
        "https://api.coingecko.com/api/v3/simple/price?ids=btc&vs_currencies=usd"
    );
}

#[test]
fn test_dispatch_plan_keeps_order_and_duplicates() {
    let symbols = vec!["BTC".to_string(), "zzz".to_string(), "BTC".to_string()];
    let plan = dispatch_plan(&symbols);
    assert_eq!(plan.len(), 3);
    assert_eq!(plan[0].display, "BTC");
    assert_eq!(plan[1].display, "ZZZ");
    assert_eq!(plan[2].display, "BTC");
    assert_eq!(plan[0].url, plan[2].url);
    assert!(plan[1].url.contains("ids=zzz"));
}

#[test]
fn test_mixed_outcome_report_lines() {
    let ok_line = report_line("BTC", Ok(Price { cents: 2000000 }));
    assert!(!ok_line.is_error);
    assert_eq!(ok_line.text, "The current price of BTC is $20000.00");

    let err_line = report_line("ZZZ", Err(FetchError::NotFound));
    assert!(err_line.is_error);
    assert!(err_line.text.contains("ZZZ"));
    assert_eq!(
        err_line.text,
        "Error fetching price data for ZZZ: Symbol ZZZ not found"
    );
}

#[test]
fn test_error_messages() {
    assert_eq!(
        error_message(&FetchError::RateLimited, "BTC"),
        "Rate limit exceeded. Please try again later."
    );
    assert_eq!(
        error_message(&FetchError::NotFound, "ZZZ"),
        "Symbol ZZZ not found"
    );
    assert_eq!(
        error_message(&FetchError::TransportError(500), "BTC"),
        "Failed to fetch data: HTTP 500"
    );
    assert_eq!(
        error_message(&FetchError::ParseError, "BTC"),
        "Failed to parse price data"
    );
}

#[test]
fn test_decimal_rendering() {
    assert_eq!(u64_to_dec(0), "0");
    assert_eq!(u64_to_dec(7), "7");
    assert_eq!(u64_to_dec(9081), "9081");
    assert_eq!(usd_dec(2000000), "20000.00");
    assert_eq!(usd_dec(0), "0.00");
    assert_eq!(usd_dec(5), "0.05");
    assert_eq!(usd_dec(123), "1.23");
    assert_eq!(usd_dec(100), "1.00");
}
