use ticker_price::message::{
    new_token_message, no_match_message, price_line, prompt, unexpected_status_message,
};
use ticker_price::quote::{stock_info, PriceInfo, TickerInfo, ZERO_PRICE};
use ticker_price::session::{reads_body, Session, Step, STATUS_OK, STATUS_UNAUTHORIZED};
use ticker_price::url::{construct_url, url_for, Config};

fn info(prices: &[f64], ticker: &str) -> TickerInfo {
    TickerInfo {
        results: prices.iter().map(|p| PriceInfo { c_bits: p.to_bits() }).collect(),
        ticker: ticker.to_string(),
    }
}

fn price_of(step: &Step) -> f64 {
    match step {
        Step::Report(s) => f64::from_bits(s.ticker_price),
        other => panic!("expected a report, got {:?}", other),
    }
}

#[test]
fn url_keeps_line_terminator_and_upper_cases() {
    let config = Config::new("KEY123".to_string());
    assert_eq!(
        construct_url("aapl\n", &config),
        "https://api.polygon.io/v2/aggs/ticker/AAPL\n/prev?adjusted=true&apiKey=KEY123"
    );
}

#[test]
fn url_for_puts_ticker_as_given() {
    let config = Config::new("k".to_string());
    assert_eq!(
        url_for("msft", &config),
        "https://api.polygon.io/v2/aggs/ticker/msft/prev?adjusted=true&apiKey=k"
    );
}

#[test]
fn url_for_empty_ticker() {
    let config = Config::new("KEY123".to_string());
    assert_eq!(
        construct_url("", &config),
        "https://api.polygon.io/v2/aggs/ticker//prev?adjusted=true&apiKey=KEY123"
    );
}

#[test]
fn url_upper_cases_non_ascii() {
    let config = Config::new("x".to_string());
    assert_eq!(
        construct_url("straße", &config),
        "https://api.polygon.io/v2/aggs/ticker/STRASSE/prev?adjusted=true&apiKey=x"
    );
}

#[test]
fn price_is_last_record() {
    let s = stock_info(info(&[10.5, 11.25, 9.0], "AAPL"));
    assert_eq!(f64::from_bits(s.ticker_price), 9.0);
    assert_eq!(s.ticker, "AAPL");
}

#[test]
fn price_of_no_records_is_zero() {
    let s = stock_info(info(&[], "AAPL"));
    assert_eq!(s.ticker_price, ZERO_PRICE);
    assert_eq!(f64::from_bits(s.ticker_price), 0.0);
}

#[test]
fn price_of_single_record() {
    let s = stock_info(info(&[150.25], "AAPL"));
    assert_eq!(f64::from_bits(s.ticker_price), 150.25);
}

#[test]
fn unmatched_body_asks_again_once() {
    let mut session = Session::new();
    assert!(reads_body(STATUS_OK));
    let first = session.on_reply(STATUS_OK, None);
    assert!(matches!(first, Step::Retry));
    assert!(first.asks_again());
    assert_eq!(no_match_message(), "The provided input did not match a ticker symbol.");
    let second = session.on_reply(STATUS_OK, None);
    assert!(matches!(second, Step::GiveUp));
    assert!(!second.asks_again());
    let third = session.on_reply(STATUS_OK, None);
    assert!(!third.asks_again());
}

#[test]
fn matched_body_after_retry_reports() {
    let mut session = Session::new();
    assert!(session.on_reply(STATUS_OK, None).asks_again());
    let step = session.on_reply(STATUS_OK, Some(info(&[3.5], "MSFT")));
    assert_eq!(price_of(&step), 3.5);
}

#[test]
fn unauthorized_asks_for_new_token() {
    let mut session = Session::new();
    assert!(!reads_body(STATUS_UNAUTHORIZED));
    let step = session.on_reply(STATUS_UNAUTHORIZED, None);
    assert!(matches!(step, Step::Reauthorize));
    assert!(!step.asks_again());
    assert!(!session.retried);
    assert_eq!(new_token_message(), "Need to grab a new token");
}

#[test]
fn unauthorized_ignores_body() {
    let mut session = Session::new();
    let step = session.on_reply(STATUS_UNAUTHORIZED, Some(info(&[1.0], "X")));
    assert!(matches!(step, Step::Reauthorize));
}

#[test]
fn other_status_aborts_with_code() {
    let mut session = Session::new();
    assert!(!reads_body(500));
    let step = session.on_reply(500, None);
    assert!(matches!(step, Step::Abort(500)));
    let diagnostic = unexpected_status_message(500);
    assert_eq!(diagnostic, "Uh oh! Something unexpected happened: 500");
    assert!(diagnostic.contains("500"));
}

#[test]
fn unexpected_status_numerals() {
    assert_eq!(unexpected_status_message(0), "Uh oh! Something unexpected happened: 0");
    assert_eq!(unexpected_status_message(7), "Uh oh! Something unexpected happened: 7");
    assert_eq!(unexpected_status_message(404), "Uh oh! Something unexpected happened: 404");
    assert_eq!(
        unexpected_status_message(u16::MAX),
        "Uh oh! Something unexpected happened: 65535"
    );
}

#[test]
fn reply_round_trip_prints_price() {
    let mut session = Session::new();
    let step = session.on_reply(STATUS_OK, Some(info(&[150.25], "AAPL")));
    match step {
        Step::Report(s) => {
            let price = format!("{}", f64::from_bits(s.ticker_price));
            assert_eq!(price_line(&s.ticker, &price), "Price for AAPL is 150.25");
        }
        other => panic!("expected a report, got {:?}", other),
    }
}

#[test]
fn prompt_text_is_fixed() {
    assert_eq!(prompt(), "Please input a ticker symbol to get the price of a stock.");
}
