use currencyapi::Currencyapi;
use currencyapi::construct_base_url;

#[test]
fn should_create_base_url_with_api_key() {
    let base_url = construct_base_url("123", None).unwrap();
    assert_eq!(base_url.query(), Some("apikey=123"));
    assert_eq!(base_url.path(), "/v3/");
}

#[test]
fn should_create_base_url_with_api_key_and_path() {
    let base_url = construct_base_url("123", Some("/test/path")).unwrap();
    assert_eq!(base_url.query(), Some("apikey=123"));
    assert_eq!(base_url.path(), "/v3/test/path");
    println!("{:?}", base_url);
}

#[test]
fn leading_slash_is_idempotent() {
    let with_slash = construct_base_url("123", Some("/test/path")).unwrap();
    let without_slash = construct_base_url("123", Some("test/path")).unwrap();
    assert_eq!(with_slash.path(), "/v3/test/path");
    assert_eq!(without_slash.path(), "/v3/test/path");
    assert_eq!(with_slash.query(), without_slash.query());
}

#[test]
fn every_leading_slash_is_stripped() {
    let base_url = construct_base_url("123", Some("///x")).unwrap();
    assert_eq!(base_url.path(), "/v3/x");
}

#[test]
fn empty_sub_path_keeps_the_base_path() {
    let base_url = construct_base_url("123", Some("")).unwrap();
    assert_eq!(base_url.path(), "/v3/");
    assert_eq!(base_url.query(), Some("apikey=123"));
}

#[test]
fn appended_pairs_keep_their_order_after_the_api_key() {
    let mut u = construct_base_url("k", None).unwrap();
    u.append_pair("b", "2");
    u.append_pair("a", "1");
    assert_eq!(u.query(), Some("apikey=k&b=2&a=1"));
}

#[test]
fn appended_pairs_are_form_urlencoded() {
    let mut u = construct_base_url("k", None).unwrap();
    u.append_pair("q", "a b&c");
    assert_eq!(u.query(), Some("apikey=k&q=a+b%26c"));
}

#[test]
fn round_trip_through_url_parsing() {
    let built = construct_base_url("k", Some("p")).unwrap();
    let rendered = built.url_string();
    let reparsed = url::Url::parse(rendered.as_str()).unwrap();
    assert_eq!(reparsed.path(), built.path());
    assert_eq!(reparsed.query(), built.query());
}

#[test]
fn status_request_url() {
    let api = Currencyapi::new("abc").unwrap();
    let u = api.status().unwrap();
    assert_eq!(u.url_string(), "https://api.currencyapi.com/v3/status?apikey=abc");
}

#[test]
fn currencies_request_url() {
    let api = Currencyapi::new("abc").unwrap();
    let u = api.currencies().unwrap();
    assert_eq!(u.url_string(), "https://api.currencyapi.com/v3/currencies?apikey=abc");
}

#[test]
fn latest_request_url() {
    let api = Currencyapi::new("abc").unwrap();
    let u = api.latest("USD", "EUR,GBP").unwrap();
    assert_eq!(
        u.url_string(),
        "https://api.currencyapi.com/v3/latest?apikey=abc&base_currency=USD&currencies=EUR%2CGBP"
    );
}

#[test]
fn historical_request_url() {
    let api = Currencyapi::new("abc").unwrap();
    let u = api.historical("USD", "2021-12-31", "EUR").unwrap();
    assert_eq!(
        u.url_string(),
        "https://api.currencyapi.com/v3/historical?apikey=abc&base_currency=USD&date=2021-12-31&currencies=EUR"
    );
}

#[test]
fn convert_request_url() {
    let api = Currencyapi::new("abc").unwrap();
    let u = api.convert("USD", "2021-12-31", 42, "EUR").unwrap();
    assert_eq!(
        u.url_string(),
        "https://api.currencyapi.com/v3/convert?apikey=abc&base_currency=USD&date=2021-12-31&value=42&currencies=EUR"
    );
}

#[test]
fn convert_request_url_negative_value() {
    let api = Currencyapi::new("abc").unwrap();
    let u = api.convert("USD", "2021-12-31", -7, "EUR").unwrap();
    assert_eq!(
        u.url_string(),
        "https://api.currencyapi.com/v3/convert?apikey=abc&base_currency=USD&date=2021-12-31&value=-7&currencies=EUR"
    );
}

#[test]
fn range_request_url() {
    let api = Currencyapi::new("abc").unwrap();
    let u = api.range("USD", "2021-12-01", "2021-12-31", "EUR", "day").unwrap();
    assert_eq!(
        u.url_string(),
        "https://api.currencyapi.com/v3/range?apikey=abc&base_currency=USD&datetime_start=2021-12-01&datetime_end=2021-12-31&accuracy=day&currencies=EUR"
    );
}
