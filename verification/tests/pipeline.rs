use title_fetcher::api_v1::{check_content_length, fetch_title, get_title, new_client};
use title_fetcher::error::Error;
use title_fetcher::Config;

#[test]
fn declared_length_at_cap_is_rejected() {
    let cap: u64 = 4 * 1024 * 1024;
    let r = check_content_length(Some(cap), cap);
    assert_eq!(r, Err(Error::ContentTooBigError(cap)));
}

#[test]
fn declared_length_above_cap_is_rejected_with_that_length() {
    let r = check_content_length(Some(10_000_000), 4 * 1024 * 1024);
    assert_eq!(r, Err(Error::ContentTooBigError(10_000_000)));
}

#[test]
fn declared_length_below_cap_passes() {
    let cap: u64 = 4 * 1024 * 1024;
    let r = check_content_length(Some(cap - 1), cap);
    assert_eq!(r, Ok(cap - 1));
}

#[test]
fn missing_declared_length_defers_to_streaming_cap() {
    let r = check_content_length(None, 4 * 1024 * 1024);
    assert_eq!(r, Ok(0));
}

#[test]
fn invalid_url_fails_before_any_fetch() {
    let config = Config::default();
    let client = new_client(&config.http).expect("client should build");
    let r = fetch_title(&client, "not a url", &config);
    assert!(matches!(r, Err(Error::UriParseError)));
}

#[test]
fn get_title_reports_transport_failures_as_reqwest_error() {
    let config = Config::default();
    let client = new_client(&config.http).expect("client should build");
    let url = url::Url::parse("http://127.0.0.1:9/").expect("a well-formed URL");
    let r = get_title(&client, &url, &config);
    assert!(matches!(r, Err(Error::ReqwestError(_))));
}

#[test]
fn refused_connection_surfaces_as_reqwest_error() {
    let config = Config::default();
    let client = new_client(&config.http).expect("client should build");
    let r = fetch_title(&client, "http://127.0.0.1:9/", &config);
    assert!(matches!(r, Err(Error::ReqwestError(_))));
}
