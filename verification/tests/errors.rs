use title_fetcher::error::Error;

#[test]
fn content_too_big_message_carries_the_declared_length() {
    let err = Error::ContentTooBigError(4194304);
    assert_eq!(err.message(), "Content-Length exceeds limit: 4194304");
}

#[test]
fn content_too_big_message_renders_zero() {
    let err = Error::ContentTooBigError(0);
    assert_eq!(err.message(), "Content-Length exceeds limit: 0");
}

#[test]
fn content_too_big_message_renders_the_largest_length() {
    let err = Error::ContentTooBigError(u64::MAX);
    assert_eq!(
        err.message(),
        "Content-Length exceeds limit: 18446744073709551615"
    );
}

#[test]
fn each_error_kind_has_its_stable_message() {
    assert_eq!(
        Error::ReqwestError("cause".to_string()).message(),
        "http client error"
    );
    assert_eq!(Error::UriParseError.message(), "URL parse error");
    assert_eq!(Error::NoValidTitleError.message(), "No valid title found");
    assert_eq!(
        Error::ConfigError("cause".to_string()).message(),
        "failed to parse config"
    );
    assert_eq!(
        Error::ContentLengthMissingError.message(),
        "Content-Length is not returned"
    );
    assert_eq!(Error::IoError("cause".to_string()).message(), "I/O error");
}
