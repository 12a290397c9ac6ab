use title_fetcher::error::Error;
use title_fetcher::url_handler::html_title::extract_title;

#[test]
fn title_extracted_from_simple_document() {
    let body = "<html><head><title>Hello World</title></head></html>";
    let r = extract_title(body);
    assert_eq!(r, Ok("Hello World".to_string()));
}

#[test]
fn missing_title_yields_no_valid_title() {
    let body = "<html><body>no title here</body></html>";
    let r = extract_title(body);
    assert!(matches!(r, Err(Error::NoValidTitleError)));
}

#[test]
fn empty_title_yields_no_valid_title() {
    let body = "<html><head><title></title></head></html>";
    let r = extract_title(body);
    assert!(matches!(r, Err(Error::NoValidTitleError)));
}

#[test]
fn first_title_wins() {
    let body = "<html><head><title>First</title><title>Second</title></head></html>";
    let r = extract_title(body);
    assert_eq!(r, Ok("First".to_string()));
}

#[test]
fn malformed_document_is_parsed_leniently() {
    let body = "<title>Partial</title><unclosed";
    let r = extract_title(body);
    assert_eq!(r, Ok("Partial".to_string()));
}

#[test]
fn extraction_is_idempotent() {
    let body = "<html><head><title>Same Again</title></head></html>";
    let first = extract_title(body);
    let second = extract_title(body);
    assert_eq!(first, second);
    assert_eq!(first, Ok("Same Again".to_string()));
}
