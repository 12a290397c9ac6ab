use vstd::prelude::*;

use crate::config::{Config, HttpConfig};
use crate::error::Error;

verus! {

/// The successful result of a fetch: the extracted title and how many body
/// bytes were actually consumed.
#[derive(Debug, Clone, PartialEq, Eq)]
pub struct Document {
    pub title: String,
    pub bytes_read: usize,
}

#[verifier::external_type_specification]
#[verifier::external_body]
pub struct ExUrl(url::Url);

#[verifier::external_type_specification]
#[verifier::external_body]
pub struct ExClient(reqwest::blocking::Client);

#[verifier::external_type_specification]
#[verifier::external_body]
pub struct ExResponse(reqwest::blocking::Response);

/// Whether `url::Url::parse` accepts `s` as an absolute, schemed URL; the
/// verdict depends on the characters alone.
pub uninterp spec fn url_ok(s: Seq<char>) -> bool;

/// Relies on `url::Url::parse`: it returns `Ok` exactly when the input is a
/// well-formed absolute URL, and its verdict is a function of the input alone.
#[verifier::external_body]
fn parse_url(s: &str) -> (r: Result<url::Url, Error>)
    ensures
        r is Ok <==> url_ok(s@),
        r matches Err(e) ==> e == Error::UriParseError,
{
    match url::Url::parse(s) {
        Ok(u) => Ok(u),
        Err(_) => Err(Error::UriParseError),
    }
}

/// Relies on reqwest's blocking `ClientBuilder`: the client it builds decodes
/// gzip bodies transparently, applies the given timeout (in seconds) to each
/// request, and follows at most the given number of redirects before failing
/// the request.
#[verifier::external_body]
fn build_client(timeout_secs: u64, max_redirects: u64) -> (r: Result<
    reqwest::blocking::Client,
    Error,
>)
    ensures
        r matches Err(e) ==> e matches Error::ReqwestError(_),
{
    reqwest::blocking::Client::builder()
        .gzip(true)
        .timeout(std::time::Duration::from_secs(timeout_secs))
        .redirect(reqwest::redirect::Policy::limited(max_redirects as usize))
        .build()
        .map_err(|e| Error::ReqwestError(format!("{}", e)))
}

/// Relies on reqwest's blocking `Client`: issues a single GET for the URL
/// with the given User-Agent header. The client's own timeout and redirect
/// limits apply; every transport failure (DNS, TLS, connection refused,
/// timeout, redirect limit exceeded) comes back as the error.
#[verifier::external_body]
fn http_get(
    client: &reqwest::blocking::Client,
    url: &url::Url,
    user_agent: &str,
) -> (r: Result<reqwest::blocking::Response, Error>)
    ensures
        r matches Err(e) ==> e matches Error::ReqwestError(_),
{
    client
        .get(url.as_str())
        .header(reqwest::header::USER_AGENT, user_agent)
        .send()
        .map_err(|e| Error::ReqwestError(format!("{}", e)))
}

/// Relies on `reqwest::blocking::Response::content_length`: the body size the
/// response declares, if it declares one; nothing is promised of its value.
pub assume_specification[ reqwest::blocking::Response::content_length ](
    resp: &reqwest::blocking::Response,
) -> Option<u64>;

/// Relies on `std::io::Read::read` through `reqwest::blocking::Response`:
/// reads at most `want` bytes of the body into a fresh buffer; an empty
/// buffer means the body is exhausted.
#[verifier::external_body]
fn read_chunk(resp: &mut reqwest::blocking::Response, want: usize) -> (r: Result<Vec<u8>, Error>)
    ensures
        r matches Ok(v) ==> v@.len() <= want,
        r matches Err(e) ==> e matches Error::IoError(_),
{
    let mut buf = vec![0u8; want];
    match std::io::Read::read(resp, &mut buf) {
        Ok(n) => {
            buf.truncate(n);
            Ok(buf)
        },
        Err(e) => Err(Error::IoError(format!("{}", e))),
    }
}

/// What `String::from_utf8_lossy` decodes the bytes to; the text depends on
/// the bytes alone.
pub uninterp spec fn utf8_lossy_of(b: Seq<u8>) -> Seq<char>;

/// Relies on `String::from_utf8_lossy`: a best-effort decode of the bytes as
/// UTF-8 text, a function of the bytes alone.
#[verifier::external_body]
fn decode_utf8_lossy(b: &Vec<u8>) -> (r: String)
    ensures
        r@ == utf8_lossy_of(b@),
{
    String::from_utf8_lossy(b).into_owned()
}

/// The verdict of the declared-length pre-check: a declared length at or
/// above the cap is rejected outright; one strictly below it passes, and a
/// missing declaration defers to the streaming cap.
pub open spec fn content_length_verdict(declared: Option<u64>, max_content_length: u64) -> Result<
    u64,
    Error,
> {
    match declared {
        Some(length) => if length < max_content_length {
            Ok(length)
        } else {
            Err(Error::ContentTooBigError(length))
        },
        None => Ok(0),
    }
}

/// Apply the declared-length pre-check before any body byte is read.
pub fn check_content_length(declared: Option<u64>, max_content_length: u64) -> (r: Result<
    u64,
    Error,
>)
    ensures
        r == content_length_verdict(declared, max_content_length),
{
    match declared {
        Some(length) => {
            if length < max_content_length {
                Ok(length)
            } else {
                Err(Error::ContentTooBigError(length))
            }
        },
        None => Ok(0),
    }
}

/// Every declared content length at or above the cap is rejected as too
/// large, and carries that declared length; no body byte needs to be read
/// for the verdict.
pub proof fn lemma_declared_length_at_cap_rejected(length: u64, max_content_length: u64)
    requires
        length >= max_content_length,
    ensures
        content_length_verdict(Some(length), max_content_length) == Result::<u64, Error>::Err(
            Error::ContentTooBigError(length),
        ),
{
}

/// A declared content length strictly below the cap passes the pre-check,
/// and a missing declaration is never rejected by it.
pub proof fn lemma_declared_length_below_cap_passes(declared: Option<u64>, max_content_length: u64)
    requires
        declared matches Some(length) ==> length < max_content_length,
    ensures
        content_length_verdict(declared, max_content_length) is Ok,
{
}

/// How many body bytes are asked of the transport at once.
const READ_CHUNK_SIZE: usize = 8192;

/// Stream-read the response body, never past `cap` bytes in total, whatever
/// the server sends or declares. Reading stops exactly at the cap; bytes
/// beyond it are never asked for, and truncation at the cap is no error.
fn read_body_bounded(resp: &mut reqwest::blocking::Response, cap: usize) -> (r: Result<
    Vec<u8>,
    Error,
>)
    ensures
        r matches Ok(b) ==> b@.len() <= cap,
        r matches Err(e) ==> e matches Error::IoError(_),
{
    let mut buffer: Vec<u8> = Vec::new();
    loop
        invariant
            buffer@.len() <= cap,
        decreases cap - buffer@.len(),
    {
        if buffer.len() >= cap {
            return Ok(buffer);
        }
        let remaining = cap - buffer.len();
        let want = if remaining < READ_CHUNK_SIZE {
            remaining
        } else {
            READ_CHUNK_SIZE
        };
        match read_chunk(resp, want) {
            Ok(chunk) => {
                if chunk.len() == 0 {
                    return Ok(buffer);
                }
                let mut chunk = chunk;
                buffer.append(&mut chunk);
            },
            Err(e) => {
                return Err(e);
            },
        }
    }
}

/// Fetch `url` with the shared client and extract the page title, under the
/// configured bounds: a declared content length at or above the cap is
/// rejected before any body byte is read, never more than the cap is read
/// from the body, and a returned document always carries a non-empty title
/// extracted from some body text read within the cap.
pub fn get_title(
    client: &reqwest::blocking::Client,
    url: &url::Url,
    config: &Config,
) -> (r: Result<Option<Document>, Error>)
    requires
        config.http.max_content_length <= usize::MAX as u64,
    ensures
        r matches Ok(d) ==> d matches Some(document) && document.title@.len() > 0
            && document.bytes_read <= config.http.max_content_length,
        r matches Ok(Some(document)) ==> (exists|body: Seq<u8>|
            #![auto]
            body.len() == document.bytes_read && body.len()
                <= config.http.max_content_length
                && crate::url_handler::html_title::spec_title_of(utf8_lossy_of(body)) == Some(
                document.title@,
            )),
        r matches Err(e) ==> (e matches Error::ReqwestError(_) || e matches Error::ContentTooBigError(
            _,
        ) || e == Error::NoValidTitleError || e matches Error::IoError(_)),
        r matches Err(Error::ContentTooBigError(length)) ==> length
            >= config.http.max_content_length,
{
    let mut response = match http_get(client, url, config.http.user_agent.as_str()) {
        Ok(response) => response,
        Err(e) => {
            return Err(e);
        },
    };

    let _content_length = match check_content_length(
        response.content_length(),
        config.http.max_content_length,
    ) {
        Ok(length) => length,
        Err(e) => {
            return Err(e);
        },
    };

    let buffer = match read_body_bounded(&mut response, config.http.max_content_length as usize) {
        Ok(buffer) => buffer,
        Err(e) => {
            return Err(e);
        },
    };
    let num_read = buffer.len();

    let text = decode_utf8_lossy(&buffer);
    let title = match crate::url_handler::html_title::extract_title(text.as_str()) {
        Ok(title) => title,
        Err(e) => {
            return Err(e);
        },
    };

    proof {
        assert(buffer@.len() <= config.http.max_content_length);
    }
    Ok(Some(Document { title, bytes_read: num_read }))
}

/// Parse the caller-supplied URL and run the whole pipeline on it: the
/// inbound operation of the service. An input that is no absolute URL fails
/// with `UriParseError` before anything is fetched.
pub fn fetch_title(client: &reqwest::blocking::Client, url: &str, config: &Config) -> (r: Result<
    Document,
    Error,
>)
    requires
        config.http.max_content_length <= usize::MAX as u64,
    ensures
        r == Result::<Document, Error>::Err(Error::UriParseError) <==> !url_ok(url@),
        r matches Ok(document) ==> url_ok(url@) && document.title@.len() > 0
            && document.bytes_read <= config.http.max_content_length,
        r matches Err(Error::ContentTooBigError(length)) ==> length
            >= config.http.max_content_length,
        r matches Ok(document) ==> (exists|body: Seq<u8>|
            #![auto]
            body.len() == document.bytes_read && body.len()
                <= config.http.max_content_length
                && crate::url_handler::html_title::spec_title_of(utf8_lossy_of(body)) == Some(
                document.title@,
            )),
        r matches Err(e) ==> (e == Error::UriParseError || e matches Error::ReqwestError(_)
            || e matches Error::ContentTooBigError(_) || e == Error::NoValidTitleError
            || e matches Error::IoError(_)),
{
    let parsed = match parse_url(url) {
        Ok(parsed) => parsed,
        Err(e) => {
            return Err(e);
        },
    };

    match get_title(client, &parsed, config) {
        Ok(Some(document)) => Ok(document),
        Ok(None) => Err(Error::NoValidTitleError),
        Err(e) => Err(e),
    }
}

/// Fetching an unchanged resource twice yields the same title: any two
/// successful documents whose consumed bodies carried the same bytes have
/// equal titles, however the server chunked them.
pub proof fn lemma_fetch_title_idempotent(body: Seq<u8>, first: Seq<char>, second: Seq<char>)
    requires
        crate::url_handler::html_title::spec_title_of(utf8_lossy_of(body)) == Some(first),
        crate::url_handler::html_title::spec_title_of(utf8_lossy_of(body)) == Some(second),
    ensures
        first == second,
{
}

/// Build the shared HTTP client for the given configuration: gzip decoding
/// on, the configured timeout, and at most the configured number of
/// redirects.
pub fn new_client(http: &HttpConfig) -> (r: Result<reqwest::blocking::Client, Error>)
    ensures
        r matches Err(e) ==> e matches Error::ReqwestError(_),
{
    build_client(http.timeout, http.max_redirects)
}

} // verus!
