use vstd::prelude::*;
use vstd::string::StringExecFns;

use crate::api_v1::new_client;
use crate::config::default_http_config;
use crate::error::Error;
use crate::url_handler::{UrlHandler, UrlHandlerRegistry};

verus! {

/// The text fragments of the text-node descendants of the first element
/// matching `tag` in `body` parsed as an HTML document, in document order;
/// `None` when no element matches. The result depends on the two texts
/// alone.
pub uninterp spec fn tag_fragments_of(body: Seq<char>, tag: Seq<char>) -> Option<Seq<Seq<char>>>;

/// Relies on scraper's `Html::parse_document`, `Selector::parse` and
/// `ElementRef::text`: `body` is parsed leniently as an HTML document (a
/// malformed document never raises an error), the first element matching
/// `tag` in document order is selected, and the texts of its text-node
/// descendants are handed back in order. Scraper's result depends on its
/// inputs alone.
#[verifier::external_body]
fn select_tag_fragments(body: &str, tag: &str) -> (r: Option<Vec<String>>)
    ensures
        r matches Some(v) ==> tag_fragments_of(body@, tag@) == Some(v.deep_view()),
        r is None <==> tag_fragments_of(body@, tag@) is None,
{
    let document = scraper::Html::parse_document(body);
    let selector = match scraper::Selector::parse(tag) {
        Ok(s) => s,
        Err(_) => return None,
    };
    let element = document.select(&selector).next()?;
    Some(element.text().map(|t| t.to_string()).collect())
}

/// The fragments joined with a single space between adjacent ones, and
/// nothing else added.
pub open spec fn join_with_space(frags: Seq<Seq<char>>) -> Seq<char>
    decreases frags.len(),
{
    if frags.len() == 0 {
        Seq::empty()
    } else if frags.len() == 1 {
        frags[0]
    } else {
        join_with_space(frags.drop_last()) + seq![' '] + frags.last()
    }
}

/// Join the fragments with a single space between adjacent ones.
fn join_fragments(frags: &Vec<String>) -> (r: String)
    ensures
        r@ == join_with_space(frags.deep_view()),
{
    let mut out = String::new();
    let mut i: usize = 0;
    while i < frags.len()
        invariant
            i <= frags.len(),
            out@ == join_with_space(frags.deep_view().take(i as int)),
        decreases frags.len() - i,
    {
        if i > 0 {
            out.append(" ");
        }
        out.append(frags[i].as_str());
        i = i + 1;
        proof {
            reveal_strlit(" ");
            assert(" "@ =~= seq![' ']);
            let s = frags.deep_view();
            assert(s.take(i as int).drop_last() =~= s.take(i - 1));
            assert(s.take(i as int).last() == s[i - 1]);
        }
    }
    proof {
        assert(frags.deep_view().take(frags@.len() as int) =~= frags.deep_view());
    }
    out
}

/// The title `body` yields: the space-joined text of the first `title`
/// element, provided that text is not empty; `None` otherwise.
pub open spec fn spec_title_of(body: Seq<char>) -> Option<Seq<char>> {
    match tag_fragments_of(body, "title"@) {
        Some(frags) => {
            let joined = join_with_space(frags);
            if joined.len() > 0 {
                Some(joined)
            } else {
                None
            }
        },
        None => None,
    }
}

/// Parse `body` leniently as HTML and extract the first `title` element's
/// space-joined text. An absent `title` element, and one whose joined text
/// is empty, both fail: a returned title is never empty.
pub fn extract_title(body: &str) -> (r: Result<String, Error>)
    ensures
        r is Ok <==> spec_title_of(body@) is Some,
        r matches Ok(t) ==> spec_title_of(body@) == Some(t@) && t@.len() > 0,
        r matches Err(e) ==> e == Error::NoValidTitleError && spec_title_of(body@) is None,
{
    match select_tag_fragments(body, "title") {
        Some(frags) => {
            let title = join_fragments(&frags);
            if title.as_str().is_empty() {
                Err(Error::NoValidTitleError)
            } else {
                Ok(title)
            }
        },
        None => Err(Error::NoValidTitleError),
    }
}

/// Extraction is a function of the body text alone: two reads of an
/// unchanged resource yield the same title verdict, and so the same title,
/// both times.
pub proof fn lemma_title_extraction_deterministic(first: Seq<char>, second: Seq<char>)
    requires
        first == second,
    ensures
        spec_title_of(first) == spec_title_of(second),
{
}

/// A title the extractor stands behind is never empty, whatever the body.
pub proof fn lemma_extracted_title_nonempty(body: Seq<char>)
    ensures
        spec_title_of(body) matches Some(title) ==> title.len() > 0,
{
}

/// `HtmlTitleUrlHandler` is a basic handler that initiates a HTTP GET
/// request and attempts to extract a `<title>` element from the response
/// body.
pub struct HtmlTitleUrlHandler {
    client: reqwest::blocking::Client,
}

impl HtmlTitleUrlHandler {
    /// Returns a HTML title handler, with a client of its own built from the
    /// default configuration; fails only if that client cannot be built.
    pub fn new() -> (r: Result<Self, Error>)
        ensures
            r matches Err(e) ==> e matches Error::ReqwestError(_),
    {
        let config = default_http_config();
        match new_client(&config) {
            Ok(client) => Ok(HtmlTitleUrlHandler { client }),
            Err(e) => Err(e),
        }
    }
}

impl UrlHandler for HtmlTitleUrlHandler {
}

/// Register the HTML title handler with the registry. On success exactly one
/// handler is appended, and every earlier registration is kept unchanged and
/// in order; on failure the registry is left as it was.
pub fn register(registry: &mut UrlHandlerRegistry) -> (r: Result<(), Error>)
    ensures
        r is Ok ==> final(registry).url_handlers@.len() == old(registry).url_handlers@.len() + 1,
        r is Ok ==> final(registry).url_handlers@.drop_last() == old(registry).url_handlers@,
        r matches Err(e) ==> *final(registry) == *old(registry) && e matches Error::ReqwestError(_),
{
    match HtmlTitleUrlHandler::new() {
        Ok(url_handler) => {
            registry.register(url_handler);
            proof {
                assert(registry.url_handlers@.drop_last() =~= old(registry).url_handlers@);
            }
            Ok(())
        },
        Err(e) => Err(e),
    }
}

} // verus!
