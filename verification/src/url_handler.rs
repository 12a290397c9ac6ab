use vstd::prelude::*;

use crate::error::Error;

pub mod html_title;

verus! {

/// A unit of logic that attempts to derive structured metadata from a
/// fetched resource. The service currently knows a single implementor, the
/// HTML title handler; the trait is the extension point for further ones.
pub trait UrlHandler {
}

/// An append-only collection of the handlers registered with the service.
/// It is populated during process initialization and only read afterwards.
pub struct UrlHandlerRegistry {
    pub url_handlers: Vec<html_title::HtmlTitleUrlHandler>,
}

impl UrlHandlerRegistry {
    /// An empty registry.
    pub fn new() -> (r: UrlHandlerRegistry)
        ensures
            r.url_handlers@.len() == 0,
    {
        UrlHandlerRegistry { url_handlers: Vec::new() }
    }

    /// Append a handler. Every earlier registration is kept, in order, and
    /// the new handler comes last.
    pub fn register(&mut self, url_handler: html_title::HtmlTitleUrlHandler)
        ensures
            final(self).url_handlers@ == old(self).url_handlers@.push(url_handler),
    {
        self.url_handlers.push(url_handler);
    }
}

/// Build the registry the service starts with: the HTML title handler is its
/// single member.
pub fn init_registry() -> (r: Result<UrlHandlerRegistry, Error>)
    ensures
        r matches Ok(registry) ==> registry.url_handlers@.len() == 1,
        r matches Err(e) ==> e matches Error::ReqwestError(_),
{
    let mut registry = UrlHandlerRegistry::new();

    match html_title::register(&mut registry) {
        Ok(()) => Ok(registry),
        Err(e) => Err(e),
    }
}

} // verus!
