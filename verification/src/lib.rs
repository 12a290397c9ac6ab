//! A bounded fetch-and-extract pipeline: fetch a resource over HTTP under
//! strict resource bounds and extract the page's `<title>` from the body.

pub mod api_v1;
pub mod config;
pub mod error;
pub mod url_handler;

pub use config::Config;
pub use error::Error;
