use vstd::prelude::*;

verus! {

/// The default setting for the `max_content_length` config option, 4 MiB.
pub const DEFAULT_MAX_CONTENT_LENGTH: u64 = 4 * 1024 * 1024;

/// The default value for the maximum number of redirects.
pub const DEFAULT_MAX_REDIRECTS: u64 = 5;

/// The default setting for the `timeout` config option, in seconds.
pub const DEFAULT_TIMEOUT: u64 = 10;

/// The default User-Agent header value, as a sequence of characters.
pub open spec fn spec_default_user_agent() -> Seq<char> {
    "Mozilla/5.0 (X11; Linux x86_64; rv:71.0) Gecko/20100101 Firefox/71.0"@
}

/// HTTP-side configuration, shared read-only by every fetch.
#[derive(Debug, Clone)]
pub struct HttpConfig {
    /// The number of bytes to process in a request before closing the
    /// connection.
    pub max_content_length: u64,

    /// The User-Agent header sent with each request.
    pub user_agent: String,

    /// The maximum number of redirects in a single request.
    pub max_redirects: u64,

    /// The time in seconds before a request is to be considered timed out.
    pub timeout: u64,
}

/// The default setting for the `max_content_length` config option.
pub fn default_max_content_length() -> (r: u64)
    ensures
        r == DEFAULT_MAX_CONTENT_LENGTH,
{
    DEFAULT_MAX_CONTENT_LENGTH
}

/// The default User-Agent header value.
pub fn default_user_agent() -> (r: String)
    ensures
        r@ == spec_default_user_agent(),
{
    "Mozilla/5.0 (X11; Linux x86_64; rv:71.0) Gecko/20100101 Firefox/71.0".to_owned()
}

/// The default setting for the `timeout` config option, in seconds.
pub fn default_timeout() -> (r: u64)
    ensures
        r == DEFAULT_TIMEOUT,
{
    DEFAULT_TIMEOUT
}

/// The default value for the maximum number of redirects.
pub fn default_max_redirects() -> (r: u64)
    ensures
        r == DEFAULT_MAX_REDIRECTS,
{
    DEFAULT_MAX_REDIRECTS
}

/// Holds exactly when every field of `c` has its default value.
pub open spec fn is_default_http_config(c: HttpConfig) -> bool {
    &&& c.max_content_length == DEFAULT_MAX_CONTENT_LENGTH
    &&& c.user_agent@ == spec_default_user_agent()
    &&& c.max_redirects == DEFAULT_MAX_REDIRECTS
    &&& c.timeout == DEFAULT_TIMEOUT
}

impl Default for HttpConfig {
    /// The configuration used when no config file overrides it.
    fn default() -> (r: Self)
        ensures
            is_default_http_config(r),
    {
        HttpConfig {
            max_content_length: DEFAULT_MAX_CONTENT_LENGTH,
            user_agent: default_user_agent(),
            max_redirects: DEFAULT_MAX_REDIRECTS,
            timeout: DEFAULT_TIMEOUT,
        }
    }
}

/// A HTTP-side configuration with the defaults filled in.
pub fn default_http_config() -> (r: HttpConfig)
    ensures
        is_default_http_config(r),
{
    HttpConfig::default()
}

/// The whole process configuration.
#[derive(Debug, Clone)]
pub struct Config {
    pub http: HttpConfig,
}

impl Default for Config {
    /// The configuration used when no config file is given.
    fn default() -> (r: Self)
        ensures
            is_default_http_config(r.http),
    {
        Config { http: HttpConfig::default() }
    }
}

} // verus!
