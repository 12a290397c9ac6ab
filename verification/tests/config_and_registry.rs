use title_fetcher::config::{
    default_max_content_length, default_max_redirects, default_timeout, default_user_agent,
    Config, HttpConfig,
};
use title_fetcher::url_handler::{html_title, init_registry, UrlHandlerRegistry};

#[test]
fn default_values_are_the_documented_ones() {
    assert_eq!(default_max_content_length(), 4 * 1024 * 1024);
    assert_eq!(default_max_redirects(), 5);
    assert_eq!(default_timeout(), 10);
    assert_eq!(
        default_user_agent(),
        "Mozilla/5.0 (X11; Linux x86_64; rv:71.0) Gecko/20100101 Firefox/71.0"
    );
}

#[test]
fn default_config_uses_the_default_http_config() {
    let config = Config::default();
    let http = HttpConfig::default();
    assert_eq!(config.http.max_content_length, http.max_content_length);
    assert_eq!(config.http.user_agent, http.user_agent);
    assert_eq!(config.http.max_redirects, http.max_redirects);
    assert_eq!(config.http.timeout, http.timeout);
    assert_eq!(http.max_content_length, 4 * 1024 * 1024);
    assert_eq!(http.max_redirects, 5);
    assert_eq!(http.timeout, 10);
}

#[test]
fn initialized_registry_has_a_single_handler() {
    let registry = init_registry().expect("initialization should succeed");
    assert_eq!(registry.url_handlers.len(), 1);
}

#[test]
fn initializing_twice_duplicates_no_entry() {
    let first = init_registry().expect("initialization should succeed");
    let second = init_registry().expect("initialization should succeed");
    assert_eq!(first.url_handlers.len(), 1);
    assert_eq!(second.url_handlers.len(), 1);
}

#[test]
fn registration_appends_and_loses_nothing() {
    let mut registry = UrlHandlerRegistry::new();
    assert_eq!(registry.url_handlers.len(), 0);
    html_title::register(&mut registry).expect("registration should succeed");
    assert_eq!(registry.url_handlers.len(), 1);
    html_title::register(&mut registry).expect("registration should succeed");
    assert_eq!(registry.url_handlers.len(), 2);
}
