use tiny_url::long_url::{compose_short_url, LongUrl};
use tiny_url::status::Error;

#[test]
fn long_url_is_kept_in_canonical_form() {
    let url = LongUrl::parse("HTTP://Example.COM").unwrap();
    assert_eq!(url.as_str(), "http://example.com/");
    assert_eq!(url.into_string(), "http://example.com/");
}

#[test]
fn canonical_long_url_is_kept_as_it_is() {
    let url = LongUrl::parse("https://example.com/a").unwrap();
    assert_eq!(url.as_str(), "https://example.com/a");
}

#[test]
fn long_url_keeps_path_query_and_fragment() {
    let text = "https://www.example.com:8443/maths/index.htm?x=1&y=2#top";
    assert_eq!(LongUrl::parse(text).unwrap().as_str(), text);
}

#[test]
fn long_url_drops_default_port_and_dot_segments() {
    let url = LongUrl::parse("https://example.com:443/a/./b/../c").unwrap();
    assert_eq!(url.as_str(), "https://example.com/a/c");
}

#[test]
fn text_that_is_no_url_is_invalid() {
    assert_eq!(LongUrl::parse("not a url").unwrap_err(), Error::InvalidUrl);
    assert_eq!(LongUrl::parse("").unwrap_err(), Error::InvalidUrl);
    assert_eq!(LongUrl::parse("example.com/a").unwrap_err(), Error::InvalidUrl);
    assert_eq!(LongUrl::parse("//example.com/a").unwrap_err(), Error::InvalidUrl);
    assert_eq!(LongUrl::parse("https://").unwrap_err(), Error::InvalidUrl);
    assert_eq!(LongUrl::parse("https://example.com:port/").unwrap_err(), Error::InvalidUrl);
}

#[test]
fn url_without_host_is_invalid() {
    assert_eq!(LongUrl::parse("mailto:someone@example.com").unwrap_err(), Error::InvalidUrl);
    assert_eq!(LongUrl::parse("data:text/plain,Stuff").unwrap_err(), Error::InvalidUrl);
    assert_eq!(LongUrl::parse("unix:/run/foo.socket").unwrap_err(), Error::InvalidUrl);
}

#[test]
fn url_with_host_in_any_scheme_is_valid() {
    assert_eq!(LongUrl::parse("ftp://rms@example.com").unwrap().as_str(), "ftp://rms@example.com/");
    assert_eq!(LongUrl::parse("custom://host/path").unwrap().as_str(), "custom://host/path");
    assert_eq!(LongUrl::parse("http://192.168.1.135:8080/x").unwrap().as_str(), "http://192.168.1.135:8080/x");
}

#[test]
fn short_url_is_scheme_host_slash_code() {
    assert_eq!(
        compose_short_url("localhost:8080", "Ab3dE"),
        Ok("http://localhost:8080/Ab3dE".to_string())
    );
    assert_eq!(
        compose_short_url("127.0.0.1:8080", "00000"),
        Ok("http://127.0.0.1:8080/00000".to_string())
    );
    assert_eq!(compose_short_url("example.org", "zzzzz"), Ok("http://example.org/zzzzz".to_string()));
}

#[test]
fn short_url_is_in_canonical_form() {
    assert_eq!(compose_short_url("EXAMPLE.org:80", "Ab3dE"), Ok("http://example.org/Ab3dE".to_string()));
}

#[test]
fn short_url_under_malformed_host_address_fails() {
    assert_eq!(compose_short_url("localhost:not-a-port", "Ab3dE"), Err(Error::ComposeFailure));
    assert_eq!(compose_short_url("exa mple.org", "Ab3dE"), Err(Error::ComposeFailure));
    assert_eq!(compose_short_url("localhost:99999", "Ab3dE"), Err(Error::ComposeFailure));
}

#[test]
fn short_url_under_empty_host_address_reads_code_as_host() {
    assert_eq!(compose_short_url("", "Ab3dE"), Ok("http://ab3de/".to_string()));
}
