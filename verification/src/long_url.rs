//! Long URLs and the short URLs that stand for them, as the `url` crate reads
//! them.

use crate::status::Error;
use vstd::prelude::*;
use vstd::string::*;

verus! {

/// The error of `url::Url::parse`, carried through and never looked into.
#[verifier::external_type_specification]
#[verifier::external_body]
pub struct ExParseError(url::ParseError);

/// What the store reads of a parsed URL.
struct UrlRecord {
    /// The URL written out again in its canonical form.
    serialization: String,
    /// Whether the URL names a host.
    has_host: bool,
}

/// What `url::Url::parse` makes of `input`: nothing where it refuses the text,
/// else the serialization of the URL and whether it has a host.
pub uninterp spec fn url_record(input: Seq<char>) -> Option<(Seq<char>, bool)>;

/// Calls `url::Url::parse` and, on the URL it returns, `has_host` and the
/// conversion into its serialization. Claimed here: the outcome is the one
/// that `url_record` names for this input, which says only that the same text
/// is always read in the same way.
#[verifier::external_body]
fn parse_url(input: &str) -> (parsed: Result<UrlRecord, url::ParseError>)
    ensures
        match parsed {
            Ok(record) => url_record(input@) == Some((record.serialization@, record.has_host)),
            Err(_) => url_record(input@) is None,
        },
{
    match url::Url::parse(input) {
        Ok(parsed) => {
            let has_host = parsed.has_host();
            Ok(UrlRecord { serialization: String::from(parsed), has_host })
        },
        Err(error) => Err(error),
    }
}

/// The canonical form of the long URL written as `input`, where `input` is an
/// absolute URL that names a host.
pub open spec fn canonical_long_url(input: Seq<char>) -> Option<Seq<char>> {
    match url_record(input) {
        Some((serialization, has_host)) => if has_host {
            Some(serialization)
        } else {
            None
        },
        None => None,
    }
}

/// The text that a short URL is read from: the scheme `http`, the host
/// address, a slash and the code.
pub open spec fn short_url_text(host: Seq<char>, code: Seq<char>) -> Seq<char> {
    seq!['h', 't', 't', 'p', ':', '/', '/'] + host + seq!['/'] + code
}

/// The short URL for `code` under `host`, where that text is a URL.
pub open spec fn composed_short_url(host: Seq<char>, code: Seq<char>) -> Option<Seq<char>> {
    match url_record(short_url_text(host, code)) {
        Some((serialization, _)) => Some(serialization),
        None => None,
    }
}

/// A long URL that was found valid: an absolute URL with a host, held in its
/// canonical form.
#[derive(Debug)]
pub struct LongUrl {
    text: String,
}

impl View for LongUrl {
    type V = Seq<char>;

    closed spec fn view(&self) -> Seq<char> {
        self.text@
    }
}

impl LongUrl {
    /// Reads a long URL. It is refused unless it is an absolute URL with a
    /// host.
    pub fn parse(input: &str) -> (parsed: Result<LongUrl, Error>)
        ensures
            match parsed {
                Ok(long_url) => canonical_long_url(input@) == Some(long_url@),
                Err(error) => error == Error::InvalidUrl && canonical_long_url(input@) is None,
            },
    {
        match parse_url(input) {
            Ok(record) => {
                if record.has_host {
                    Ok(LongUrl { text: record.serialization })
                } else {
                    Err(Error::InvalidUrl)
                }
            },
            Err(_) => Err(Error::InvalidUrl),
        }
    }

    /// The canonical form of this URL.
    pub fn as_str(&self) -> (text: &str)
        ensures
            text@ == self@,
    {
        self.text.as_str()
    }

    /// The canonical form of this URL, as a text of its own.
    pub fn into_string(self) -> (text: String)
        ensures
            text@ == self@,
    {
        self.text
    }
}

/// Composes the short URL for `code` under `host`. It fails where the host
/// address is such that the text is no URL.
pub fn compose_short_url(host: &str, code: &str) -> (composed: Result<String, Error>)
    ensures
        match composed {
            Ok(short_url) => composed_short_url(host@, code@) == Some(short_url@),
            Err(error) => error == Error::ComposeFailure && composed_short_url(host@, code@)
                is None,
        },
{
    let mut text = String::from_str("http://");
    text.append(host);
    text.append("/");
    text.append(code);
    proof {
        reveal_strlit("http://");
        reveal_strlit("/");
        assert(text@ =~= short_url_text(host@, code@));
    }
    match parse_url(text.as_str()) {
        Ok(record) => Ok(record.serialization),
        Err(_) => Err(Error::ComposeFailure),
    }
}

} // verus!
