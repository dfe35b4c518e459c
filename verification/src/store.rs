//! The store of short links: which long URL has which short code.

use crate::code::{generate_suffix, is_short_code, short_code};
use crate::long_url::{canonical_long_url, compose_short_url, composed_short_url, LongUrl};
use crate::status::Error;
use vstd::hash_map::StringHashMap;
use vstd::prelude::*;
use vstd::string::*;

verus! {

/// The host address that the service answers on where none is configured.
pub const DEFAULT_HOST_ADDRESS: &'static str = "127.0.0.1:8080";

/// How many candidate codes are drawn for a new long URL before giving up.
pub const MAX_ATTEMPTS: usize = 16;

/// What the store keeps of its entries at all times: they are finitely many,
/// every code is a short code, and no two long URLs share a code.
pub open spec fn is_mapping(entries: Map<Seq<char>, Seq<char>>) -> bool {
    &&& entries.dom().finite()
    &&& forall|long_url: Seq<char>|
        entries.contains_key(long_url) ==> is_short_code(#[trigger] entries[long_url])
    &&& entries.is_injective()
}

/// The long URL that `code` stands for, if any.
pub open spec fn long_url_of(entries: Map<Seq<char>, Seq<char>>, code: Seq<char>) -> Option<
    Seq<char>,
> {
    if entries.contains_value(code) {
        Some(choose|long_url: Seq<char>| entries.contains_key(long_url) && entries[long_url] == code)
    } else {
        None
    }
}

/// A result as contracts speak of it: a text by its characters.
pub open spec fn result_view(result: Result<String, Error>) -> Result<Seq<char>, Error> {
    match result {
        Ok(text) => Ok(text@),
        Err(error) => Err(error),
    }
}

/// The short URL for `code` under `host`, or the failure to compose it.
pub open spec fn compose_result(host: Seq<char>, code: Seq<char>) -> Result<Seq<char>, Error> {
    match composed_short_url(host, code) {
        Some(short_url) => Ok(short_url),
        None => Err(Error::ComposeFailure),
    }
}

/// What shortening the valid long URL `long_url` does to `entries` when
/// `candidate` is the code at hand, and what it answers.
///
/// A long URL that has a code keeps it, and the candidate is not looked at.
/// A new long URL gets the candidate, unless that is no short code or belongs
/// to another long URL, or the short URL cannot be composed; then the entries
/// stay as they are.
pub open spec fn shorten_outcome(
    entries: Map<Seq<char>, Seq<char>>,
    host: Seq<char>,
    long_url: Seq<char>,
    candidate: Seq<char>,
) -> (Map<Seq<char>, Seq<char>>, Result<Seq<char>, Error>) {
    if entries.contains_key(long_url) {
        (entries, compose_result(host, entries[long_url]))
    } else if !is_short_code(candidate) || entries.contains_value(candidate) {
        (entries, Err(Error::CodeUnavailable))
    } else {
        match composed_short_url(host, candidate) {
            Some(short_url) => (entries.insert(long_url, candidate), Ok(short_url)),
            None => (entries, Err(Error::ComposeFailure)),
        }
    }
}

/// What creating a short link for the text `input` does to `entries` when
/// `candidate` is the code at hand, and what it answers. A text that is no
/// valid long URL is refused and changes nothing.
pub open spec fn create_outcome(
    entries: Map<Seq<char>, Seq<char>>,
    host: Seq<char>,
    input: Seq<char>,
    candidate: Seq<char>,
) -> (Map<Seq<char>, Seq<char>>, Result<Seq<char>, Error>) {
    match canonical_long_url(input) {
        Some(long_url) => shorten_outcome(entries, host, long_url, candidate),
        None => (entries, Err(Error::InvalidUrl)),
    }
}

/// The store of a URL-shortening service: the host address under which short
/// URLs are handed out, and for each long URL its short code.
///
/// The view is the map from long URLs, in canonical form, to their codes.
pub struct TinyUrlServer {
    host_address: String,
    long_to_tiny_map: StringHashMap<String>,
    tiny_to_long_map: StringHashMap<String>,
}

impl View for TinyUrlServer {
    type V = Map<Seq<char>, Seq<char>>;

    closed spec fn view(&self) -> Map<Seq<char>, Seq<char>> {
        self.long_to_tiny_map@.map_values(|code: String| code@)
    }
}

impl TinyUrlServer {
    /// The host address under which short URLs are handed out.
    pub closed spec fn host(&self) -> Seq<char> {
        self.host_address@
    }

    /// The invariant of the store: the index from codes to long URLs is the
    /// inverse of the entries, and only short codes are in it.
    pub closed spec fn wf(&self) -> bool {
        &&& self.long_to_tiny_map@.dom().finite()
        &&& forall|long_url: Seq<char>| #[trigger]
            self.long_to_tiny_map@.contains_key(long_url) ==> {
                let code = self.long_to_tiny_map@[long_url]@;
                &&& self.tiny_to_long_map@.contains_key(code)
                &&& self.tiny_to_long_map@[code]@ == long_url
            }
        &&& forall|code: Seq<char>| #[trigger]
            self.tiny_to_long_map@.contains_key(code) ==> {
                let long_url = self.tiny_to_long_map@[code]@;
                &&& is_short_code(code)
                &&& self.long_to_tiny_map@.contains_key(long_url)
                &&& self.long_to_tiny_map@[long_url]@ == code
            }
    }

    /// A store that meets its invariant holds a mapping: finitely many
    /// entries, short codes only, and no code twice.
    pub proof fn lemma_wf_is_mapping(&self)
        requires
            self.wf(),
        ensures
            is_mapping(self@),
    {
        assert(self@.dom() =~= self.long_to_tiny_map@.dom());
    }

    /// In a store that meets its invariant, a code is some entry's code
    /// exactly if the index knows it.
    proof fn lemma_index(&self, code: Seq<char>)
        requires
            self.wf(),
        ensures
            self@.contains_value(code) <==> self.tiny_to_long_map@.contains_key(code),
            self.tiny_to_long_map@.contains_key(code) ==> {
                let long_url = self.tiny_to_long_map@[code]@;
                &&& self@.contains_key(long_url)
                &&& self@[long_url] == code
                &&& long_url_of(self@, code) == Some(long_url)
            },
    {
        if self.tiny_to_long_map@.contains_key(code) {
            let long_url = self.tiny_to_long_map@[code]@;
            assert(self@.dom().contains(long_url) && self@[long_url] == code);
        }
    }

    /// An empty store that hands out short URLs under `host_address`.
    pub fn new(host_address: &str) -> (server: TinyUrlServer)
        ensures
            server.wf(),
            server@ == Map::<Seq<char>, Seq<char>>::empty(),
            server.host() == host_address@,
    {
        let server = TinyUrlServer {
            host_address: String::from_str(host_address),
            long_to_tiny_map: StringHashMap::new(),
            tiny_to_long_map: StringHashMap::new(),
        };
        server
    }

    /// The host address under which short URLs are handed out.
    pub fn host_address(&self) -> (host: &str)
        ensures
            host@ == self.host(),
    {
        self.host_address.as_str()
    }

    /// The number of long URLs that have a short code.
    pub fn len(&self) -> (count: usize)
        requires
            self.wf(),
        ensures
            count == self@.len(),
    {
        proof {
            assert(self@.dom() =~= self.long_to_tiny_map@.dom());
        }
        self.long_to_tiny_map.len()
    }

    /// The short code of `long_url`, if it has one.
    pub fn code_of(&self, long_url: &LongUrl) -> (code: Option<String>)
        ensures
            match code {
                Some(code) => self@.contains_key(long_url@) && self@[long_url@] == code@,
                None => !self@.contains_key(long_url@),
            },
    {
        match self.long_to_tiny_map.get(long_url.as_str()) {
            Some(code) => Some(code.clone()),
            None => None,
        }
    }

    /// The long URL that `short_code` stands for. It is the only one, since no
    /// two long URLs share a code.
    pub fn resolve(&self, short_code: &str) -> (resolved: Result<String, Error>)
        requires
            self.wf(),
        ensures
            match resolved {
                Ok(long_url) => self@.contains_key(long_url@) && self@[long_url@] == short_code@
                    && long_url_of(self@, short_code@) == Some(long_url@),
                Err(error) => error == Error::NotFound && !self@.contains_value(short_code@)
                    && long_url_of(self@, short_code@) is None,
            },
    {
        proof {
            self.lemma_index(short_code@);
        }
        match self.tiny_to_long_map.get(short_code) {
            Some(long_url) => Ok(long_url.clone()),
            None => Err(Error::NotFound),
        }
    }

    /// Shortens `long_url` with `candidate` as the code at hand.
    ///
    /// A long URL that has a code keeps it. A new one gets the candidate and
    /// becomes an entry; a candidate that is no short code, or that belongs to
    /// another long URL, is turned down with `CodeUnavailable`. The answer is
    /// the short URL of the long URL's code. Whenever the answer is an error,
    /// the entries are as they were.
    pub fn shorten_with(&mut self, long_url: &LongUrl, candidate: &str) -> (shortened: Result<
        String,
        Error,
    >)
        requires
            old(self).wf(),
        ensures
            final(self).wf(),
            final(self).host() == old(self).host(),
            (final(self)@, result_view(shortened)) == shorten_outcome(
                old(self)@,
                old(self).host(),
                long_url@,
                candidate@,
            ),
    {
        proof {
            self.lemma_index(candidate@);
        }
        match self.long_to_tiny_map.get(long_url.as_str()) {
            Some(code) => {
                return compose_short_url(self.host_address.as_str(), code.as_str());
            },
            None => {},
        }
        if !short_code(candidate) || self.tiny_to_long_map.contains_key(candidate) {
            return Err(Error::CodeUnavailable);
        }
        match compose_short_url(self.host_address.as_str(), candidate) {
            Ok(short_url) => {
                self.long_to_tiny_map.insert(
                    String::from_str(long_url.as_str()),
                    String::from_str(candidate),
                );
                self.tiny_to_long_map.insert(
                    String::from_str(candidate),
                    String::from_str(long_url.as_str()),
                );
                Ok(short_url)
            },
            Err(error) => Err(error),
        }
    }

    /// Shortens `long_url`, drawing the code at random where it needs one.
    ///
    /// A long URL that has a code keeps it, and nothing is drawn. For a new
    /// one, candidates are drawn until one is free, `MAX_ATTEMPTS` times at
    /// most. What comes of it is what `shorten_with` does with one short code
    /// as the candidate: the one that was free, or the last that was not.
    pub fn shorten(&mut self, long_url: &LongUrl) -> (shortened: Result<String, Error>)
        requires
            old(self).wf(),
        ensures
            final(self).wf(),
            final(self).host() == old(self).host(),
            exists|candidate: Seq<char>|
                is_short_code(candidate) && (final(self)@, result_view(shortened))
                    == #[trigger] shorten_outcome(
                    old(self)@,
                    old(self).host(),
                    long_url@,
                    candidate,
                ),
            old(self)@.contains_key(long_url@) ==> final(self)@ == old(self)@ && result_view(
                shortened,
            ) == compose_result(old(self).host(), old(self)@[long_url@]),
            match shortened {
                Ok(short_url) => {
                    &&& final(self)@.contains_key(long_url@)
                    &&& final(self)@ == old(self)@.insert(long_url@, final(self)@[long_url@])
                    &&& composed_short_url(old(self).host(), final(self)@[long_url@]) == Some(
                        short_url@,
                    )
                },
                Err(error) => {
                    &&& final(self)@ == old(self)@
                    &&& error == Error::ComposeFailure || error == Error::CodeUnavailable
                },
            },
    {
        match self.long_to_tiny_map.get(long_url.as_str()) {
            Some(code) => {
                proof {
                    let unused = seq!['0', '0', '0', '0', '0'];
                    assert(shorten_outcome(self@, self.host(), long_url@, unused) == (
                        self@,
                        compose_result(self.host(), code@),
                    ));
                }
                return compose_short_url(self.host_address.as_str(), code.as_str());
            },
            None => {},
        }
        let mut attempt: usize = 1;
        let mut shortened = self.shorten_with(long_url, generate_suffix().as_str());
        while attempt < MAX_ATTEMPTS && is_unavailable(&shortened)
            invariant
                self.wf(),
                self.host() == old(self).host(),
                exists|candidate: Seq<char>|
                    is_short_code(candidate) && (self@, result_view(shortened))
                        == #[trigger] shorten_outcome(
                        old(self)@,
                        old(self).host(),
                        long_url@,
                        candidate,
                    ),
            decreases MAX_ATTEMPTS - attempt,
        {
            let candidate = generate_suffix();
            shortened = self.shorten_with(long_url, candidate.as_str());
            attempt = attempt + 1;
        }
        shortened
    }

    /// Creates the short link for the long URL written as `long_url`, with
    /// `candidate` as the code at hand: the text is read as a long URL and, if
    /// it is one, shortened as `shorten_with` does. A text that is no absolute
    /// URL with a host is refused with `InvalidUrl`, and nothing changes.
    pub fn create_short_link_with(&mut self, long_url: &str, candidate: &str) -> (created: Result<
        String,
        Error,
    >)
        requires
            old(self).wf(),
        ensures
            final(self).wf(),
            final(self).host() == old(self).host(),
            (final(self)@, result_view(created)) == create_outcome(
                old(self)@,
                old(self).host(),
                long_url@,
                candidate@,
            ),
    {
        match LongUrl::parse(long_url) {
            Ok(parsed) => self.shorten_with(&parsed, candidate),
            Err(error) => Err(error),
        }
    }

    /// Creates the short link for the long URL written as `long_url`, and
    /// answers with its short URL.
    ///
    /// A text that is no absolute URL with a host is refused with
    /// `InvalidUrl`, and nothing changes. Otherwise the code is drawn at
    /// random as `shorten` does, and what comes of it is what
    /// `create_short_link_with` does with one short code as the candidate.
    pub fn create_short_link(&mut self, long_url: &str) -> (created: Result<String, Error>)
        requires
            old(self).wf(),
        ensures
            final(self).wf(),
            final(self).host() == old(self).host(),
            canonical_long_url(long_url@) is None ==> created == Err::<String, Error>(
                Error::InvalidUrl,
            ),
            exists|candidate: Seq<char>|
                is_short_code(candidate) && (final(self)@, result_view(created))
                    == #[trigger] create_outcome(
                    old(self)@,
                    old(self).host(),
                    long_url@,
                    candidate,
                ),
            match created {
                Ok(short_url) => {
                    &&& canonical_long_url(long_url@) matches Some(canonical)
                    &&& final(self)@.contains_key(canonical)
                    &&& final(self)@ == old(self)@.insert(canonical, final(self)@[canonical])
                    &&& old(self)@.contains_key(canonical) ==> final(self)@ == old(self)@
                    &&& composed_short_url(old(self).host(), final(self)@[canonical]) == Some(
                        short_url@,
                    )
                },
                Err(error) => {
                    &&& final(self)@ == old(self)@
                    &&& error == Error::InvalidUrl <==> canonical_long_url(long_url@) is None
                    &&& error == Error::InvalidUrl || error == Error::ComposeFailure || error
                        == Error::CodeUnavailable
                },
            },
    {
        match LongUrl::parse(long_url) {
            Ok(parsed) => {
                let created = self.shorten(&parsed);
                proof {
                    let drawn = choose|drawn: Seq<char>|
                        is_short_code(drawn) && (self@, result_view(created))
                            == #[trigger] shorten_outcome(
                            old(self)@,
                            old(self).host(),
                            parsed@,
                            drawn,
                        );
                    assert((self@, result_view(created)) == create_outcome(
                        old(self)@,
                        old(self).host(),
                        long_url@,
                        drawn,
                    ));
                }
                created
            },
            Err(error) => {
                proof {
                    let any = seq!['0', '0', '0', '0', '0'];
                    assert((self@, result_view(Err::<String, Error>(error))) == create_outcome(
                        old(self)@,
                        old(self).host(),
                        long_url@,
                        any,
                    ));
                }
                Err(error)
            },
        }
    }
}

/// Whether an attempt ended because the candidate was turned down.
fn is_unavailable(shortened: &Result<String, Error>) -> (unavailable: bool)
    ensures
        unavailable == (result_view(*shortened) == Err::<Seq<char>, Error>(
            Error::CodeUnavailable,
        )),
{
    match shortened {
        Err(Error::CodeUnavailable) => true,
        _ => false,
    }
}

impl Default for TinyUrlServer {
    /// An empty store under the default host address.
    fn default() -> (server: TinyUrlServer)
        ensures
            server.wf(),
            server@ == Map::<Seq<char>, Seq<char>>::empty(),
            server.host() == DEFAULT_HOST_ADDRESS@,
    {
        TinyUrlServer::new(DEFAULT_HOST_ADDRESS)
    }
}

} // verus!
