//! The two requests of the service, from decoded input to the answer that is
//! written out: creating a short link, and following one.

use crate::code::is_short_code;
use crate::long_url::{canonical_long_url, composed_short_url, LongUrl};
use crate::status::{Error, StatusCode};
use crate::store::{long_url_of, result_view, shorten_outcome, TinyUrlServer};
use vstd::prelude::*;

verus! {

/// The answer to a request that created a short link.
#[derive(Debug)]
pub struct Response {
    /// The status of the answer.
    pub status: StatusCode,
    /// The short URL, as plain text.
    pub body: String,
}

/// The answer to a request that followed a short link.
#[derive(Debug)]
pub struct Redirect {
    /// The status of the answer.
    pub status: StatusCode,
    /// The long URL to go to.
    pub location: String,
}

/// The long URL of a request to create a short link, as the query parameter
/// `long-url` gave it.
#[derive(Debug)]
pub struct Params {
    pub long_url: LongUrl,
}

/// The long URL of a request to create a short link, as the request's body
/// gave it.
#[derive(Debug)]
pub struct CreateUrlParams(pub LongUrl);

/// The long URL of a request, or the status that a malformed one is answered
/// with.
pub open spec fn long_url_or_status(input: Seq<char>) -> Result<Seq<char>, StatusCode> {
    match canonical_long_url(input) {
        Some(long_url) => Ok(long_url),
        None => Err(StatusCode::BadRequest),
    }
}

impl Params {
    /// Reads the query parameter. Anything but an absolute URL with a host is
    /// answered with `BadRequest`.
    pub fn parse(long_url: &str) -> (params: Result<Params, StatusCode>)
        ensures
            match params {
                Ok(params) => long_url_or_status(long_url@) == Ok::<Seq<char>, StatusCode>(
                    params.long_url@,
                ),
                Err(status) => long_url_or_status(long_url@) == Err::<Seq<char>, StatusCode>(
                    status,
                ),
            },
    {
        match LongUrl::parse(long_url) {
            Ok(long_url) => Ok(Params { long_url }),
            Err(error) => Err(error.status()),
        }
    }
}

impl CreateUrlParams {
    /// Reads the long URL of a request's body. Anything but an absolute URL
    /// with a host is answered with `BadRequest`.
    pub fn parse(long_url: &str) -> (params: Result<CreateUrlParams, StatusCode>)
        ensures
            match params {
                Ok(params) => long_url_or_status(long_url@) == Ok::<Seq<char>, StatusCode>(
                    params.0@,
                ),
                Err(status) => long_url_or_status(long_url@) == Err::<Seq<char>, StatusCode>(
                    status,
                ),
            },
    {
        match LongUrl::parse(long_url) {
            Ok(long_url) => Ok(CreateUrlParams(long_url)),
            Err(error) => Err(error.status()),
        }
    }
}

/// An answer as contracts speak of it: the status, and the text by its
/// characters.
pub open spec fn response_view(response: Result<Response, StatusCode>) -> Result<
    (StatusCode, Seq<char>),
    StatusCode,
> {
    match response {
        Ok(response) => Ok((response.status, response.body@)),
        Err(status) => Err(status),
    }
}

/// An answer as contracts speak of it: the status, and the location by its
/// characters.
pub open spec fn redirect_view(redirect: Result<Redirect, StatusCode>) -> Result<
    (StatusCode, Seq<char>),
    StatusCode,
> {
    match redirect {
        Ok(redirect) => Ok((redirect.status, redirect.location@)),
        Err(status) => Err(status),
    }
}

/// The answer to a request to create a short link, given what the store made
/// of it: `Created` with the short URL, or the status of the error.
pub open spec fn created_answer(shortened: Result<Seq<char>, Error>) -> Result<
    (StatusCode, Seq<char>),
    StatusCode,
> {
    match shortened {
        Ok(short_url) => Ok((StatusCode::Created, short_url)),
        Err(error) => Err(error.status_of()),
    }
}

/// The answer to a request to follow a short link, given the long URL that
/// the code stands for: `MovedPermanently` to it, or `NotFound`.
pub open spec fn redirect_answer(long_url: Option<Seq<char>>) -> Result<
    (StatusCode, Seq<char>),
    StatusCode,
> {
    match long_url {
        Some(long_url) => Ok((StatusCode::MovedPermanently, long_url)),
        None => Err(StatusCode::NotFound),
    }
}

/// Turns what the store made of a request to create a short link into the
/// answer: `Created` with the short URL as the body, or the status of the
/// error.
pub fn created_response(shortened: Result<String, Error>) -> (response: Result<
    Response,
    StatusCode,
>)
    ensures
        response_view(response) == created_answer(result_view(shortened)),
{
    match shortened {
        Ok(short_url) => Ok(Response { status: StatusCode::Created, body: short_url }),
        Err(error) => Err(error.status()),
    }
}

/// Answers a request to create a short link for the long URL of `params`.
///
/// The store shortens the long URL, drawing a code at random where it needs
/// one, and the answer is `Created` with the short URL. What comes of it is
/// what `shorten_with` does with one short code as the candidate, and the
/// answer that `created_response` makes of that.
pub fn create_entry(server: &mut TinyUrlServer, params: Params) -> (response: Result<
    Response,
    StatusCode,
>)
    requires
        old(server).wf(),
    ensures
        final(server).wf(),
        final(server).host() == old(server).host(),
        exists|candidate: Seq<char>|
            is_short_code(candidate) && {
                let outcome = #[trigger] shorten_outcome(
                    old(server)@,
                    old(server).host(),
                    params.long_url@,
                    candidate,
                );
                &&& final(server)@ == outcome.0
                &&& response_view(response) == created_answer(outcome.1)
            },
        match response {
            Ok(response) => {
                &&& response.status == StatusCode::Created
                &&& final(server)@.contains_key(params.long_url@)
                &&& final(server)@ == old(server)@.insert(
                    params.long_url@,
                    final(server)@[params.long_url@],
                )
                &&& old(server)@.contains_key(params.long_url@) ==> final(server)@ == old(server)@
                &&& composed_short_url(old(server).host(), final(server)@[params.long_url@])
                    == Some(response.body@)
            },
            Err(status) => {
                &&& status == StatusCode::InternalServerError
                &&& final(server)@ == old(server)@
            },
        },
{
    created_response(server.shorten(&params.long_url))
}

/// Answers a request to create a short link for the long URL of a request's
/// body, as `create_entry` does for the one of a query parameter.
pub fn create_url(server: &mut TinyUrlServer, params: CreateUrlParams) -> (response: Result<
    Response,
    StatusCode,
>)
    requires
        old(server).wf(),
    ensures
        final(server).wf(),
        final(server).host() == old(server).host(),
        exists|candidate: Seq<char>|
            is_short_code(candidate) && {
                let outcome = #[trigger] shorten_outcome(
                    old(server)@,
                    old(server).host(),
                    params.0@,
                    candidate,
                );
                &&& final(server)@ == outcome.0
                &&& response_view(response) == created_answer(outcome.1)
            },
        match response {
            Ok(response) => {
                &&& response.status == StatusCode::Created
                &&& final(server)@.contains_key(params.0@)
                &&& final(server)@ == old(server)@.insert(params.0@, final(server)@[params.0@])
                &&& old(server)@.contains_key(params.0@) ==> final(server)@ == old(server)@
                &&& composed_short_url(old(server).host(), final(server)@[params.0@]) == Some(
                    response.body@,
                )
            },
            Err(status) => {
                &&& status == StatusCode::InternalServerError
                &&& final(server)@ == old(server)@
            },
        },
{
    create_entry(server, Params { long_url: params.0 })
}

/// Answers a request to follow the short link with the code `tiny_url`:
/// `MovedPermanently` to the long URL that the code stands for, or `NotFound`
/// where it stands for none.
pub fn redirect_tiny_url(server: &TinyUrlServer, tiny_url: &str) -> (redirect: Result<
    Redirect,
    StatusCode,
>)
    requires
        server.wf(),
    ensures
        redirect_view(redirect) == redirect_answer(long_url_of(server@, tiny_url@)),
{
    match server.resolve(tiny_url) {
        Ok(long_url) => Ok(Redirect { status: StatusCode::MovedPermanently, location: long_url }),
        Err(error) => Err(error.status()),
    }
}

} // verus!
