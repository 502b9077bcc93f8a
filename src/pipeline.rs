use crate::error::{classify_response, classification, Error, ToornamentServiceError};
use crate::token::Credentials;
use reqwest::Error as ReqwestError;
use vstd::prelude::*;

verus! {

/// The most attempts one request gets: the first, and one retry after a transport failure.
pub const MAX_ATTEMPTS: u8 = 2;

/// An HTTP method.
#[derive(Clone, Copy, Debug, PartialEq, Eq, Structural)]
pub enum Method {
    /// GET
    Get,
    /// POST
    Post,
    /// PATCH
    Patch,
    /// PUT
    Put,
    /// DELETE
    Delete,
}

/// A request ready to be sent: method, address, the two authentication headers' values and a body.
#[derive(Clone, Debug)]
pub struct PreparedRequest {
    /// The HTTP method.
    pub method: Method,
    /// The full address.
    pub url: String,
    /// The value of the `X-Api-Key` header.
    pub api_key: String,
    /// The bearer token of the `Authorization` header.
    pub bearer_token: String,
    /// The body, if any.
    pub body: Option<String>,
}

/// Builds a request that carries the application's API key and the bearer token `token`.
pub fn prepare_request(
    method: Method,
    url: String,
    credentials: &Credentials,
    token: String,
    body: Option<String>,
) -> (r: PreparedRequest)
    ensures
        r.method == method,
        r.url == url,
        r.api_key == credentials.api_key,
        r.bearer_token == token,
        r.body == body,
{
    PreparedRequest { method, url, api_key: credentials.api_key.clone(), bearer_token: token, body }
}

/// A response as received: its status, its raw body, and what the body reads as in the
/// two failure shapes (`None` where it does not read as that shape).
#[derive(Clone, Debug)]
pub struct ReceivedResponse {
    /// The HTTP status.
    pub status: u16,
    /// The raw body.
    pub body: String,
    /// The body read as `{retry_after}`.
    pub retry_after: Option<u64>,
    /// The body read as the service's error list.
    pub service_error: Option<ToornamentServiceError>,
}

/// What became of one attempt at a request.
#[derive(Debug)]
pub enum Transmission {
    /// The server answered.
    Answered(ReceivedResponse),
    /// The transport failed: the connection was reset or aborted, or another HTTP-level failure.
    TransportFailed(ReqwestError),
    /// The request could not be prepared (no usable token): nothing was sent.
    NotSent(Error),
}

/// What the pipeline does after an attempt.
#[derive(Debug)]
pub enum Step {
    /// Send the whole request again, token attachment included.
    SendAgain,
    /// The request is over, with this result.
    Finish(Result<String, Error>),
}

/// Whether attempt number `attempt` (counted from 1), ending in `t`, is followed by another.
pub open spec fn sends_again(attempt: u8, t: Transmission) -> bool {
    t is TransportFailed && attempt < MAX_ATTEMPTS
}

/// The step that follows attempt number `attempt` (counted from 1) ending in `t`.
pub open spec fn step_after(attempt: u8, t: Transmission) -> Step {
    if sends_again(attempt, t) {
        Step::SendAgain
    } else {
        match t {
            Transmission::Answered(resp) => Step::Finish(
                classification(resp.status, resp.body, resp.retry_after, resp.service_error),
            ),
            Transmission::TransportFailed(e) => Step::Finish(Err(Error::Reqwest(e))),
            Transmission::NotSent(e) => Step::Finish(Err(e)),
        }
    }
}

/// Decides what follows attempt number `attempt` (counted from 1): a transport failure on
/// the first attempt sends the request once more; a transport failure on the last attempt
/// ends the request with that failure unchanged; an answer ends it with its classification;
/// a request that could not be prepared ends with the reason.
pub fn after_attempt(attempt: u8, t: Transmission) -> (r: Step)
    requires
        1 <= attempt <= MAX_ATTEMPTS,
    ensures
        r == step_after(attempt, t),
{
    match t {
        Transmission::Answered(resp) => Step::Finish(
            classify_response(resp.status, resp.body, resp.retry_after, resp.service_error),
        ),
        Transmission::TransportFailed(e) => {
            if attempt < MAX_ATTEMPTS {
                Step::SendAgain
            } else {
                Step::Finish(Err(Error::Reqwest(e)))
            }
        },
        Transmission::NotSent(e) => Step::Finish(Err(e)),
    }
}

/// How many attempts a request makes when its attempts, from number `attempt` on, end as
/// `outcomes` says (attempts beyond the outcomes given are not counted).
pub open spec fn attempts_made(attempt: u8, outcomes: Seq<Transmission>) -> nat
    decreases outcomes.len(),
{
    if outcomes.len() == 0 {
        0
    } else if sends_again(attempt, outcomes[0]) && attempt < u8::MAX {
        1 + attempts_made((attempt + 1) as u8, outcomes.drop_first())
    } else {
        1
    }
}

/// A request is attempted at most twice whatever its attempts end in; when the first two
/// both fail in the transport, the request ends with the second failure, unchanged.
pub proof fn lemma_single_retry(outcomes: Seq<Transmission>)
    ensures
        attempts_made(1, outcomes) <= MAX_ATTEMPTS,
        outcomes.len() >= 2 && outcomes[0] is TransportFailed ==> step_after(1, outcomes[0])
            == Step::SendAgain,
        outcomes.len() >= 2 ==> (outcomes[1] matches Transmission::TransportFailed(e) ==> step_after(
            2,
            outcomes[1],
        ) == Step::Finish(Err::<String, Error>(Error::Reqwest(e)))),
{
    reveal_with_fuel(attempts_made, 3);
    if outcomes.len() > 0 && sends_again(1, outcomes[0]) {
        let rest = outcomes.drop_first();
        if rest.len() > 0 {
            assert(!sends_again(2, rest[0]));
            assert(attempts_made(2, rest) == 1);
        }
    }
}

} // verus!
