use chrono::format::ParseError as DateParseError;
use reqwest::Error as ReqwestError;
use serde_json::Error as JsonError;
use std::io::Error as IoError;
use crate::disciplines::DisciplineId;
use crate::matches::MatchId;
use crate::tournaments::{Tournament, TournamentId};
use vstd::prelude::*;

verus! {

#[verifier::external_type_specification]
#[verifier::external_body]
pub struct ExReqwestError(ReqwestError);

#[verifier::external_type_specification]
#[verifier::external_body]
pub struct ExJsonError(JsonError);

#[verifier::external_type_specification]
#[verifier::external_body]
pub struct ExIoError(IoError);

#[verifier::external_type_specification]
#[verifier::external_body]
pub struct ExDateParseError(DateParseError);

/// A toornament service error type.
#[derive(Clone, Copy, Debug, PartialEq, Eq, PartialOrd, Ord, Hash, Structural)]
pub enum ToornamentErrorType {
    /// Duplicate email error type
    EmailDuplicate,
    /// Match integrity error type
    MatchIntegrity,
}

/// A toornament service error scope.
#[derive(Clone, Copy, Debug, PartialEq, Eq, PartialOrd, Ord, Hash, Structural)]
pub enum ToornamentErrorScope {
    /// The error scope is the query
    Query,
    /// The error scope is the body
    Body,
}

/// One error that the service reports.
#[derive(Clone, Debug)]
pub struct ToornamentError {
    /// Error message.
    pub message: String,
    /// The part of the HTTP request the error is located in: the query string or the body.
    pub scope: ToornamentErrorScope,
    /// Path of the error from your data which caused the error.
    pub property_path: Option<String>,
    /// The incorrect value causing the error (only present with `property_path`).
    pub invalid_value: Option<String>,
    /// A kind of error that a client cannot check beforehand, such as a duplicate email.
    pub error_type: Option<ToornamentErrorType>,
}

/// A list of toornament service errors.
#[derive(Clone, Debug)]
pub struct ToornamentErrors(pub Vec<ToornamentError>);

/// The structured error payload of a rejected request.
#[derive(Clone, Debug)]
pub struct ToornamentServiceError {
    /// A list of toornament service errors
    pub errors: ToornamentErrors,
}

/// A failure of the fluent iterator layer.
#[derive(Clone, Debug)]
pub enum IterError {
    /// A tournament with such id does not exist
    NoSuchTournament(TournamentId),
    /// A tournament does not have an id set
    NoTournamentId(Box<Tournament>),
    /// A match does not exist
    NoSuchMatch(TournamentId, MatchId),
    /// A permission does not have an id set
    NoPermissionId,
    /// A discipline with such id does not exist
    NoSuchDiscipline(DisciplineId),
}

/// The message of an iterator failure.
pub open spec fn iter_error_text(e: IterError) -> Seq<char> {
    match e {
        IterError::NoSuchTournament(id) => "A tournament with id ("@ + id.0@ + ") does not exist"@,
        IterError::NoTournamentId(_) => "A tournament does not have an id set."@,
        IterError::NoSuchMatch(t, m) => "A match does not exist (tournament id = "@ + t.0@
            + ", match id = "@ + m.0@ + ")"@,
        IterError::NoPermissionId => "A permission does not have an id set."@,
        IterError::NoSuchDiscipline(id) => "A permission with id ("@ + id.0@
            + ") does not exist."@,
    }
}

impl IterError {
    /// The failure's message.
    pub fn to_string(&self) -> (r: String)
        ensures
            r@ == iter_error_text(*self),
    {
        match self {
            IterError::NoSuchTournament(id) => {
                let mut s = String::from_str("A tournament with id (");
                s.append(id.0.as_str());
                s.append(") does not exist");
                s
            },
            IterError::NoTournamentId(_) => String::from_str("A tournament does not have an id set."),
            IterError::NoSuchMatch(t, m) => {
                let mut s = String::from_str("A match does not exist (tournament id = ");
                s.append(t.0.as_str());
                s.append(", match id = ");
                s.append(m.0.as_str());
                s.append(")");
                s
            },
            IterError::NoPermissionId => String::from_str("A permission does not have an id set."),
            IterError::NoSuchDiscipline(id) => {
                let mut s = String::from_str("A permission with id (");
                s.append(id.0.as_str());
                s.append(") does not exist.");
                s
            },
        }
    }
}

/// Toornament API error type.
#[derive(Debug)]
pub enum Error {
    /// The HTTP transport failed (DNS, TLS, connection reset, timeout).
    Reqwest(ReqwestError),
    /// A JSON body could not be read into the expected shape.
    Json(JsonError),
    /// An I/O error.
    Io(IoError),
    /// A date could not be parsed.
    Date(DateParseError),
    /// The service rejected the request for a reason it describes.
    Toornament(u16, ToornamentServiceError),
    /// A non-success response whose body has no known shape: the status and the raw body.
    Status(u16, String),
    /// The request was rate limited: how many milliseconds to wait before retrying.
    RateLimited(u64),
    /// A failure of the fluent iterator layer.
    Iter(IterError),
    /// A failure of the client itself, such as an unavailable token store.
    Rest(&'static str),
}

impl From<ReqwestError> for Error {
    fn from(err: ReqwestError) -> (r: Error)
        ensures
            r == Error::Reqwest(err),
    {
        Error::Reqwest(err)
    }
}

impl vstd::std_specs::convert::FromSpecImpl<ReqwestError> for Error {
    open spec fn obeys_from_spec() -> bool {
        true
    }

    open spec fn from_spec(v: ReqwestError) -> Error {
        Error::Reqwest(v)
    }
}

impl From<JsonError> for Error {
    fn from(err: JsonError) -> (r: Error)
        ensures
            r == Error::Json(err),
    {
        Error::Json(err)
    }
}

impl vstd::std_specs::convert::FromSpecImpl<JsonError> for Error {
    open spec fn obeys_from_spec() -> bool {
        true
    }

    open spec fn from_spec(v: JsonError) -> Error {
        Error::Json(v)
    }
}

impl From<IoError> for Error {
    fn from(err: IoError) -> (r: Error)
        ensures
            r == Error::Io(err),
    {
        Error::Io(err)
    }
}

impl vstd::std_specs::convert::FromSpecImpl<IoError> for Error {
    open spec fn obeys_from_spec() -> bool {
        true
    }

    open spec fn from_spec(v: IoError) -> Error {
        Error::Io(v)
    }
}

impl From<DateParseError> for Error {
    fn from(err: DateParseError) -> (r: Error)
        ensures
            r == Error::Date(err),
    {
        Error::Date(err)
    }
}

impl vstd::std_specs::convert::FromSpecImpl<DateParseError> for Error {
    open spec fn obeys_from_spec() -> bool {
        true
    }

    open spec fn from_spec(v: DateParseError) -> Error {
        Error::Date(v)
    }
}

/// A status in the 2xx range.
pub open spec fn is_success_status(status: u16) -> bool {
    200 <= status <= 299
}

/// The HTTP status the service uses to signal rate limiting.
pub const TOO_MANY_REQUESTS: u16 = 429;

/// What a response with `status` and `body` means, given what its body reads as
/// in the two failure shapes: `{retry_after}` (`retry_after`) and the service's
/// `{errors: [...]}` (`service_error`). `None` stands for a body that does not
/// read as that shape.
pub open spec fn classification(
    status: u16,
    body: String,
    retry_after: Option<u64>,
    service_error: Option<ToornamentServiceError>,
) -> Result<String, Error> {
    if is_success_status(status) {
        Ok(body)
    } else if status == TOO_MANY_REQUESTS && retry_after is Some {
        Err(Error::RateLimited(retry_after->0))
    } else if status != TOO_MANY_REQUESTS && service_error is Some {
        Err(Error::Toornament(status, service_error->0))
    } else {
        Err(Error::Status(status, body))
    }
}

/// Classifies one HTTP response: a 2xx status is a success carrying the body; a
/// 429 whose body reads as `{retry_after}` is rate limiting; another non-2xx
/// status whose body reads as the service's error list is a service error; any
/// other non-2xx response is a failure with its status and raw body.
pub fn classify_response(
    status: u16,
    body: String,
    retry_after: Option<u64>,
    service_error: Option<ToornamentServiceError>,
) -> (r: Result<String, Error>)
    ensures
        r == classification(status, body, retry_after, service_error),
{
    if 200 <= status && status <= 299 {
        return Ok(body);
    }
    if status == TOO_MANY_REQUESTS {
        if let Some(ms) = retry_after {
            return Err(Error::RateLimited(ms));
        }
    } else if let Some(e) = service_error {
        return Err(Error::Toornament(status, e));
    }
    Err(Error::Status(status, body))
}

} // verus!
