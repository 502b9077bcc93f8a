use crate::error::{is_success_status, Error};
use serde_json::Error as JsonError;
use vstd::prelude::*;

verus! {

/// The message of the failure that an unavailable token store gives.
pub const TOKEN_UNAVAILABLE: &'static str = "Can't get the token";

/// The message of the failure that a failed refresh gives to a caller that needed a fresh token.
pub const REFRESH_FAILED: &'static str = "Could not refresh the token";

/// The application's credentials: API key, OAuth2 client id and client secret.
#[derive(Clone, Debug)]
pub struct Credentials {
    /// The application API key, sent with every request.
    pub api_key: String,
    /// The OAuth2 client id.
    pub client_id: String,
    /// The OAuth2 client secret.
    pub client_secret: String,
}

impl Credentials {
    /// Bundles the three credentials.
    pub fn new(api_key: String, client_id: String, client_secret: String) -> (r: Credentials)
        ensures
            r.api_key == api_key,
            r.client_id == client_id,
            r.client_secret == client_secret,
    {
        Credentials { api_key, client_id, client_secret }
    }

    /// The form fields of a client-credentials token request, in order.
    pub fn token_form(&self) -> (r: Vec<(String, String)>)
        ensures
            r@.len() == 3,
            r@[0].0@ == "grant_type"@,
            r@[0].1@ == "client_credentials"@,
            r@[1].0@ == "client_id"@,
            r@[1].1 == self.client_id,
            r@[2].0@ == "client_secret"@,
            r@[2].1 == self.client_secret,
    {
        let mut form: Vec<(String, String)> = Vec::new();
        form.push((String::from_str("grant_type"), String::from_str("client_credentials")));
        form.push((String::from_str("client_id"), self.client_id.clone()));
        form.push((String::from_str("client_secret"), self.client_secret.clone()));
        form
    }
}

/// What the token endpoint answers with: the token and its lifetime in seconds.
#[derive(Clone, Debug)]
pub struct OauthAccessToken {
    /// The bearer token.
    pub access_token: String,
    /// Seconds until the token expires.
    pub expires_in: u64,
}

/// A bearer token and the instant it expires, in seconds since the Unix epoch.
#[derive(Clone, Debug)]
pub struct AccessToken {
    /// The bearer token.
    pub access_token: String,
    /// Expiry instant, in seconds since the Unix epoch.
    pub expires: u64,
}

/// The expiry instant of a token with lifetime `expires_in` obtained at `now`,
/// held at the largest instant a `u64` can record.
pub open spec fn expiry_after(now: u64, expires_in: u64) -> u64 {
    if now + expires_in > u64::MAX {
        u64::MAX
    } else {
        (now + expires_in) as u64
    }
}

/// Whether a token with expiry `expires` counts as expired at `now`: strictly after it.
pub open spec fn is_expired(expires: u64, now: u64) -> bool {
    now > expires
}

/// The token that a grant obtained at `now` gives.
pub open spec fn token_of_grant(grant: OauthAccessToken, now: u64) -> AccessToken {
    AccessToken { access_token: grant.access_token, expires: expiry_after(now, grant.expires_in) }
}

/// Turns the token endpoint's answer at `now` into a token that expires `expires_in` seconds later.
pub fn token_from_grant(grant: OauthAccessToken, now: u64) -> (r: AccessToken)
    ensures
        r == token_of_grant(grant, now),
{
    let expires = now.saturating_add(grant.expires_in);
    AccessToken { access_token: grant.access_token, expires }
}

/// Relies on chrono's `Local::now` and `DateTime::timestamp`: the current time in
/// seconds since the Unix epoch. Nothing is stated of the value: it is the clock's.
#[verifier::external_body]
fn unix_now() -> (r: u64) {
    chrono::Local::now().timestamp() as u64
}

/// What the token endpoint's response gives when it arrives at `now`: a token from the
/// decoded body on a 2xx status, the decoding failure if the body did not decode, and the
/// status with the raw body on any other status.
pub open spec fn token_response(
    status: u16,
    body: String,
    decoded: Result<OauthAccessToken, JsonError>,
    now: u64,
) -> Result<AccessToken, Error> {
    if !is_success_status(status) {
        Err(Error::Status(status, body))
    } else {
        match decoded {
            Ok(grant) => Ok(token_of_grant(grant, now)),
            Err(e) => Err(Error::Json(e)),
        }
    }
}

/// Reads the token endpoint's response, received at `now`. `decoded` is its body read as
/// `{access_token, expires_in}`.
pub fn accept_token(
    status: u16,
    body: String,
    decoded: Result<OauthAccessToken, JsonError>,
    now: u64,
) -> (r: Result<AccessToken, Error>)
    ensures
        r == token_response(status, body, decoded, now),
{
    if status < 200 || status > 299 {
        return Err(Error::Status(status, body));
    }
    match decoded {
        Ok(grant) => Ok(token_from_grant(grant, now)),
        Err(e) => Err(Error::Json(e)),
    }
}

/// Reads the token endpoint's response, received now.
pub fn accept_token_now(
    status: u16,
    body: String,
    decoded: Result<OauthAccessToken, JsonError>,
) -> (r: Result<AccessToken, Error>)
    ensures
        exists|now: u64| r == token_response(status, body, decoded, now),
{
    let now = unix_now();
    accept_token(status, body, decoded, now)
}

/// The outcome of the expiry check on the stored token.
#[derive(Clone, Debug)]
pub enum TokenCheck {
    /// The stored token has not expired: this is it.
    Valid(String),
    /// The stored token has expired and must be refreshed before use.
    Expired,
}

/// The shared token state: exactly one token at a time, replaced only whole.
#[derive(Clone, Debug)]
pub struct TokenStore {
    current: AccessToken,
}

impl TokenStore {
    /// The token held.
    pub closed spec fn token(&self) -> AccessToken {
        self.current
    }

    /// A store holding `token`.
    pub fn new(token: AccessToken) -> (r: TokenStore)
        ensures
            r.token() == token,
    {
        TokenStore { current: token }
    }

    /// Returns the stored token string, without looking at its expiry.
    pub fn current_token(&self) -> (r: String)
        ensures
            r == self.token().access_token,
    {
        self.current.access_token.clone()
    }

    /// Returns the stored expiry instant.
    pub fn expires(&self) -> (r: u64)
        ensures
            r == self.token().expires,
    {
        self.current.expires
    }

    /// The expiry check at `now`: the stored token if it has not expired, else `Expired`.
    pub fn check(&self, now: u64) -> (r: TokenCheck)
        ensures
            r == check_at(self.token(), now),
    {
        if now > self.current.expires {
            TokenCheck::Expired
        } else {
            TokenCheck::Valid(self.current.access_token.clone())
        }
    }

    /// The expiry check at the current time.
    pub fn check_now(&self) -> (r: TokenCheck)
        ensures
            exists|now: u64| r == check_at(self.token(), now),
    {
        let now = unix_now();
        self.check(now)
    }

    /// Installs the result of a refresh: a new token replaces the stored one whole;
    /// a failure leaves the stored token as it was. Returns whether a token was installed.
    pub fn refresh_with(&mut self, refreshed: Result<AccessToken, Error>) -> (r: bool)
        ensures
            r == refreshed is Ok,
            final(self).token() == after_refresh(old(self).token(), refreshed),
    {
        match refreshed {
            Ok(token) => {
                self.current = token;
                true
            },
            Err(_) => false,
        }
    }

    /// What a caller that needed a fresh token gets once the refresh it triggered is over:
    /// the stored token if the refresh succeeded, else the refresh failure.
    pub fn token_after_refresh(&self, refreshed: bool) -> (r: Result<String, Error>)
        ensures
            refreshed ==> r == Ok::<String, Error>(self.token().access_token),
            !refreshed ==> r == Err::<String, Error>(Error::Rest(REFRESH_FAILED)),
    {
        if refreshed {
            Ok(self.current_token())
        } else {
            Err(Error::Rest(REFRESH_FAILED))
        }
    }
}

/// The expiry check on `token` at `now`.
pub open spec fn check_at(token: AccessToken, now: u64) -> TokenCheck {
    if is_expired(token.expires, now) {
        TokenCheck::Expired
    } else {
        TokenCheck::Valid(token.access_token)
    }
}

/// The token stored after a refresh of a store holding `old` that produced `refreshed`.
pub open spec fn after_refresh(old: AccessToken, refreshed: Result<AccessToken, Error>) -> AccessToken {
    match refreshed {
        Ok(token) => token,
        Err(_) => old,
    }
}

/// The expiry check never hands out a token that had expired when the check was made,
/// and a token just obtained from the token endpoint has not expired at the instant it
/// was obtained, so the check at that instant hands it out.
pub proof fn lemma_token_freshness(
    store: TokenStore,
    now: u64,
    status: u16,
    body: String,
    decoded: Result<OauthAccessToken, JsonError>,
)
    ensures
        check_at(store.token(), now) is Valid ==> store.token().expires >= now,
        check_at(store.token(), now) is Valid ==> check_at(store.token(), now) == TokenCheck::Valid(
            store.token().access_token,
        ),
        token_response(status, body, decoded, now) is Ok ==> token_response(
            status,
            body,
            decoded,
            now,
        )->Ok_0.expires >= now,
        token_response(status, body, decoded, now) is Ok ==> check_at(
            token_response(status, body, decoded, now)->Ok_0,
            now,
        ) == TokenCheck::Valid(token_response(status, body, decoded, now)->Ok_0.access_token),
{
}

/// A refresh replaces the stored token whole or not at all: afterwards the store holds
/// either the token it held before or the complete token that the refresh produced.
pub proof fn lemma_refresh_atomic(old: AccessToken, refreshed: Result<AccessToken, Error>)
    ensures
        after_refresh(old, refreshed) == old || refreshed == Ok::<AccessToken, Error>(
            after_refresh(old, refreshed),
        ),
{
}

/// A failed refresh leaves the stored token, and so what `current_token` returns, unchanged.
pub proof fn lemma_failed_refresh_keeps_token(old: AccessToken, failure: Error)
    ensures
        after_refresh(old, Err(failure)) == old,
        after_refresh(old, Err(failure)).access_token == old.access_token,
{
}

} // verus!
