use vstd::prelude::*;

use crate::application::{is_bearer_request, App};
use crate::clock::{parse_utc_seconds, utc_seconds};
use crate::credential::{text_of, usable_value, usable_value_of, Credential, Deadline};
use crate::error::GithubError;
use crate::json_web_token::{slot_after, token_result, ASSERTION_LIFETIME};
use crate::request::{Method, Request};

verus! {

/// An installation access token and the expiry the API declared for it, in
/// seconds since the Unix epoch.
#[derive(Debug)]
pub struct InstallationToken {
    pub token: String,
    pub expires_at: i64,
}

impl InstallationToken {
    /// Reads the fields of a token-exchange response: the token and its
    /// declared expiry as a date-time text. An expiry that is not a
    /// date-time makes the response unusable.
    pub fn from_response(token: String, expires_at: &str) -> (r: Result<
        InstallationToken,
        GithubError,
    >)
        ensures
            r is Ok <==> utc_seconds(expires_at@) is Some,
            r matches Ok(t) ==> t.token@ == token@ && utc_seconds(expires_at@) == Some(t.expires_at),
            r matches Err(e) ==> e == GithubError::AuthError,
    {
        match parse_utc_seconds(expires_at) {
            Some(seconds) => Ok(InstallationToken { token, expires_at: seconds }),
            None => Err(GithubError::AuthError),
        }
    }
}

/// What a token cache asks for next.
#[derive(Debug)]
pub enum TokenStep {
    /// The held token is still valid: use it.
    Ready(String),
    /// The token must be exchanged anew: perform this request and hand the
    /// response to `TokenCache::accept_exchange`.
    Exchange(Request),
}

/// The access token last obtained for one installation.
///
/// A token is handed out while its declared expiry is at or after the check
/// time; only once the expiry has strictly passed is a new one exchanged.
pub struct TokenCache {
    current: Option<Credential>,
}

impl View for TokenCache {
    type V = Option<Credential>;

    closed spec fn view(&self) -> Option<Credential> {
        self.current
    }
}

impl TokenCache {
    /// A cache that holds no token yet.
    pub fn new() -> (r: TokenCache)
        ensures
            r@ is None,
    {
        TokenCache { current: None }
    }

    /// The held token, if it is still valid at `now`.
    pub fn usable_token(&self, now: i64) -> (r: Option<String>)
        ensures
            text_of(r) == usable_value(self@, now as int, Deadline::Inclusive),
    {
        usable_value_of(&self.current, now, Deadline::Inclusive)
    }

    /// Whether a new token must be exchanged before one can be handed out.
    pub fn needs_refresh(&self, now: i64) -> (r: bool)
        ensures
            r == (usable_value(self@, now as int, Deadline::Inclusive) is None),
    {
        match &self.current {
            Some(c) => !c.is_usable_at(now, Deadline::Inclusive),
            None => true,
        }
    }

    /// The next step towards a valid token at `now`: the held token while it
    /// is valid, leaving `app` as it was; else a POST to `access_tokens_url`
    /// that carries a valid assertion of `app` as its bearer credential.
    pub fn next_step(&self, now: i64, app: &mut App, access_tokens_url: &str) -> (r: Result<
        TokenStep,
        GithubError,
    >)
        requires
            now <= i64::MAX - ASSERTION_LIFETIME,
        ensures
            final(app).key() == old(app).key(),
            final(app).issuer() == old(app).issuer(),
            usable_value(self@, now as int, Deadline::Inclusive) matches Some(t) ==> (r matches Ok(
                TokenStep::Ready(u),
            ) && u@ == t && final(app).held() == old(app).held()),
            usable_value(self@, now as int, Deadline::Inclusive) is None ==> {
                let a = token_result(old(app).held(), old(app).key(), old(app).issuer(), now as int);
                &&& slot_after(old(app).held(), final(app).held(), old(app).key(), old(app).issuer(), now as int)
                &&& r is Ok <==> a is Some
                &&& r matches Ok(s) ==> (s matches TokenStep::Exchange(q) && is_bearer_request(
                    q,
                    Method::Post,
                    access_tokens_url@,
                    a->0,
                ))
            },
            r matches Err(e) ==> e == GithubError::KeyError || e == GithubError::SigningError,
    {
        match self.usable_token(now) {
            Some(t) => Ok(TokenStep::Ready(t)),
            None => {
                let q = app.app_request(Method::Post, access_tokens_url, now)?;
                Ok(TokenStep::Exchange(q))
            },
        }
    }

    /// Stores the token of an exchange response, replacing whatever was
    /// held, and returns it. A response whose expiry is not a date-time is an
    /// authentication failure and leaves the cache as it was.
    pub fn accept_exchange(&mut self, token: String, expires_at: &str) -> (r: Result<
        String,
        GithubError,
    >)
        ensures
            r is Ok <==> utc_seconds(expires_at@) is Some,
            r matches Ok(t) ==> t@ == token@ && (final(self)@ matches Some(c) && c.value@ == token@
                && utc_seconds(expires_at@) == Some(c.expires_at)),
            r matches Err(e) ==> e == GithubError::AuthError && final(self)@ == old(self)@,
    {
        let parsed = InstallationToken::from_response(token, expires_at)?;
        let t = parsed.token.clone();
        self.current = Some(Credential { value: parsed.token, expires_at: parsed.expires_at });
        Ok(t)
    }

    /// Stores `token`, replacing whatever was held.
    pub fn store(&mut self, token: InstallationToken)
        ensures
            final(self)@ matches Some(c) && c.value@ == token.token@ && c.expires_at
                == token.expires_at,
    {
        self.current = Some(Credential { value: token.token, expires_at: token.expires_at });
    }
}

} // verus!
