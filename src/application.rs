use vstd::prelude::*;

use crate::clock::LATEST_SECONDS;
use crate::credential::{usable_value, Credential, Deadline};
use crate::error::GithubError;
use crate::json_web_token::{
    signed_at,
    slot_after,
    token_result,
    JsonWebToken,
    ASSERTION_LIFETIME,
};
use crate::request::{
    authenticated_request,
    header_lines,
    installation_url,
    installations_url,
    Method,
    Request,
    Scheme,
    API_BASE,
};
use crate::text::decimal;

verus! {

/// `q` is a body-less request of `method` on `url` that carries `assertion`
/// as its bearer credential.
pub open spec fn is_bearer_request(q: Request, method: Method, url: Seq<char>, assertion: Seq<
    char,
>) -> bool {
    &&& q.method == method
    &&& q.url@ == url
    &&& q.body is None
    &&& q.headers@.map_values(|h: String| h@) == header_lines(Scheme::Bearer, assertion)
}

/// A GitHub App identity: its private key, its id, and the assertion cache
/// built on them.
pub struct App {
    json_web_token: JsonWebToken,
}

impl App {
    /// The private key the application signs with.
    pub closed spec fn key(&self) -> Seq<u8> {
        self.json_web_token.key()
    }

    /// The application id.
    pub closed spec fn issuer(&self) -> Seq<char> {
        self.json_web_token.issuer()
    }

    /// The assertion the application holds, with its expiry.
    pub closed spec fn held(&self) -> Option<Credential> {
        self.json_web_token.held()
    }

    /// An application for `app_id` that signs with the DER-encoded RSA key
    /// `private_key`; it fails exactly when signing at the current time fails.
    pub fn new(private_key: Vec<u8>, app_id: String) -> (r: Result<App, GithubError>)
        ensures
            exists|now: int|
                0 <= now < LATEST_SECONDS && (r is Ok <==> #[trigger] signed_at(
                    private_key@,
                    app_id@,
                    now,
                ) is Some),
            r matches Ok(a) ==> a.key() == private_key@ && a.issuer() == app_id@,
            r matches Err(e) ==> e == GithubError::KeyError || e == GithubError::SigningError,
    {
        let json_web_token = JsonWebToken::new(private_key, app_id)?;
        Ok(App { json_web_token })
    }

    /// An application for `app_id` whose first assertion is signed at `now`;
    /// it fails exactly when that signing fails.
    pub fn new_at(private_key: Vec<u8>, app_id: String, now: i64) -> (r: Result<App, GithubError>)
        requires
            now <= i64::MAX - ASSERTION_LIFETIME,
        ensures
            r is Ok <==> signed_at(private_key@, app_id@, now as int) is Some,
            r matches Ok(a) ==> a.key() == private_key@ && a.issuer() == app_id@ && (a.held()
                matches Some(c) && signed_at(private_key@, app_id@, now as int) == Some(c.value@)
                && c.expires_at == now + ASSERTION_LIFETIME),
            r matches Err(e) ==> e == GithubError::KeyError || e == GithubError::SigningError,
    {
        let json_web_token = JsonWebToken::new_at(private_key, app_id, now)?;
        Ok(App { json_web_token })
    }

    /// The assertion cache of this application.
    pub fn json_web_token(&self) -> (r: &JsonWebToken)
        ensures
            r.key() == self.key(),
            r.issuer() == self.issuer(),
            r.held() == self.held(),
    {
        &self.json_web_token
    }

    /// A request of `method` on `url` made as the application at `now` with
    /// the held assertion, where it is still valid; taking `&self`, it can
    /// run under a read lock.
    pub fn cached_request(&self, method: Method, url: &str, now: i64) -> (r: Option<Request>)
        ensures
            r is Some <==> usable_value(self.held(), now as int, Deadline::Exclusive) is Some,
            r matches Some(q) ==> is_bearer_request(
                q,
                method,
                url@,
                usable_value(self.held(), now as int, Deadline::Exclusive)->0,
            ),
    {
        match self.json_web_token.usable_assertion(now) {
            Some(assertion) => Some(
                authenticated_request(method, url, Scheme::Bearer, assertion.as_str(), None),
            ),
            None => None,
        }
    }

    /// A request of `method` on `url` made as the application at `now`.
    pub fn app_request(&mut self, method: Method, url: &str, now: i64) -> (r: Result<
        Request,
        GithubError,
    >)
        requires
            now <= i64::MAX - ASSERTION_LIFETIME,
        ensures
            final(self).key() == old(self).key(),
            final(self).issuer() == old(self).issuer(),
            slot_after(old(self).held(), final(self).held(), old(self).key(), old(self).issuer(), now as int),
            r is Ok <==> token_result(old(self).held(), old(self).key(), old(self).issuer(), now as int) is Some,
            r matches Ok(q) ==> is_bearer_request(
                q,
                method,
                url@,
                token_result(old(self).held(), old(self).key(), old(self).issuer(), now as int)->0,
            ),
            r matches Err(e) ==> e == GithubError::KeyError || e == GithubError::SigningError,
    {
        let assertion = self.json_web_token.token_at(now)?;
        let q = authenticated_request(method, url, Scheme::Bearer, assertion.as_str(), None);
        Ok(q)
    }

    /// The request listing the installations of the application at `now`.
    pub fn installations_request(&mut self, now: i64) -> (r: Result<Request, GithubError>)
        requires
            now <= i64::MAX - ASSERTION_LIFETIME,
        ensures
            final(self).key() == old(self).key(),
            final(self).issuer() == old(self).issuer(),
            slot_after(old(self).held(), final(self).held(), old(self).key(), old(self).issuer(), now as int),
            r is Ok <==> token_result(old(self).held(), old(self).key(), old(self).issuer(), now as int) is Some,
            r matches Ok(q) ==> is_bearer_request(
                q,
                Method::Get,
                API_BASE@ + "/app/installations"@,
                token_result(old(self).held(), old(self).key(), old(self).issuer(), now as int)->0,
            ),
            r matches Err(e) ==> e == GithubError::KeyError || e == GithubError::SigningError,
    {
        let url = installations_url();
        self.app_request(Method::Get, url.as_str(), now)
    }

    /// The request fetching installation `installation_id` at `now`.
    pub fn installation_request(&mut self, installation_id: u64, now: i64) -> (r: Result<
        Request,
        GithubError,
    >)
        requires
            now <= i64::MAX - ASSERTION_LIFETIME,
        ensures
            final(self).key() == old(self).key(),
            final(self).issuer() == old(self).issuer(),
            slot_after(old(self).held(), final(self).held(), old(self).key(), old(self).issuer(), now as int),
            r is Ok <==> token_result(old(self).held(), old(self).key(), old(self).issuer(), now as int) is Some,
            r matches Ok(q) ==> is_bearer_request(
                q,
                Method::Get,
                API_BASE@ + "/app/installations/"@ + decimal(installation_id as nat),
                token_result(old(self).held(), old(self).key(), old(self).issuer(), now as int)->0,
            ),
            r matches Err(e) ==> e == GithubError::KeyError || e == GithubError::SigningError,
    {
        let url = installation_url(installation_id);
        self.app_request(Method::Get, url.as_str(), now)
    }
}

impl Clone for App {
    /// A copy with the same key, id and held assertion.
    fn clone(&self) -> (r: App)
        ensures
            r.key() == self.key(),
            r.issuer() == self.issuer(),
            r.held() == self.held(),
    {
        App { json_web_token: self.json_web_token.clone() }
    }
}

} // verus!
