use vstd::prelude::*;

use jsonwebtoken::errors::ErrorKind;
use jsonwebtoken::{Algorithm, EncodingKey, Header};
use serde_json::Value;

use crate::clock::{now_seconds, LATEST_SECONDS};
use crate::credential::{text_of, usable_value, usable_value_of, Credential, Deadline};
use crate::error::GithubError;

verus! {

/// How long, in seconds, a signed assertion stays valid after it is issued.
pub const ASSERTION_LIFETIME: i64 = 600;

/// The outcome of signing the claims issued-at `iat`, expiry `exp` and issuer
/// `iss` with RS256 under the DER-encoded RSA key `key`: the compact token, or
/// `None` where signing fails.
pub uninterp spec fn rs256_signing(key: Seq<u8>, iat: i64, exp: i64, iss: Seq<char>) -> Option<
    Seq<char>,
>;

/// Relies on `jsonwebtoken::encode` with an RS256 header, the claims `iat`,
/// `exp` and `iss`, and `EncodingKey::from_rsa_der`: whether it succeeds and
/// the token it gives depend on these inputs alone (RSASSA-PKCS1-v1_5
/// signatures are deterministic). A key that cannot be parsed comes back as
/// `InvalidRsaKey`, reported here as a key error; every other failure is a
/// signing error.
#[verifier::external_body]
fn encode_rs256(key: &[u8], iat: i64, exp: i64, iss: &str) -> (r: Result<String, GithubError>)
    ensures
        r is Ok <==> rs256_signing(key@, iat, exp, iss@) is Some,
        r matches Ok(t) ==> rs256_signing(key@, iat, exp, iss@) == Some(t@),
        r matches Err(e) ==> e == GithubError::KeyError || e == GithubError::SigningError,
{
    let mut claims = serde_json::Map::new();
    claims.insert("iat".to_string(), Value::from(iat));
    claims.insert("exp".to_string(), Value::from(exp));
    claims.insert("iss".to_string(), Value::from(iss));
    let key = EncodingKey::from_rsa_der(key);
    match jsonwebtoken::encode(&Header::new(Algorithm::RS256), &claims, &key) {
        Ok(t) => Ok(t),
        Err(e) => match e.kind() {
            ErrorKind::InvalidRsaKey(_) => Err(GithubError::KeyError),
            _ => Err(GithubError::SigningError),
        },
    }
}

/// The token signed with `key` for issuer `iss` at `now`, expiring
/// `ASSERTION_LIFETIME` seconds later, or `None` where signing fails.
pub open spec fn signed_at(key: Seq<u8>, iss: Seq<char>, now: int) -> Option<Seq<char>> {
    rs256_signing(key, now as i64, (now + ASSERTION_LIFETIME) as i64, iss)
}

/// `c` is an assertion signed with `key` for issuer `iss`, issued exactly
/// `ASSERTION_LIFETIME` seconds before it expires.
pub open spec fn is_assertion_for(key: Seq<u8>, iss: Seq<char>, c: Credential) -> bool {
    rs256_signing(key, (c.expires_at - ASSERTION_LIFETIME) as i64, c.expires_at, iss) == Some(
        c.value@,
    )
}

/// A cache slot holds nothing, or an assertion for this key and issuer.
pub open spec fn holds_assertion_for(key: Seq<u8>, iss: Seq<char>, slot: Option<Credential>) -> bool {
    slot matches Some(c) ==> is_assertion_for(key, iss, c)
}

/// The assertion handed out at `now` by a cache holding `held`: the held one
/// while it expires after `now`, else a newly signed one, if signing succeeds.
pub open spec fn token_result(held: Option<Credential>, key: Seq<u8>, iss: Seq<char>, now: int) -> Option<
    Seq<char>,
> {
    match usable_value(held, now, Deadline::Exclusive) {
        Some(v) => Some(v),
        None => signed_at(key, iss, now),
    }
}

/// A request for an assertion at `now`, on a cache holding `held` before and
/// `after` afterwards, returned `r`: the assertion of `token_result`; the held
/// one is kept while valid; an expired or absent one is replaced by the newly
/// signed one, expiring `ASSERTION_LIFETIME` seconds after `now`; a failed
/// signing changes nothing.
pub open spec fn token_outcome(
    held: Option<Credential>,
    after: Option<Credential>,
    key: Seq<u8>,
    iss: Seq<char>,
    now: int,
    r: Result<String, GithubError>,
) -> bool {
    &&& r is Ok <==> token_result(held, key, iss, now) is Some
    &&& r is Ok ==> token_result(held, key, iss, now) == Some(r->Ok_0@)
    &&& r is Err ==> (r->Err_0 == GithubError::KeyError || r->Err_0 == GithubError::SigningError)
    &&& slot_after(held, after, key, iss, now)
}

/// What a cache holding `held` holds after a request for an assertion at
/// `now`: the same while the held one is valid or signing fails, else the
/// newly signed assertion, expiring `ASSERTION_LIFETIME` seconds after `now`.
pub open spec fn slot_after(
    held: Option<Credential>,
    after: Option<Credential>,
    key: Seq<u8>,
    iss: Seq<char>,
    now: int,
) -> bool {
    if usable_value(held, now, Deadline::Exclusive) is Some || signed_at(key, iss, now) is None {
        after == held
    } else {
        &&& after is Some
        &&& signed_at(key, iss, now) == Some(after->0.value@)
        &&& after->0.expires_at == now + ASSERTION_LIFETIME
    }
}

/// An application identity and the signed assertion last generated for it.
///
/// A value is shared between threads behind a reader-writer lock: readers
/// take `usable_assertion` under the read lock, and only a reader that finds
/// no valid assertion takes the write lock to call `token_at`.
pub struct JsonWebToken {
    private_key: Vec<u8>,
    application_id: String,
    current: Option<Credential>,
}

impl JsonWebToken {
    #[verifier::type_invariant]
    spec fn wf(self) -> bool {
        holds_assertion_for(self.private_key@, self.application_id@, self.current)
    }

    /// The DER-encoded RSA private key that signs the assertions.
    pub closed spec fn key(&self) -> Seq<u8> {
        self.private_key@
    }

    /// The application id that the assertions name as their issuer.
    pub closed spec fn issuer(&self) -> Seq<char> {
        self.application_id@
    }

    /// The assertion held, with its expiry.
    pub closed spec fn held(&self) -> Option<Credential> {
        self.current
    }

    /// Signs an assertion issued at `now` for `application_id`; it expires
    /// `ASSERTION_LIFETIME` seconds later.
    pub fn generate_token(private_key: &[u8], application_id: &str, now: i64) -> (r: Result<
        Credential,
        GithubError,
    >)
        requires
            now <= i64::MAX - ASSERTION_LIFETIME,
        ensures
            r is Ok <==> signed_at(private_key@, application_id@, now as int) is Some,
            r matches Ok(c) ==> c.expires_at == now + ASSERTION_LIFETIME && signed_at(
                private_key@,
                application_id@,
                now as int,
            ) == Some(c.value@),
            r matches Ok(c) ==> is_assertion_for(private_key@, application_id@, c),
            r matches Err(e) ==> e == GithubError::KeyError || e == GithubError::SigningError,
    {
        let expires_at: i64 = now + ASSERTION_LIFETIME;
        let value = encode_rs256(private_key, now, expires_at, application_id)?;
        Ok(Credential { value, expires_at })
    }

    /// Signs a first assertion at `now` and keeps it: a key that cannot sign
    /// is reported here rather than on first use.
    pub fn new_at(private_key: Vec<u8>, application_id: String, now: i64) -> (r: Result<
        JsonWebToken,
        GithubError,
    >)
        requires
            now <= i64::MAX - ASSERTION_LIFETIME,
        ensures
            new_outcome(private_key@, application_id@, now as int, r),
    {
        let first = Self::generate_token(private_key.as_slice(), application_id.as_str(), now)?;
        Ok(JsonWebToken { private_key, application_id, current: Some(first) })
    }

    /// As `new_at`, at the current time.
    pub fn new(private_key: Vec<u8>, application_id: String) -> (r: Result<
        JsonWebToken,
        GithubError,
    >)
        ensures
            exists|now: int|
                0 <= now < LATEST_SECONDS && #[trigger] new_outcome(
                    private_key@,
                    application_id@,
                    now,
                    r,
                ),
    {
        let now = now_seconds();
        Self::new_at(private_key, application_id, now)
    }

    /// The held assertion, if it is still valid at `now`; whatever it holds
    /// is an assertion for this key and issuer.
    pub fn usable_assertion(&self, now: i64) -> (r: Option<String>)
        ensures
            text_of(r) == usable_value(self.held(), now as int, Deadline::Exclusive),
            holds_assertion_for(self.key(), self.issuer(), self.held()),
    {
        proof {
            use_type_invariant(self);
        }
        usable_value_of(&self.current, now, Deadline::Exclusive)
    }

    /// Whether the held assertion is expired at `now`: it is unless its
    /// expiry is strictly after `now`.
    pub fn is_expired_at(&self, now: i64) -> (r: bool)
        ensures
            r == (usable_value(self.held(), now as int, Deadline::Exclusive) is None),
    {
        match &self.current {
            Some(c) => !c.is_usable_at(now, Deadline::Exclusive),
            None => true,
        }
    }

    /// As `is_expired_at`, at the current time.
    pub fn is_expired(&self) -> (r: bool)
        ensures
            exists|now: int|
                0 <= now < LATEST_SECONDS && r == (#[trigger] usable_value(
                    self.held(),
                    now,
                    Deadline::Exclusive,
                ) is None),
    {
        let now = now_seconds();
        self.is_expired_at(now)
    }

    /// Signs a new assertion at `now` and stores it in place of the held one;
    /// where signing fails the held one stays.
    pub fn renew_token_at(&mut self, now: i64) -> (r: Result<(), GithubError>)
        requires
            now <= i64::MAX - ASSERTION_LIFETIME,
        ensures
            final(self).key() == old(self).key(),
            final(self).issuer() == old(self).issuer(),
            r is Ok <==> signed_at(old(self).key(), old(self).issuer(), now as int) is Some,
            r is Ok ==> (final(self).held() matches Some(c) && signed_at(
                old(self).key(),
                old(self).issuer(),
                now as int,
            ) == Some(c.value@) && c.expires_at == now + ASSERTION_LIFETIME),
            r matches Err(e) ==> final(self).held() == old(self).held() && (e
                == GithubError::KeyError || e == GithubError::SigningError),
    {
        let fresh = Self::generate_token(
            self.private_key.as_slice(),
            self.application_id.as_str(),
            now,
        )?;
        self.current = Some(fresh);
        Ok(())
    }

    /// A valid assertion at `now`: the held one while it expires after `now`,
    /// returned without signing; else a newly signed one, which replaces it.
    pub fn token_at(&mut self, now: i64) -> (r: Result<String, GithubError>)
        requires
            now <= i64::MAX - ASSERTION_LIFETIME,
        ensures
            final(self).key() == old(self).key(),
            final(self).issuer() == old(self).issuer(),
            token_outcome(
                old(self).held(),
                final(self).held(),
                old(self).key(),
                old(self).issuer(),
                now as int,
                r,
            ),
    {
        match self.usable_assertion(now) {
            Some(t) => Ok(t),
            None => {
                self.renew_token_at(now)?;
                match &self.current {
                    Some(c) => Ok(c.value.clone()),
                    None => Err(GithubError::SigningError),
                }
            },
        }
    }

    /// As `token_at`, at the current time.
    pub fn token(&mut self) -> (r: Result<String, GithubError>)
        ensures
            final(self).key() == old(self).key(),
            final(self).issuer() == old(self).issuer(),
            exists|now: int|
                0 <= now < LATEST_SECONDS && #[trigger] token_outcome(
                    old(self).held(),
                    final(self).held(),
                    old(self).key(),
                    old(self).issuer(),
                    now,
                    r,
                ),
    {
        let now = now_seconds();
        self.token_at(now)
    }
}

impl Clone for JsonWebToken {
    /// A copy with the same key, id and held assertion.
    fn clone(&self) -> (r: JsonWebToken)
        ensures
            r.key() == self.key(),
            r.issuer() == self.issuer(),
            r.held() == self.held(),
    {
        proof {
            use_type_invariant(self);
        }
        let current = match &self.current {
            Some(c) => Some(Credential { value: c.value.clone(), expires_at: c.expires_at }),
            None => None,
        };
        let private_key = self.private_key.clone();
        assert(private_key@ =~= self.private_key@);
        JsonWebToken { private_key, application_id: self.application_id.clone(), current }
    }
}

/// `new_at` with `key` and `iss` at `now` returned `r`: a cache holding the
/// assertion signed at `now`, or the signing failure.
pub open spec fn new_outcome(
    key: Seq<u8>,
    iss: Seq<char>,
    now: int,
    r: Result<JsonWebToken, GithubError>,
) -> bool {
    &&& r is Ok <==> signed_at(key, iss, now) is Some
    &&& r is Ok ==> {
        let j = r->Ok_0;
        &&& j.key() == key
        &&& j.issuer() == iss
        &&& j.held() is Some
        &&& signed_at(key, iss, now) == Some(j.held()->0.value@)
        &&& j.held()->0.expires_at == now + ASSERTION_LIFETIME
    }
    &&& r is Err ==> (r->Err_0 == GithubError::KeyError || r->Err_0 == GithubError::SigningError)
}

/// Whatever threads interleave, a slot that only ever holds assertions for
/// `key` and `iss` hands out, at any check time, only an assertion for that
/// key and issuer that is still valid then.
pub proof fn lemma_handed_out_assertion_is_valid(
    key: Seq<u8>,
    iss: Seq<char>,
    slot: Option<Credential>,
    now: int,
)
    requires
        holds_assertion_for(key, iss, slot),
    ensures
        usable_value(slot, now, Deadline::Exclusive) matches Some(t) ==> exists|c: Credential|
            #[trigger] is_assertion_for(key, iss, c) && now < c.expires_at && c.value@ == t,
{
    if usable_value(slot, now, Deadline::Exclusive) is Some {
        assert(is_assertion_for(key, iss, slot->0));
    }
}

} // verus!
