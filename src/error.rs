use vstd::prelude::*;

verus! {

/// The ways an operation of this library can fail.
#[derive(Debug, Clone, Copy, PartialEq, Eq, Structural)]
pub enum GithubError {
    /// The private key bytes are not a usable RSA key.
    KeyError,
    /// Creating a signed assertion failed for another reason.
    SigningError,
    /// The network or HTTP layer failed.
    TransportError,
    /// The token exchange failed or returned unusable data.
    AuthError,
    /// A response did not have the expected shape.
    DecodeError,
    /// An operation that needs a token was made without one.
    MissingToken,
}

} // verus!
