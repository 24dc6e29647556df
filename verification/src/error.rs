use vstd::prelude::*;

verus! {

/// Every way in which a login can be refused or fail.
#[derive(Debug)]
pub enum AppError {
    /// The session cookie is missing, unreadable, unknown or expired.
    InvalidSession,
    /// The `state` sent back by the identity provider is not the one the session expects.
    InvalidState,
    /// The OpenID Connect client is not set up to exchange codes.
    ConfigurationError,
    /// The identity provider refused the authorization code.
    InvalidCode,
    /// Neither an ID token nor a user info endpoint could identify the user.
    MissingIdTokenAndUserInfoEndpoint,
    /// Something on this side went wrong.
    InternalServerError,
    /// Authentication context classes are configured, so an ID token is required.
    IdTokenRequired,
    /// The ID token did not pass verification; the text says why.
    InvalidIdTokenNonce(String),
    /// The ID token's authentication context is not one of the configured ones.
    AuthenticationContextWasNotFulfilled,
    /// The ID token's signing algorithm cannot be used to hash the access token.
    UnsupportedSigningAlgorithm,
    /// The key that signed the ID token could not be found.
    InvalidSigningKey,
    /// The ID token carries no access token hash although one is demanded.
    MissingAccessTokenHash,
    /// The access token does not match the hash in the ID token.
    InvalidAccessToken,
    /// The user info endpoint could not be queried.
    UnableToQueryUserInfo,
}

} // verus!
