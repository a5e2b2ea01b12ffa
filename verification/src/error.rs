//! The failure taxonomy of a login attempt.
//!
//! Every failure is terminal for the current attempt. The credential and
//! second-factor cases each carry a distinct message, so a user knows whether
//! to re-enter the password, re-enter a code, or check connectivity.

use vstd::prelude::*;

verus! {

/// Everything that can go wrong during a login attempt.
#[derive(Debug, Clone, PartialEq, Eq)]
pub enum LoginError {
    /// Network, DNS or TLS failure while talking to the identity service.
    TransportFailure { detail: String },
    /// The identity service answered with a malformed or unexpected response;
    /// carries the raw status and body for diagnostics.
    ProtocolFailure { status: u16, detail: String },
    /// The prelogin response named an unknown KDF kind, or left out a
    /// parameter that the named kind requires.
    UnsupportedKdf,
    /// The identity service rejected the username/password pair.
    InvalidCredentials,
    /// The identity service rejected the submitted second-factor token.
    InvalidSecondFactorToken,
    /// The chosen second-factor method cannot be completed by this client.
    UnsupportedSecondFactorProvider,
    /// The retry cap on second-factor token submissions was reached.
    TooManySecondFactorAttempts,
    /// A cryptographic primitive rejected its parameters.
    DerivationFailure,
}

/// The one user-facing message of each failure kind.
pub open spec fn spec_message(e: LoginError) -> Seq<char> {
    match e {
        LoginError::TransportFailure { .. } => "Could not reach the identity service"@,
        LoginError::ProtocolFailure { .. } => "Unexpected response from the identity service"@,
        LoginError::UnsupportedKdf => "The account uses a key derivation setup this client does not support"@,
        LoginError::InvalidCredentials => "Username or password is incorrect"@,
        LoginError::InvalidSecondFactorToken => "Two-factor token is invalid"@,
        LoginError::UnsupportedSecondFactorProvider => "Two-step login method is not supported by this client"@,
        LoginError::TooManySecondFactorAttempts => "Too many second-factor attempts"@,
        LoginError::DerivationFailure => "Key derivation failed: invalid parameters"@,
    }
}

impl LoginError {
    /// Each failure kind maps to one distinct, specific message.
    pub fn message(&self) -> (r: String)
        ensures
            r@ == spec_message(*self),
    {
        match self {
            LoginError::TransportFailure { .. } => "Could not reach the identity service".to_owned(),
            LoginError::ProtocolFailure { .. } => "Unexpected response from the identity service".to_owned(),
            LoginError::UnsupportedKdf => "The account uses a key derivation setup this client does not support".to_owned(),
            LoginError::InvalidCredentials => "Username or password is incorrect".to_owned(),
            LoginError::InvalidSecondFactorToken => "Two-factor token is invalid".to_owned(),
            LoginError::UnsupportedSecondFactorProvider => "Two-step login method is not supported by this client".to_owned(),
            LoginError::TooManySecondFactorAttempts => "Too many second-factor attempts".to_owned(),
            LoginError::DerivationFailure => "Key derivation failed: invalid parameters".to_owned(),
        }
    }
}

} // verus!
