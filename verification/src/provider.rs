//! The closed catalogue of second-factor verification methods.
//!
//! Each provider carries a numeric wire code. On the request path it is sent
//! as that number; on the response path the identity service is inconsistent
//! and answers with either a number or a numeric string, so decoding accepts
//! exactly those two shapes and rejects everything else as an
//! unknown-provider error — including codes outside the catalogue.

use vstd::prelude::*;
use vstd::string::StrSliceExecFns;

use crate::error::LoginError;

verus! {

/// The second-factor methods the protocol defines, in wire-code order.
#[derive(Debug, Clone, Copy, PartialEq, Eq, Structural)]
pub enum TwoFactorProvider {
    Authenticator,
    Email,
    Duo,
    Yubikey,
    U2f,
    Remember,
    OrganizationDuo,
    WebAuthn,
}

/// The numeric wire code of each provider.
pub open spec fn spec_wire_code(p: TwoFactorProvider) -> u64 {
    match p {
        TwoFactorProvider::Authenticator => 0,
        TwoFactorProvider::Email => 1,
        TwoFactorProvider::Duo => 2,
        TwoFactorProvider::Yubikey => 3,
        TwoFactorProvider::U2f => 4,
        TwoFactorProvider::Remember => 5,
        TwoFactorProvider::OrganizationDuo => 6,
        TwoFactorProvider::WebAuthn => 7,
    }
}

/// The provider a wire code in the catalogue decodes to.
pub open spec fn spec_provider_of_code(v: u64) -> TwoFactorProvider
    recommends
        v <= 7,
{
    if v == 0 {
        TwoFactorProvider::Authenticator
    } else if v == 1 {
        TwoFactorProvider::Email
    } else if v == 2 {
        TwoFactorProvider::Duo
    } else if v == 3 {
        TwoFactorProvider::Yubikey
    } else if v == 4 {
        TwoFactorProvider::U2f
    } else if v == 5 {
        TwoFactorProvider::Remember
    } else if v == 6 {
        TwoFactorProvider::OrganizationDuo
    } else {
        TwoFactorProvider::WebAuthn
    }
}

/// A one-character string of a digit `'0'..='7'` decodes to the provider of
/// that digit; every other string is rejected.
pub open spec fn spec_provider_of_wire_str(s: Seq<char>) -> Option<TwoFactorProvider> {
    if s.len() == 1 && 48 <= s[0] as u32 <= 55 {
        Some(spec_provider_of_code((s[0] as u32 - 48) as u64))
    } else {
        None
    }
}

/// A value in the position of a provider code in a response body: the wire
/// may carry a number or a string there; anything else is kept only as the
/// fact of its presence.
#[derive(Debug, Clone, PartialEq, Eq)]
pub enum WireValue {
    Num(u64),
    Text(String),
    Other,
}

/// The single decoder for both wire representations of a provider code:
/// a number in the catalogue, or a one-digit numeric string; everything else
/// is an unknown provider.
pub open spec fn spec_decode_wire_value(v: WireValue) -> Option<TwoFactorProvider> {
    match v {
        WireValue::Num(n) => if n <= 7 {
            Some(spec_provider_of_code(n))
        } else {
            None
        },
        WireValue::Text(s) => spec_provider_of_wire_str(s@),
        WireValue::Other => None,
    }
}

impl TwoFactorProvider {
    /// The numeric code this provider serializes to on the request path.
    pub fn wire_code(&self) -> (r: u64)
        ensures
            r == spec_wire_code(*self),
    {
        match self {
            TwoFactorProvider::Authenticator => 0,
            TwoFactorProvider::Email => 1,
            TwoFactorProvider::Duo => 2,
            TwoFactorProvider::Yubikey => 3,
            TwoFactorProvider::U2f => 4,
            TwoFactorProvider::Remember => 5,
            TwoFactorProvider::OrganizationDuo => 6,
            TwoFactorProvider::WebAuthn => 7,
        }
    }

    /// The wire code as the decimal digit a form field carries.
    pub fn wire_code_str(&self) -> (r: &'static str)
        ensures
            r@ == spec_wire_code_str(*self),
    {
        match self {
            TwoFactorProvider::Authenticator => "0",
            TwoFactorProvider::Email => "1",
            TwoFactorProvider::Duo => "2",
            TwoFactorProvider::Yubikey => "3",
            TwoFactorProvider::U2f => "4",
            TwoFactorProvider::Remember => "5",
            TwoFactorProvider::OrganizationDuo => "6",
            TwoFactorProvider::WebAuthn => "7",
        }
    }

    /// Decode a numeric wire code; a code outside the catalogue is an
    /// unknown provider, never defaulted.
    pub fn from_wire_code(v: u64) -> (r: Result<Self, LoginError>)
        ensures
            r is Ok <==> v <= 7,
            r is Ok ==> r->Ok_0 == spec_provider_of_code(v),
            r is Err ==> r->Err_0 == LoginError::UnsupportedSecondFactorProvider,
    {
        match v {
            0 => Ok(TwoFactorProvider::Authenticator),
            1 => Ok(TwoFactorProvider::Email),
            2 => Ok(TwoFactorProvider::Duo),
            3 => Ok(TwoFactorProvider::Yubikey),
            4 => Ok(TwoFactorProvider::U2f),
            5 => Ok(TwoFactorProvider::Remember),
            6 => Ok(TwoFactorProvider::OrganizationDuo),
            7 => Ok(TwoFactorProvider::WebAuthn),
            _ => Err(LoginError::UnsupportedSecondFactorProvider),
        }
    }

    /// Decode the numeric-string representation some responses carry.
    pub fn from_wire_str(s: &str) -> (r: Result<Self, LoginError>)
        ensures
            r is Ok <==> spec_provider_of_wire_str(s@) is Some,
            r is Ok ==> Some(r->Ok_0) == spec_provider_of_wire_str(s@),
            r is Err ==> r->Err_0 == LoginError::UnsupportedSecondFactorProvider,
    {
        if s.unicode_len() != 1 {
            return Err(LoginError::UnsupportedSecondFactorProvider);
        }
        let c = s.get_char(0);
        let u = c as u32;
        if 48 <= u && u <= 55 {
            Self::from_wire_code((u - 48) as u64)
        } else {
            Err(LoginError::UnsupportedSecondFactorProvider)
        }
    }

    /// Decode either wire representation with one parser; anything that is
    /// neither a catalogued number nor a one-digit numeric string is an
    /// unknown provider.
    pub fn from_wire_value(v: &WireValue) -> (r: Result<Self, LoginError>)
        ensures
            r is Ok <==> spec_decode_wire_value(*v) is Some,
            r is Ok ==> Some(r->Ok_0) == spec_decode_wire_value(*v),
            r is Err ==> r->Err_0 == LoginError::UnsupportedSecondFactorProvider,
    {
        match v {
            WireValue::Num(n) => Self::from_wire_code(*n),
            WireValue::Text(s) => Self::from_wire_str(s.as_str()),
            WireValue::Other => Err(LoginError::UnsupportedSecondFactorProvider),
        }
    }

    /// The human-readable prompt of a provider this client can complete; a
    /// provider without implemented instructions reports an explicit
    /// unsupported-provider condition instead of silently succeeding.
    pub fn instructions(&self) -> (r: Result<&'static str, LoginError>)
        ensures
            r is Ok <==> (*self == TwoFactorProvider::Authenticator || *self == TwoFactorProvider::Email),
            *self == TwoFactorProvider::Authenticator
                ==> r->Ok_0@ == "Enter the 6 digit verification code from your authenticator app"@,
            *self == TwoFactorProvider::Email
                ==> r->Ok_0@ == "Enter the 6 digit verification code you recieved via email"@,
            r is Err ==> r->Err_0 == LoginError::UnsupportedSecondFactorProvider,
    {
        match self {
            TwoFactorProvider::Authenticator => Ok(
                "Enter the 6 digit verification code from your authenticator app",
            ),
            TwoFactorProvider::Email => Ok(
                "Enter the 6 digit verification code you recieved via email",
            ),
            _ => Err(LoginError::UnsupportedSecondFactorProvider),
        }
    }

    /// The display name of every provider in the catalogue.
    pub fn name(&self) -> (r: &'static str)
        ensures
            r@ == spec_name(*self),
    {
        match self {
            TwoFactorProvider::Authenticator => "Authenticator app",
            TwoFactorProvider::Email => "Email verification",
            TwoFactorProvider::Duo => "Duo",
            TwoFactorProvider::Yubikey => "Yubikey",
            TwoFactorProvider::U2f => "U2f",
            TwoFactorProvider::Remember => "Remember",
            TwoFactorProvider::OrganizationDuo => "Organization Duo",
            TwoFactorProvider::WebAuthn => "Web authentication",
        }
    }

    /// Run the provider-specific pre-step before the user is prompted: a
    /// no-op for the authenticator app; a provider whose pre-step this client
    /// has not implemented fails loudly, distinguishably from a transport
    /// error.
    pub fn prepare_provider(&self) -> (r: Result<(), LoginError>)
        ensures
            r is Ok <==> *self == TwoFactorProvider::Authenticator,
            r is Err ==> r->Err_0 == LoginError::UnsupportedSecondFactorProvider,
    {
        match self {
            TwoFactorProvider::Authenticator => Ok(()),
            _ => Err(LoginError::UnsupportedSecondFactorProvider),
        }
    }
}

/// The wire code of each provider, as the one-character string a form field
/// carries.
pub open spec fn spec_wire_code_str(p: TwoFactorProvider) -> Seq<char> {
    match p {
        TwoFactorProvider::Authenticator => "0"@,
        TwoFactorProvider::Email => "1"@,
        TwoFactorProvider::Duo => "2"@,
        TwoFactorProvider::Yubikey => "3"@,
        TwoFactorProvider::U2f => "4"@,
        TwoFactorProvider::Remember => "5"@,
        TwoFactorProvider::OrganizationDuo => "6"@,
        TwoFactorProvider::WebAuthn => "7"@,
    }
}

/// The display name of each provider.
pub open spec fn spec_name(p: TwoFactorProvider) -> Seq<char> {
    match p {
        TwoFactorProvider::Authenticator => "Authenticator app"@,
        TwoFactorProvider::Email => "Email verification"@,
        TwoFactorProvider::Duo => "Duo"@,
        TwoFactorProvider::Yubikey => "Yubikey"@,
        TwoFactorProvider::U2f => "U2f"@,
        TwoFactorProvider::Remember => "Remember"@,
        TwoFactorProvider::OrganizationDuo => "Organization Duo"@,
        TwoFactorProvider::WebAuthn => "Web authentication"@,
    }
}

/// Law: the wire mapping round-trips. Every provider's code lies in the
/// catalogue and decodes back to the same provider, both as a number and as
/// a numeric string.
pub proof fn lemma_wire_code_round_trip(p: TwoFactorProvider)
    ensures
        spec_wire_code(p) <= 7,
        spec_provider_of_code(spec_wire_code(p)) == p,
        spec_decode_wire_value(WireValue::Num(spec_wire_code(p))) == Some(p),
{
}

/// A second-factor token is exactly six ASCII digits.
pub open spec fn spec_token_format_ok(t: Seq<char>) -> bool {
    t.len() == 6 && (forall|i: int| 0 <= i < 6 ==> 48 <= #[trigger] (t[i] as u32) <= 57)
}

/// Whether a candidate token has the shape the prompt contract demands:
/// exactly six ASCII digits. The prompt re-asks until this holds or the user
/// aborts.
pub fn token_format_ok(token: &str) -> (r: bool)
    ensures
        r == spec_token_format_ok(token@),
{
    let n = token.unicode_len();
    if n != 6 {
        return false;
    }
    let mut i: usize = 0;
    while i < 6
        invariant
            0 <= i <= 6,
            token@.len() == 6,
            forall|j: int| 0 <= j < i ==> 48 <= #[trigger] (token@[j] as u32) <= 57,
        decreases 6 - i,
    {
        let u = token.get_char(i) as u32;
        if u < 48 || u > 57 {
            return false;
        }
        i = i + 1;
    }
    true
}

/// A verification constructed after a challenge: the user's token and the
/// provider it answers, attached to exactly one retried login request.
#[derive(Debug, Clone, PartialEq, Eq)]
pub struct TwoFactorVerification {
    pub token: String,
    pub provider: TwoFactorProvider,
}

} // verus!
