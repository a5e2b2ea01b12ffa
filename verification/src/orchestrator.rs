//! The driver of one login attempt, as a pure state machine.
//!
//! The machine decides; its caller performs. Each step takes the current
//! state and one event — a response arrived, a credential was collected, the
//! user chose a provider or typed a token — and returns the next state and
//! the one action to perform next. Network, prompting and key derivation
//! happen outside; every decision in between is verified here, including the
//! cap on second-factor submissions.

use vstd::prelude::*;

use crate::api::{LoginResult, Session};
use crate::error::LoginError;
use crate::kdf::{KdfConfig, spec_costs_acceptable, spec_params_present};
use crate::provider::{TwoFactorProvider, TwoFactorVerification, spec_token_format_ok};

verus! {

/// The cap on second-factor token submissions in one attempt; when the
/// identity service has rejected this many, the attempt fails rather than
/// loop on.
pub const MAX_SECOND_FACTOR_ATTEMPTS: u32 = 3;

/// The control states of one login attempt. `attempts` counts the
/// second-factor tokens submitted so far in this attempt.
#[derive(Debug, Clone, PartialEq, Eq)]
pub enum LoginState {
    /// Waiting for the credential-collection surface.
    CollectingCredentials,
    /// The prelogin request is out.
    Negotiating,
    /// The KDF descriptor was accepted; key derivation is running.
    Deriving { config: KdfConfig },
    /// A token exchange is out; `provider` names the method of the
    /// second-factor verification it carries, if it carries one.
    Authenticating { attempts: u32, provider: Option<TwoFactorProvider> },
    /// The service demanded a second factor; the user is choosing a method.
    AwaitingProviderChoice { providers: Vec<TwoFactorProvider>, attempts: u32 },
    /// A method is chosen; the user is typing the token.
    AwaitingSecondFactor { provider: TwoFactorProvider, attempts: u32 },
    /// Terminal: the exchange succeeded.
    Authenticated { session: Session },
    /// Terminal: the attempt failed, for exactly this reason.
    Failed { error: LoginError },
}

/// What the driver reports back into the machine.
#[derive(Debug, Clone, PartialEq, Eq)]
pub enum LoginEvent {
    /// The credential surface has email and password in hand.
    CredentialsCollected,
    /// The prelogin response decoded to a KDF descriptor.
    PreloginSucceeded { config: KdfConfig },
    /// Prelogin failed: transport, protocol or unsupported-KDF.
    PreloginFailed { error: LoginError },
    /// The master key and both verification hashes are computed.
    KeysDerived,
    /// Key derivation failed.
    DerivationFailed { error: LoginError },
    /// A token exchange came back interpreted as success or challenge.
    ExchangeCompleted { result: LoginResult },
    /// A token exchange came back interpreted as a failure.
    ExchangeFailed { error: LoginError },
    /// The user chose a second-factor method.
    ProviderChosen { provider: TwoFactorProvider },
    /// The user typed a candidate second-factor token.
    TokenEntered { token: String },
}

/// What the machine asks the driver to do next. `Wait` means there is
/// nothing to perform: either the attempt is over, or the event did not
/// belong to the current state and was ignored.
#[derive(Debug, Clone, PartialEq, Eq)]
pub enum LoginAction {
    CollectCredentials,
    SendPrelogin,
    DeriveKeys,
    SendTokenRequest { two_factor: Option<TwoFactorVerification> },
    ChooseProvider,
    PromptToken { provider: TwoFactorProvider },
    Wait,
}

/// A provider this client can see a challenge through: the two with
/// implemented instructions and token prompts.
pub open spec fn spec_provider_supported(p: TwoFactorProvider) -> bool {
    p == TwoFactorProvider::Authenticator || p == TwoFactorProvider::Email
}

/// The entire transition relation of the machine, one arm per meaningful
/// (state, event) pair; every other pair leaves the state alone and asks for
/// nothing.
pub open spec fn spec_transition(state: LoginState, event: LoginEvent) -> (LoginState, LoginAction) {
    match (state, event) {
        (LoginState::CollectingCredentials, LoginEvent::CredentialsCollected) => (
            LoginState::Negotiating,
            LoginAction::SendPrelogin,
        ),
        (LoginState::Negotiating, LoginEvent::PreloginSucceeded { config }) => {
            if !spec_params_present(config) {
                (LoginState::Failed { error: LoginError::UnsupportedKdf }, LoginAction::Wait)
            } else if !spec_costs_acceptable(config) {
                (LoginState::Failed { error: LoginError::DerivationFailure }, LoginAction::Wait)
            } else {
                (LoginState::Deriving { config }, LoginAction::DeriveKeys)
            }
        },
        (LoginState::Negotiating, LoginEvent::PreloginFailed { error }) => (
            LoginState::Failed { error },
            LoginAction::Wait,
        ),
        (LoginState::Deriving { .. }, LoginEvent::KeysDerived) => (
            LoginState::Authenticating { attempts: 0, provider: None },
            LoginAction::SendTokenRequest { two_factor: None },
        ),
        (LoginState::Deriving { .. }, LoginEvent::DerivationFailed { error }) => (
            LoginState::Failed { error },
            LoginAction::Wait,
        ),
        (
            LoginState::Authenticating { .. },
            LoginEvent::ExchangeCompleted { result: LoginResult::Success(session) },
        ) => (LoginState::Authenticated { session }, LoginAction::Wait),
        (
            LoginState::Authenticating { attempts, .. },
            LoginEvent::ExchangeCompleted { result: LoginResult::NeedsTwoFactor(providers) },
        ) => {
            if providers@.len() == 0 {
                (
                    LoginState::Failed { error: LoginError::UnsupportedSecondFactorProvider },
                    LoginAction::Wait,
                )
            } else {
                (
                    LoginState::AwaitingProviderChoice { providers, attempts },
                    LoginAction::ChooseProvider,
                )
            }
        },
        (
            LoginState::Authenticating { attempts, provider },
            LoginEvent::ExchangeFailed { error: LoginError::InvalidSecondFactorToken },
        ) => {
            match provider {
                None => (
                    LoginState::Failed { error: LoginError::InvalidSecondFactorToken },
                    LoginAction::Wait,
                ),
                Some(p) => {
                    if attempts >= MAX_SECOND_FACTOR_ATTEMPTS {
                        (
                            LoginState::Failed { error: LoginError::TooManySecondFactorAttempts },
                            LoginAction::Wait,
                        )
                    } else {
                        (
                            LoginState::AwaitingSecondFactor { provider: p, attempts },
                            LoginAction::PromptToken { provider: p },
                        )
                    }
                },
            }
        },
        (LoginState::Authenticating { .. }, LoginEvent::ExchangeFailed { error }) => (
            LoginState::Failed { error },
            LoginAction::Wait,
        ),
        (
            LoginState::AwaitingProviderChoice { providers, attempts },
            LoginEvent::ProviderChosen { provider },
        ) => {
            if !providers@.contains(provider) || !spec_provider_supported(provider) {
                (
                    LoginState::Failed { error: LoginError::UnsupportedSecondFactorProvider },
                    LoginAction::Wait,
                )
            } else {
                (
                    LoginState::AwaitingSecondFactor { provider, attempts },
                    LoginAction::PromptToken { provider },
                )
            }
        },
        (
            LoginState::AwaitingSecondFactor { provider, attempts },
            LoginEvent::TokenEntered { token },
        ) => {
            if !spec_token_format_ok(token@) {
                (
                    LoginState::AwaitingSecondFactor { provider, attempts },
                    LoginAction::PromptToken { provider },
                )
            } else if attempts >= MAX_SECOND_FACTOR_ATTEMPTS {
                (
                    LoginState::Failed { error: LoginError::TooManySecondFactorAttempts },
                    LoginAction::Wait,
                )
            } else {
                (
                    LoginState::Authenticating {
                        attempts: (attempts + 1) as u32,
                        provider: Some(provider),
                    },
                    LoginAction::SendTokenRequest {
                        two_factor: Some(TwoFactorVerification { token, provider }),
                    },
                )
            }
        },
        (s, _) => (s, LoginAction::Wait),
    }
}

/// Begin a login attempt: collect the credentials first.
pub fn start() -> (r: (LoginState, LoginAction))
    ensures
        r == (LoginState::CollectingCredentials, LoginAction::CollectCredentials),
{
    (LoginState::CollectingCredentials, LoginAction::CollectCredentials)
}

/// Advance the machine by one event, exactly as [`spec_transition`] says.
pub fn transition(state: LoginState, event: LoginEvent) -> (r: (LoginState, LoginAction))
    ensures
        r == spec_transition(state, event),
{
    match (state, event) {
        (LoginState::CollectingCredentials, LoginEvent::CredentialsCollected) => (
            LoginState::Negotiating,
            LoginAction::SendPrelogin,
        ),
        (LoginState::Negotiating, LoginEvent::PreloginSucceeded { config }) => {
            if !config.params_present() {
                (LoginState::Failed { error: LoginError::UnsupportedKdf }, LoginAction::Wait)
            } else if !config.costs_acceptable() {
                (LoginState::Failed { error: LoginError::DerivationFailure }, LoginAction::Wait)
            } else {
                (LoginState::Deriving { config }, LoginAction::DeriveKeys)
            }
        },
        (LoginState::Negotiating, LoginEvent::PreloginFailed { error }) => (
            LoginState::Failed { error },
            LoginAction::Wait,
        ),
        (LoginState::Deriving { .. }, LoginEvent::KeysDerived) => (
            LoginState::Authenticating { attempts: 0, provider: None },
            LoginAction::SendTokenRequest { two_factor: None },
        ),
        (LoginState::Deriving { .. }, LoginEvent::DerivationFailed { error }) => (
            LoginState::Failed { error },
            LoginAction::Wait,
        ),
        (
            LoginState::Authenticating { .. },
            LoginEvent::ExchangeCompleted { result: LoginResult::Success(session) },
        ) => (LoginState::Authenticated { session }, LoginAction::Wait),
        (
            LoginState::Authenticating { attempts, .. },
            LoginEvent::ExchangeCompleted { result: LoginResult::NeedsTwoFactor(providers) },
        ) => {
            if providers.len() == 0 {
                (
                    LoginState::Failed { error: LoginError::UnsupportedSecondFactorProvider },
                    LoginAction::Wait,
                )
            } else {
                (
                    LoginState::AwaitingProviderChoice { providers, attempts },
                    LoginAction::ChooseProvider,
                )
            }
        },
        (
            LoginState::Authenticating { attempts, provider },
            LoginEvent::ExchangeFailed { error: LoginError::InvalidSecondFactorToken },
        ) => {
            match provider {
                None => (
                    LoginState::Failed { error: LoginError::InvalidSecondFactorToken },
                    LoginAction::Wait,
                ),
                Some(p) => {
                    if attempts >= MAX_SECOND_FACTOR_ATTEMPTS {
                        (
                            LoginState::Failed { error: LoginError::TooManySecondFactorAttempts },
                            LoginAction::Wait,
                        )
                    } else {
                        (
                            LoginState::AwaitingSecondFactor { provider: p, attempts },
                            LoginAction::PromptToken { provider: p },
                        )
                    }
                },
            }
        },
        (LoginState::Authenticating { .. }, LoginEvent::ExchangeFailed { error }) => (
            LoginState::Failed { error },
            LoginAction::Wait,
        ),
        (
            LoginState::AwaitingProviderChoice { providers, attempts },
            LoginEvent::ProviderChosen { provider },
        ) => {
            if !provider_in_list(provider, &providers) || !provider_supported(provider) {
                (
                    LoginState::Failed { error: LoginError::UnsupportedSecondFactorProvider },
                    LoginAction::Wait,
                )
            } else {
                (
                    LoginState::AwaitingSecondFactor { provider, attempts },
                    LoginAction::PromptToken { provider },
                )
            }
        },
        (
            LoginState::AwaitingSecondFactor { provider, attempts },
            LoginEvent::TokenEntered { token },
        ) => {
            if !crate::provider::token_format_ok(token.as_str()) {
                (
                    LoginState::AwaitingSecondFactor { provider, attempts },
                    LoginAction::PromptToken { provider },
                )
            } else if attempts >= MAX_SECOND_FACTOR_ATTEMPTS {
                (
                    LoginState::Failed { error: LoginError::TooManySecondFactorAttempts },
                    LoginAction::Wait,
                )
            } else {
                (
                    LoginState::Authenticating { attempts: attempts + 1, provider: Some(provider) },
                    LoginAction::SendTokenRequest {
                        two_factor: Some(TwoFactorVerification { token, provider }),
                    },
                )
            }
        },
        (s, _) => (s, LoginAction::Wait),
    }
}

/// Exec mirror of [`spec_provider_supported`].
fn provider_supported(p: TwoFactorProvider) -> (r: bool)
    ensures
        r == spec_provider_supported(p),
{
    match p {
        TwoFactorProvider::Authenticator => true,
        TwoFactorProvider::Email => true,
        _ => false,
    }
}

/// Whether the chosen provider was among the offered ones.
fn provider_in_list(p: TwoFactorProvider, list: &Vec<TwoFactorProvider>) -> (r: bool)
    ensures
        r == list@.contains(p),
{
    let n = list.len();
    let mut i: usize = 0;
    while i < n
        invariant
            n == list@.len(),
            0 <= i <= n,
            forall|j: int| 0 <= j < i ==> list@[j] != p,
        decreases n - i,
    {
        if list[i] == p {
            return true;
        }
        i = i + 1;
    }
    false
}

/// The event every rejected second-factor submission comes back as.
pub open spec fn spec_invalid_token_event() -> LoginEvent {
    LoginEvent::ExchangeFailed { error: LoginError::InvalidSecondFactorToken }
}

/// Law: the second-factor loop is bounded. From a fresh challenge, three
/// well-formed token submissions each rejected as invalid end the attempt
/// with `TooManySecondFactorAttempts`, and the machine asks for no fourth
/// exchange — each submission did go out, and after the third rejection the
/// action is to do nothing.
pub proof fn lemma_second_factor_retries_capped(
    p: TwoFactorProvider,
    t1: String,
    t2: String,
    t3: String,
)
    requires
        spec_token_format_ok(t1@),
        spec_token_format_ok(t2@),
        spec_token_format_ok(t3@),
    ensures
        ({
            let s0 = LoginState::AwaitingSecondFactor { provider: p, attempts: 0 };
            let r1 = spec_transition(s0, LoginEvent::TokenEntered { token: t1 });
            let r2 = spec_transition(r1.0, spec_invalid_token_event());
            let r3 = spec_transition(r2.0, LoginEvent::TokenEntered { token: t2 });
            let r4 = spec_transition(r3.0, spec_invalid_token_event());
            let r5 = spec_transition(r4.0, LoginEvent::TokenEntered { token: t3 });
            let r6 = spec_transition(r5.0, spec_invalid_token_event());
            &&& (r1.1 matches LoginAction::SendTokenRequest { .. })
            &&& (r3.1 matches LoginAction::SendTokenRequest { .. })
            &&& (r5.1 matches LoginAction::SendTokenRequest { .. })
            &&& r6.0 == (LoginState::Failed { error: LoginError::TooManySecondFactorAttempts })
            &&& r6.1 == LoginAction::Wait
        }),
{
}

} // verus!
