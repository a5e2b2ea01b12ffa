use bwrs::api::{interpret_login_response, interpret_prelogin_response, LoginResult};
use bwrs::crypto::{auth_hash, derive_master_key, HashPurpose};
use bwrs::error::LoginError;
use bwrs::orchestrator::{
    start, transition, LoginAction, LoginEvent, LoginState, MAX_SECOND_FACTOR_ATTEMPTS,
};
use bwrs::provider::TwoFactorProvider;

#[test]
fn happy_path_reaches_authenticated() {
    let (state, action) = start();
    assert_eq!(action, LoginAction::CollectCredentials);

    let (state, action) = transition(state, LoginEvent::CredentialsCollected);
    assert_eq!(action, LoginAction::SendPrelogin);

    // The service announces PBKDF2 with 600000 rounds.
    let config = interpret_prelogin_response(200, r#"{"kdf":0,"kdfIterations":600000}"#).unwrap();
    let (state, action) = transition(state, LoginEvent::PreloginSucceeded { config: config.clone() });
    assert_eq!(action, LoginAction::DeriveKeys);

    // The driver derives the keys and computes the server hash.
    let master = derive_master_key("correct horse battery", "user@example.com", &config).unwrap();
    let server_hash = auth_hash(&master, "correct horse battery", HashPurpose::ServerAuthorization);
    assert_eq!(server_hash.len(), 32);
    let (state, action) = transition(state, LoginEvent::KeysDerived);
    assert_eq!(action, LoginAction::SendTokenRequest { two_factor: None });

    // Submitting that hash earns a 200 whose body carries the session.
    let body = r#"{"access_token":"session-token-1","token_type":"Bearer"}"#;
    let result = interpret_login_response(200, body).unwrap();
    let (state, action) = transition(state, LoginEvent::ExchangeCompleted { result });
    assert_eq!(action, LoginAction::Wait);
    match state {
        LoginState::Authenticated { session } => {
            assert!(!session.access_token.is_empty());
            assert_eq!(session.access_token, "session-token-1");
        },
        other => panic!("expected authentication, got {other:?}"),
    }
}

#[test]
fn challenge_moves_to_provider_choice_with_exactly_the_offered_providers() {
    let state = LoginState::Authenticating { attempts: 0, provider: None };
    let body = r#"{"error_description":"Two factor required.","TwoFactorProviders":[1]}"#;
    let result = interpret_login_response(400, body).unwrap();
    let (state, action) = transition(state, LoginEvent::ExchangeCompleted { result });
    assert_eq!(action, LoginAction::ChooseProvider);
    match state {
        LoginState::AwaitingProviderChoice { providers, attempts } => {
            assert_eq!(providers, vec![TwoFactorProvider::Email]);
            assert_eq!(attempts, 0);
        },
        other => panic!("expected a provider choice, got {other:?}"),
    }
}

#[test]
fn chosen_provider_must_be_offered_and_supported() {
    let offered = vec![TwoFactorProvider::Email, TwoFactorProvider::Duo];

    // Choosing an offered, supported provider moves to the token prompt.
    let state = LoginState::AwaitingProviderChoice { providers: offered.clone(), attempts: 0 };
    let (state, action) =
        transition(state, LoginEvent::ProviderChosen { provider: TwoFactorProvider::Email });
    assert_eq!(action, LoginAction::PromptToken { provider: TwoFactorProvider::Email });
    assert!(matches!(state, LoginState::AwaitingSecondFactor { .. }));

    // Choosing an offered but unimplemented provider fails distinctly.
    let state = LoginState::AwaitingProviderChoice { providers: offered.clone(), attempts: 0 };
    let (state, _) =
        transition(state, LoginEvent::ProviderChosen { provider: TwoFactorProvider::Duo });
    assert_eq!(
        state,
        LoginState::Failed { error: LoginError::UnsupportedSecondFactorProvider }
    );

    // Choosing a provider that was never offered fails the same way.
    let state = LoginState::AwaitingProviderChoice { providers: offered, attempts: 0 };
    let (state, _) = transition(
        state,
        LoginEvent::ProviderChosen { provider: TwoFactorProvider::Authenticator },
    );
    assert_eq!(
        state,
        LoginState::Failed { error: LoginError::UnsupportedSecondFactorProvider }
    );
}

#[test]
fn malformed_token_is_reprompted_without_costing_an_attempt() {
    let state = LoginState::AwaitingSecondFactor {
        provider: TwoFactorProvider::Authenticator,
        attempts: 0,
    };
    let (state, action) =
        transition(state, LoginEvent::TokenEntered { token: "12345".to_string() });
    assert_eq!(action, LoginAction::PromptToken { provider: TwoFactorProvider::Authenticator });
    assert_eq!(
        state,
        LoginState::AwaitingSecondFactor {
            provider: TwoFactorProvider::Authenticator,
            attempts: 0,
        }
    );
}

fn invalid_token_event() -> LoginEvent {
    LoginEvent::ExchangeFailed { error: LoginError::InvalidSecondFactorToken }
}

#[test]
fn three_invalid_tokens_end_the_attempt_without_a_fourth_exchange() {
    assert_eq!(MAX_SECOND_FACTOR_ATTEMPTS, 3);
    let mut state = LoginState::AwaitingSecondFactor {
        provider: TwoFactorProvider::Authenticator,
        attempts: 0,
    };
    let mut exchanges = 0;
    for token in ["111111", "222222", "333333"] {
        let (next, action) =
            transition(state, LoginEvent::TokenEntered { token: token.to_string() });
        match &action {
            LoginAction::SendTokenRequest { two_factor: Some(v) } => {
                assert_eq!(v.token, token);
                exchanges += 1;
            },
            other => panic!("expected an exchange, got {other:?}"),
        }
        let (next, action) = transition(next, invalid_token_event());
        state = next;
        if exchanges < 3 {
            assert_eq!(
                action,
                LoginAction::PromptToken { provider: TwoFactorProvider::Authenticator }
            );
        } else {
            // The third rejection ends the attempt; nothing further is asked.
            assert_eq!(action, LoginAction::Wait);
        }
    }
    assert_eq!(exchanges, 3);
    assert_eq!(
        state,
        LoginState::Failed { error: LoginError::TooManySecondFactorAttempts }
    );
    // Even another token entry causes no further exchange.
    let (state, action) =
        transition(state, LoginEvent::TokenEntered { token: "444444".to_string() });
    assert_eq!(action, LoginAction::Wait);
    assert_eq!(
        state,
        LoginState::Failed { error: LoginError::TooManySecondFactorAttempts }
    );
}

#[test]
fn unacceptable_descriptor_fails_before_derivation() {
    let config = interpret_prelogin_response(
        200,
        r#"{"kdf":1,"kdfIterations":3,"kdfMemory":null,"kdfParallelism":4}"#,
    )
    .unwrap();
    let state = LoginState::Negotiating;
    let (state, action) = transition(state, LoginEvent::PreloginSucceeded { config });
    assert_eq!(action, LoginAction::Wait);
    assert_eq!(state, LoginState::Failed { error: LoginError::UnsupportedKdf });
}

#[test]
fn zero_iterations_fail_before_derivation() {
    let config = interpret_prelogin_response(200, r#"{"kdf":0,"kdfIterations":0}"#).unwrap();
    let (state, _) = transition(LoginState::Negotiating, LoginEvent::PreloginSucceeded { config });
    assert_eq!(state, LoginState::Failed { error: LoginError::DerivationFailure });
}

#[test]
fn bad_credentials_fail_the_attempt() {
    let state = LoginState::Authenticating { attempts: 0, provider: None };
    let (state, action) = transition(
        state,
        LoginEvent::ExchangeFailed { error: LoginError::InvalidCredentials },
    );
    assert_eq!(action, LoginAction::Wait);
    assert_eq!(state, LoginState::Failed { error: LoginError::InvalidCredentials });
}

#[test]
fn empty_provider_list_cannot_be_satisfied() {
    let state = LoginState::Authenticating { attempts: 0, provider: None };
    let (state, _) = transition(
        state,
        LoginEvent::ExchangeCompleted { result: LoginResult::NeedsTwoFactor(Vec::new()) },
    );
    assert_eq!(
        state,
        LoginState::Failed { error: LoginError::UnsupportedSecondFactorProvider }
    );
}

#[test]
fn stray_events_are_ignored() {
    let state = LoginState::Negotiating;
    let (state, action) =
        transition(state, LoginEvent::TokenEntered { token: "123456".to_string() });
    assert_eq!(action, LoginAction::Wait);
    assert_eq!(state, LoginState::Negotiating);
}

#[test]
fn a_renewed_challenge_keeps_the_submission_count() {
    // A token goes out, and instead of rejecting it the service challenges
    // again; the submissions already spent still count toward the cap.
    let state = LoginState::AwaitingSecondFactor {
        provider: TwoFactorProvider::Authenticator,
        attempts: 2,
    };
    let (state, _) = transition(state, LoginEvent::TokenEntered { token: "123456".to_string() });
    let (state, action) = transition(
        state,
        LoginEvent::ExchangeCompleted {
            result: LoginResult::NeedsTwoFactor(vec![TwoFactorProvider::Authenticator]),
        },
    );
    assert_eq!(action, LoginAction::ChooseProvider);
    match state {
        LoginState::AwaitingProviderChoice { attempts, .. } => assert_eq!(attempts, 3),
        other => panic!("expected a provider choice, got {other:?}"),
    }
}
