use bwrs::api::{
    auth_email_header, build_token_request, interpret_login_response,
    interpret_prelogin_response, new_device_id, ClientKind, ConnectAuth, ConnectDevice,
    DeviceKind, GrantKind, LoginResult,
};
use bwrs::crypto::Base64;
use bwrs::error::LoginError;
use bwrs::kdf::{KdfKind, MAX_KDF_ITERATIONS};
use bwrs::provider::{TwoFactorProvider, TwoFactorVerification};

#[test]
fn prelogin_pbkdf2_body_decodes() {
    let config = interpret_prelogin_response(200, r#"{"kdf":0,"kdfIterations":600000}"#).unwrap();
    assert_eq!(config.kind, KdfKind::Pbkdf2);
    assert_eq!(config.iterations, 600000);
    assert_eq!(config.memory, None);
    assert_eq!(config.parallelism, None);
}

#[test]
fn prelogin_argon2_body_decodes() {
    let config = interpret_prelogin_response(
        200,
        r#"{"kdf":1,"kdfIterations":3,"kdfMemory":64,"kdfParallelism":4}"#,
    )
    .unwrap();
    assert_eq!(config.kind, KdfKind::Argon2id);
    assert_eq!(config.iterations, 3);
    assert_eq!(config.memory, Some(64));
    assert_eq!(config.parallelism, Some(4));
}

#[test]
fn prelogin_null_memory_decodes_to_absent() {
    let config = interpret_prelogin_response(
        200,
        r#"{"kdf":1,"kdfIterations":3,"kdfMemory":null,"kdfParallelism":4}"#,
    )
    .unwrap();
    assert_eq!(config.memory, None);
    // The descriptor then fails KDF resolution before any password is touched.
    let r = bwrs::crypto::derive_master_key("hunter2", "user@example.com", &config);
    assert_eq!(r.unwrap_err(), LoginError::UnsupportedKdf);
}

#[test]
fn prelogin_unknown_kind_is_unsupported() {
    let r = interpret_prelogin_response(200, r#"{"kdf":2,"kdfIterations":600000}"#);
    assert_eq!(r.unwrap_err(), LoginError::UnsupportedKdf);
}

#[test]
fn prelogin_malformed_body_is_a_protocol_failure() {
    for body in ["not json", "{}", r#"{"kdf":0}"#, r#"{"kdf":"0","kdfIterations":1}"#] {
        match interpret_prelogin_response(200, body) {
            Err(LoginError::ProtocolFailure { status, detail }) => {
                assert_eq!(status, 200);
                assert_eq!(detail, body);
            },
            other => panic!("expected a protocol failure for {body:?}, got {other:?}"),
        }
    }
}

#[test]
fn prelogin_oversized_field_is_a_protocol_failure() {
    let r = interpret_prelogin_response(200, r#"{"kdf":0,"kdfIterations":4294967296}"#);
    assert!(matches!(r, Err(LoginError::ProtocolFailure { status: 200, .. })));
    assert!(u64::from(MAX_KDF_ITERATIONS) < 4294967296);
}

#[test]
fn success_response_parses_the_access_token() {
    let body = r#"{"access_token":"eyJhbGciOi.token.value","expires_in":3600,"token_type":"Bearer"}"#;
    match interpret_login_response(200, body).unwrap() {
        LoginResult::Success(session) => {
            assert_eq!(session.access_token, "eyJhbGciOi.token.value");
        },
        other => panic!("expected success, got {other:?}"),
    }
}

#[test]
fn success_status_with_no_token_is_a_protocol_failure() {
    let r = interpret_login_response(200, r#"{"token_type":"Bearer"}"#);
    assert!(matches!(r, Err(LoginError::ProtocolFailure { status: 200, .. })));
}

#[test]
fn two_factor_challenge_with_numeric_provider() {
    let body = r#"{"error":"invalid_grant","error_description":"Two factor required.","TwoFactorProviders":[1],"TwoFactorProviders2":{"1":null}}"#;
    match interpret_login_response(400, body).unwrap() {
        LoginResult::NeedsTwoFactor(providers) => {
            assert_eq!(providers, vec![TwoFactorProvider::Email]);
        },
        other => panic!("expected a challenge, got {other:?}"),
    }
}

#[test]
fn two_factor_challenge_with_string_providers() {
    let body = r#"{"error_description":"Two factor required.","TwoFactorProviders":["0","3"]}"#;
    match interpret_login_response(400, body).unwrap() {
        LoginResult::NeedsTwoFactor(providers) => {
            assert_eq!(
                providers,
                vec![TwoFactorProvider::Authenticator, TwoFactorProvider::Yubikey]
            );
        },
        other => panic!("expected a challenge, got {other:?}"),
    }
}

#[test]
fn two_factor_challenge_with_unknown_code_is_rejected() {
    let body = r#"{"error_description":"Two factor required.","TwoFactorProviders":[8]}"#;
    assert_eq!(
        interpret_login_response(400, body).unwrap_err(),
        LoginError::UnsupportedSecondFactorProvider
    );
    let body = r#"{"error_description":"Two factor required.","TwoFactorProviders":[1,"x"]}"#;
    assert_eq!(
        interpret_login_response(400, body).unwrap_err(),
        LoginError::UnsupportedSecondFactorProvider
    );
}

#[test]
fn two_factor_phrase_without_list_is_a_protocol_failure() {
    let body = r#"{"error_description":"Two factor required."}"#;
    assert!(matches!(
        interpret_login_response(400, body),
        Err(LoginError::ProtocolFailure { status: 400, .. })
    ));
}

#[test]
fn invalid_token_body_is_its_own_failure() {
    let body = r#"{"error_description":"Two-step token is invalid. Try again."}"#;
    assert_eq!(
        interpret_login_response(400, body).unwrap_err(),
        LoginError::InvalidSecondFactorToken
    );
}

#[test]
fn bad_credentials_body_is_its_own_failure() {
    let body = r#"{"error_description":"Username or password is incorrect. Try again."}"#;
    assert_eq!(
        interpret_login_response(400, body).unwrap_err(),
        LoginError::InvalidCredentials
    );
}

#[test]
fn unrecognized_bodies_carry_status_and_body() {
    match interpret_login_response(400, "something else").unwrap_err() {
        LoginError::ProtocolFailure { status, detail } => {
            assert_eq!(status, 400);
            assert_eq!(detail, "something else");
        },
        other => panic!("unexpected {other:?}"),
    }
    match interpret_login_response(503, "gateway sad").unwrap_err() {
        LoginError::ProtocolFailure { status, detail } => {
            assert_eq!(status, 503);
            assert_eq!(detail, "gateway sad");
        },
        other => panic!("unexpected {other:?}"),
    }
}

#[test]
fn token_request_fields_without_second_factor() {
    let hash = vec![0xbeu8, 0xef];
    let device = ConnectDevice {
        kind: DeviceKind::LinuxCLI,
        id: "11111111-2222-3333-4444-555555555555".to_string(),
        name: "bwrs".to_string(),
    };
    let request = build_token_request("user@example.com", &hash, device, None);
    assert_eq!(request.grant_type, GrantKind::Password);
    assert_eq!(request.client_id, ClientKind::Cli);
    let fields = request.to_form_fields();
    let expected: Vec<(String, String)> = [
        ("scope", "api offline_access"),
        ("grant_type", "password"),
        ("client_id", "cli"),
        ("deviceType", "25"),
        ("deviceIdentifier", "11111111-2222-3333-4444-555555555555"),
        ("deviceName", "bwrs"),
        ("username", "user@example.com"),
        ("password", "vu8="),
    ]
    .iter()
    .map(|(k, v)| (k.to_string(), v.to_string()))
    .collect();
    assert_eq!(fields, expected);
}

#[test]
fn token_request_fields_with_second_factor() {
    let hash = vec![1u8; 32];
    let device = ConnectDevice {
        kind: DeviceKind::WindowsCLI,
        id: "id".to_string(),
        name: "bwrs".to_string(),
    };
    let verification = TwoFactorVerification {
        token: "123456".to_string(),
        provider: TwoFactorProvider::Email,
    };
    let request = build_token_request("user@example.com", &hash, device, Some(verification));
    let fields = request.to_form_fields();
    assert_eq!(fields.len(), 10);
    assert_eq!(fields[3], ("deviceType".to_string(), "23".to_string()));
    assert_eq!(fields[7].0, "password");
    assert_eq!(fields[7].1, Base64::encode(&[1u8; 32]));
    assert_eq!(fields[8], ("twoFactorToken".to_string(), "123456".to_string()));
    assert_eq!(fields[9], ("twoFactorProvider".to_string(), "1".to_string()));
    match request.auth {
        ConnectAuth::Password { username, .. } => assert_eq!(username, "user@example.com"),
    }
}

#[test]
fn auth_email_header_is_unpadded_url_safe_base64() {
    assert_eq!(auth_email_header("test@example.com"), "dGVzdEBleGFtcGxlLmNvbQ");
    // Neither padding nor the standard alphabet's last two characters appear.
    let header = auth_email_header("a?b@ex.com");
    assert!(!header.contains('='));
    assert!(!header.contains('+'));
    assert!(!header.contains('/'));
}

#[test]
fn device_ids_are_hyphenated_and_fresh() {
    let a = new_device_id();
    let b = new_device_id();
    assert_eq!(a.len(), 36);
    assert_eq!(b.len(), 36);
    assert_eq!(a.matches('-').count(), 4);
    assert_ne!(a, b);
}

#[test]
fn grant_and_client_kinds_use_snake_case_wire_names() {
    assert_eq!(GrantKind::RefreshToken.wire_name(), "refresh_token");
    assert_eq!(GrantKind::Password.wire_name(), "password");
    assert_eq!(GrantKind::ClientCredentials.wire_name(), "client_credentials");
    assert_eq!(ClientKind::Web.wire_name(), "web");
    assert_eq!(ClientKind::Browser.wire_name(), "browser");
    assert_eq!(ClientKind::Desktop.wire_name(), "desktop");
    assert_eq!(ClientKind::Cli.wire_name(), "cli");
}

#[test]
fn device_kinds_code_in_declaration_order() {
    assert_eq!(DeviceKind::Android.wire_code_str(), "0");
    assert_eq!(DeviceKind::LinuxDesktop.wire_code_str(), "8");
    assert_eq!(DeviceKind::SDK.wire_code_str(), "21");
    assert_eq!(DeviceKind::WindowsCLI.wire_code_str(), "23");
    assert_eq!(DeviceKind::MacOsCLI.wire_code_str(), "24");
    assert_eq!(DeviceKind::LinuxCLI.wire_code_str(), "25");
}

#[test]
fn prelogin_non_success_status_carries_status_and_body() {
    match interpret_prelogin_response(502, "bad gateway").unwrap_err() {
        LoginError::ProtocolFailure { status, detail } => {
            assert_eq!(status, 502);
            assert_eq!(detail, "bad gateway");
        },
        other => panic!("unexpected {other:?}"),
    }
}

#[test]
fn prelogin_wrongly_typed_optional_field_is_a_protocol_failure() {
    // A present kdfMemory of the wrong type is malformed, unlike a null or
    // absent one, which merely leaves the parameter out.
    for body in [
        r#"{"kdf":1,"kdfIterations":3,"kdfMemory":"64","kdfParallelism":4}"#,
        r#"{"kdf":1,"kdfIterations":3,"kdfMemory":64.5,"kdfParallelism":4}"#,
        r#"{"kdf":1,"kdfIterations":3,"kdfMemory":64,"kdfParallelism":true}"#,
    ] {
        assert!(
            matches!(
                interpret_prelogin_response(200, body),
                Err(LoginError::ProtocolFailure { status: 200, .. })
            ),
            "{body:?} should be malformed"
        );
    }
}
