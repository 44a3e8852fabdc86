use robinhood::device::DeviceToken;
use robinhood::wire::{
    check_invalid_creds, check_invalid_grant, GrantType, LogInPayload, LoginBodyFault,
    LoginSuccess, RefreshTokenPayload, Scope, TokenType,
};
use serde_json::Value;

fn json(text: &str) -> Value {
    serde_json::from_str(text).unwrap()
}

fn sample_login() -> LogInPayload {
    LogInPayload {
        client_id: "c82SH0WZOsabOXGP2sxqcj34FxkvfnWRZBKlBjFS".to_owned(),
        device_token: DeviceToken { value: 0x550e8400e29b41d4a716446655440000 },
        expires_in: 86400,
        grant_type: GrantType::Password,
        scope: Scope::Internal,
        username: "alice".to_owned(),
        password: "s3cret".to_owned(),
    }
}

#[test]
fn login_payload_on_the_wire() {
    let expected = json(
        r#"{
            "client_id": "c82SH0WZOsabOXGP2sxqcj34FxkvfnWRZBKlBjFS",
            "device_token": "550e8400-e29b-41d4-a716-446655440000",
            "expires_in": 86400,
            "grant_type": "password",
            "scope": "internal",
            "username": "alice",
            "password": "s3cret"
        }"#,
    );
    assert_eq!(sample_login().to_value(), expected);
}

#[test]
fn login_payload_round_trip() {
    let payload = sample_login();
    let back = LogInPayload::from_value(&payload.to_value()).unwrap();
    assert_eq!(back, payload);
    assert_eq!(back.username, "alice");
    assert_eq!(back.password, "s3cret");
    assert_eq!(back.expires_in, 86400);
    assert_eq!(back.grant_type, GrantType::Password);
    assert_eq!(back.scope, Scope::Internal);
    assert_eq!(back.device_token, DeviceToken { value: 0x550e8400e29b41d4a716446655440000 });
}

#[test]
fn login_payload_round_trip_through_text() {
    let payload = sample_login();
    let text = serde_json::to_string(&payload.to_value()).unwrap();
    let back = LogInPayload::from_value(&json(&text)).unwrap();
    assert_eq!(back, payload);
}

#[test]
fn login_payload_passes_over_other_members() {
    let value = json(
        r#"{
            "client_id": "id",
            "device_token": "550e8400-e29b-41d4-a716-446655440000",
            "expires_in": 1,
            "grant_type": "refresh_token",
            "scope": "internal",
            "username": "u",
            "password": "p",
            "mfa_code": "123456"
        }"#,
    );
    let payload = LogInPayload::from_value(&value).unwrap();
    assert_eq!(payload.grant_type, GrantType::RefreshToken);
    assert_eq!(payload.client_id, "id");
    assert_eq!(payload.expires_in, 1);
}

#[test]
fn login_payload_is_not_read_from_other_shapes() {
    assert!(LogInPayload::from_value(&json("null")).is_none());
    assert!(LogInPayload::from_value(&json("[]")).is_none());
    assert!(LogInPayload::from_value(&json("{}")).is_none());
    let base = sample_login().to_value();
    for key in [
        "client_id",
        "device_token",
        "expires_in",
        "grant_type",
        "scope",
        "username",
        "password",
    ] {
        let mut without = base.clone();
        without.as_object_mut().unwrap().remove(key);
        assert!(LogInPayload::from_value(&without).is_none(), "without {}", key);
    }
    let mut odd = base.clone();
    odd["device_token"] = Value::from("nope");
    assert!(LogInPayload::from_value(&odd).is_none());
    let mut odd = base.clone();
    odd["expires_in"] = Value::from(-1);
    assert!(LogInPayload::from_value(&odd).is_none());
    let mut odd = base.clone();
    odd["expires_in"] = Value::from(4294967296u64);
    assert!(LogInPayload::from_value(&odd).is_none());
    let mut odd = base.clone();
    odd["expires_in"] = Value::from("86400");
    assert!(LogInPayload::from_value(&odd).is_none());
    let mut odd = base.clone();
    odd["grant_type"] = Value::from("Password");
    assert!(LogInPayload::from_value(&odd).is_none());
    let mut odd = base.clone();
    odd["scope"] = Value::from("external");
    assert!(LogInPayload::from_value(&odd).is_none());
    let mut odd = base;
    odd["username"] = Value::Null;
    assert!(LogInPayload::from_value(&odd).is_none());
}

#[test]
fn login_payload_takes_the_largest_lifetime() {
    let mut value = sample_login().to_value();
    value["expires_in"] = Value::from(4294967295u64);
    assert_eq!(LogInPayload::from_value(&value).unwrap().expires_in, u32::MAX);
}

#[test]
fn refresh_payload_on_the_wire() {
    let payload = RefreshTokenPayload {
        token_type: TokenType::Bearer,
        scope: Scope::Internal,
        refresh_token: "r-1".to_owned(),
        grant_type: GrantType::RefreshToken,
        client_id: "id".to_owned(),
        device_token: DeviceToken { value: 1 },
    };
    let expected = json(
        r#"{
            "token_type": "Bearer",
            "scope": "internal",
            "refresh_token": "r-1",
            "grant_type": "refresh_token",
            "client_id": "id",
            "device_token": "00000000-0000-0000-0000-000000000001"
        }"#,
    );
    assert_eq!(payload.to_value(), expected);
}

#[test]
fn wire_names() {
    assert_eq!(GrantType::Password.wire_name(), "password");
    assert_eq!(GrantType::RefreshToken.wire_name(), "refresh_token");
    assert_eq!(Scope::Internal.wire_name(), "internal");
    assert_eq!(TokenType::Bearer.wire_name(), "Bearer");
    assert_eq!(GrantType::from_wire_name("password"), Some(GrantType::Password));
    assert_eq!(GrantType::from_wire_name("refresh_token"), Some(GrantType::RefreshToken));
    assert_eq!(GrantType::from_wire_name("Password"), None);
    assert_eq!(Scope::from_wire_name("internal"), Some(Scope::Internal));
    assert_eq!(Scope::from_wire_name(""), None);
    assert_eq!(TokenType::from_wire_name("Bearer"), Some(TokenType::Bearer));
    assert_eq!(TokenType::from_wire_name("bearer"), None);
    assert_eq!(Scope::default(), Scope::Internal);
    assert_eq!(TokenType::default(), TokenType::Bearer);
}

const SUCCESS: &str = r#"{
    "access_token": "a-1",
    "expires_in": 740067,
    "token_type": "Bearer",
    "scope": "internal",
    "refresh_token": "r-1",
    "mfa_code": "329503",
    "backup_code": null
}"#;

#[test]
fn login_success_is_read() {
    let success = LoginSuccess::from_value(&json(SUCCESS)).unwrap();
    assert_eq!(success.access_token, "a-1");
    assert_eq!(success.expires_in, 740067);
    assert_eq!(success.token_type, TokenType::Bearer);
    assert_eq!(success.scope, Scope::Internal);
    assert_eq!(success.refresh_token, "r-1");
    assert_eq!(success.mfa_code, Some("329503".to_owned()));
    assert_eq!(success.backup_code, None);
}

#[test]
fn login_success_optional_members() {
    let bare = json(
        r#"{"access_token":"a","expires_in":0,"token_type":"Bearer","scope":"internal",
            "refresh_token":"r"}"#,
    );
    let success = LoginSuccess::from_value(&bare).unwrap();
    assert_eq!(success.mfa_code, None);
    assert_eq!(success.backup_code, None);
    assert_eq!(success.expires_in, 0);

    let mut full = json(SUCCESS);
    full["mfa_code"] = Value::Null;
    full["backup_code"] = json(r#"{"code": [1, 2]}"#);
    full["more"] = Value::from(true);
    let success = LoginSuccess::from_value(&full).unwrap();
    assert_eq!(success.mfa_code, None);
    assert_eq!(success.backup_code, Some(json(r#"{"code": [1, 2]}"#)));
}

#[test]
fn login_success_faults() {
    assert_eq!(LoginSuccess::from_value(&json("null")), Err(LoginBodyFault::AccessToken));
    assert_eq!(LoginSuccess::from_value(&json("[1]")), Err(LoginBodyFault::AccessToken));
    assert_eq!(LoginSuccess::from_value(&json("{}")), Err(LoginBodyFault::AccessToken));

    let mut body = json(SUCCESS);
    body["access_token"] = Value::from(1);
    assert_eq!(LoginSuccess::from_value(&body), Err(LoginBodyFault::AccessToken));

    let mut body = json(SUCCESS);
    body.as_object_mut().unwrap().remove("expires_in");
    assert_eq!(LoginSuccess::from_value(&body), Err(LoginBodyFault::ExpiresIn));
    body["expires_in"] = Value::from(-5);
    assert_eq!(LoginSuccess::from_value(&body), Err(LoginBodyFault::ExpiresIn));
    body["expires_in"] = json("1.5");
    assert_eq!(LoginSuccess::from_value(&body), Err(LoginBodyFault::ExpiresIn));
    body["expires_in"] = Value::from(4294967296u64);
    assert_eq!(LoginSuccess::from_value(&body), Err(LoginBodyFault::ExpiresIn));

    let mut body = json(SUCCESS);
    body["token_type"] = Value::from("Basic");
    assert_eq!(LoginSuccess::from_value(&body), Err(LoginBodyFault::TokenType));
    body.as_object_mut().unwrap().remove("token_type");
    assert_eq!(LoginSuccess::from_value(&body), Err(LoginBodyFault::TokenType));

    let mut body = json(SUCCESS);
    body["scope"] = Value::from("all");
    assert_eq!(LoginSuccess::from_value(&body), Err(LoginBodyFault::Scope));

    let mut body = json(SUCCESS);
    body["refresh_token"] = Value::Null;
    assert_eq!(LoginSuccess::from_value(&body), Err(LoginBodyFault::RefreshToken));

    let mut body = json(SUCCESS);
    body["mfa_code"] = Value::from(329503);
    assert_eq!(LoginSuccess::from_value(&body), Err(LoginBodyFault::MfaCode));

    let mut body = json(SUCCESS);
    body["scope"] = Value::from("all");
    body["expires_in"] = Value::from("soon");
    assert_eq!(LoginSuccess::from_value(&body), Err(LoginBodyFault::ExpiresIn));
}

#[test]
fn login_body_fault_messages() {
    assert_eq!(LoginBodyFault::AccessToken.member_name(), "access_token");
    assert_eq!(LoginBodyFault::ExpiresIn.member_name(), "expires_in");
    assert_eq!(LoginBodyFault::TokenType.member_name(), "token_type");
    assert_eq!(LoginBodyFault::Scope.member_name(), "scope");
    assert_eq!(LoginBodyFault::RefreshToken.member_name(), "refresh_token");
    assert_eq!(LoginBodyFault::MfaCode.member_name(), "mfa_code");
    assert_eq!(
        LoginBodyFault::Scope.to_message(),
        "Failed to serialize successful login response body: (missing or malformed member `scope`)"
    );
}

#[test]
fn refused_credentials_are_seen_in_the_detail() {
    assert!(check_invalid_creds(&json(
        r#"{"detail": "Unable to log in with provided credentials."}"#
    )));
    assert!(check_invalid_creds(&json(
        r#"{"detail": "Sorry. Unable to log in with provided credentials"}"#
    )));
    assert!(check_invalid_creds(&json(
        r#"{"detail": "Unable to log in with provided credentials", "other": 1}"#
    )));
    assert!(!check_invalid_creds(&json(r#"{"detail": "Unable to log in"}"#)));
    assert!(!check_invalid_creds(&json(
        r#"{"detail": "unable to log in with provided credentials"}"#
    )));
    assert!(!check_invalid_creds(&json(
        r#"{"message": "Unable to log in with provided credentials"}"#
    )));
    assert!(!check_invalid_creds(&json(
        r#"{"detail": ["Unable to log in with provided credentials"]}"#
    )));
    assert!(!check_invalid_creds(&json(r#""Unable to log in with provided credentials""#)));
    assert!(!check_invalid_creds(&json(r#"["Unable to log in with provided credentials"]"#)));
    assert!(!check_invalid_creds(&json(r#"{"detail": null}"#)));
    assert!(!check_invalid_creds(&json("{}")));
    assert!(!check_invalid_creds(&json(SUCCESS)));
}

#[test]
fn refused_refresh_token_is_seen_in_the_error() {
    assert!(check_invalid_grant(&json(r#"{"error": "invalid_grant"}"#)));
    assert!(check_invalid_grant(&json(r#"{"error": "invalid_grant", "detail": "x"}"#)));
    assert!(!check_invalid_grant(&json(r#"{"error": "invalid_grant "}"#)));
    assert!(!check_invalid_grant(&json(r#"{"error": "invalid_request"}"#)));
    assert!(!check_invalid_grant(&json(r#"{"error": ["invalid_grant"]}"#)));
    assert!(!check_invalid_grant(&json(r#"{"errors": "invalid_grant"}"#)));
    assert!(!check_invalid_grant(&json(r#""invalid_grant""#)));
    assert!(!check_invalid_grant(&json(SUCCESS)));
}
