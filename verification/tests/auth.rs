use bearer_auth::api::auth::{
    authorize, bearer_token, check_authorization, get_pub_certificate, signed_tokens, test_token,
    token_response,
    AuthenticationContext, Oauth2ErrorMessage, TestTokenInput, Tokens, TOKEN_TTL_SECONDS,
};
use bearer_auth::claims::Claims;
use bearer_auth::error::{AuthError, InputError, ProcessError};
use bearer_auth::gateway::{ContentType, Effect, Policy};
use bearer_auth::model::app::{User, UserId};

fn context(user_id: &str, app_id: &str) -> AuthenticationContext {
    AuthenticationContext {
        user: User {
            user_id: UserId(user_id.to_string()),
            email: "testemail".to_string(),
            tz: None,
        },
        app_id: app_id.to_owned(),
    }
}

fn claims(entries: &[(&str, &str)]) -> Claims {
    let mut p = Claims::new();
    for (name, value) in entries {
        p.insert(name.to_string(), value.to_string());
    }
    p
}

fn read(p: &Claims, name: &str) -> Option<String> {
    p.get(name).cloned()
}

#[test]
fn can_transform_a_user_to_payload() {
    let payload = context("u1", "a1").to_payload(57);

    assert_eq!("u1", payload.get("user_id").unwrap())
}

#[test]
fn can_extract_a_user_from_payload() {
    let mut p = Claims::new();
    p.insert("user_id".to_string(), "1".to_owned());
    p.insert("app_id".to_string(), "1".to_owned());
    p.insert(
        "expires_at".to_string(),
        (time::get_time().sec + i64::from(5)).to_string(),
    );
    let auth_context = AuthenticationContext::try_from(&p);

    assert!(auth_context.is_ok());
}

#[test]
fn should_reject_if_expired() {
    let mut p = Claims::new();
    p.insert("user_id".to_string(), "1".to_owned());
    p.insert("app_id".to_string(), "1".to_owned());
    p.insert(
        "expires_at".to_string(),
        (time::get_time().sec + i64::from(-5)).to_string(),
    );
    let auth_context = AuthenticationContext::try_from(&p);

    assert!(auth_context.is_err());
    let err = auth_context.unwrap_err();
    assert_eq!(err.to_string(), "Expired Token");
}

#[test]
fn should_reject_if_missing_user_id() {
    let mut p = Claims::new();
    p.insert("app_id".to_string(), "1".to_owned());
    p.insert(
        "expires_at".to_string(),
        (time::get_time().sec + i64::from(-5)).to_string(),
    );
    let auth_context = AuthenticationContext::try_from(&p);

    assert!(auth_context.is_err());
    let err = auth_context.unwrap_err();
    assert_eq!(err.to_string(), "Missing Field: \'user_id\'");
}

#[test]
fn should_reject_if_unparsable_expired_at() {
    let mut p = Claims::new();
    p.insert("user_id".to_string(), "1".to_owned());
    p.insert("app_id".to_string(), "1".to_owned());
    p.insert("expires_at".to_string(), "AZER".to_string());
    let auth_context = AuthenticationContext::try_from(&p);

    assert!(auth_context.is_err());
    let err = auth_context.unwrap_err();
    assert_eq!(err.to_string(), "Could Not Parse Field: \'expires_at\'");
}

#[test]
fn payload_names_the_identity_it_was_issued_to() {
    let payload = context("u1", "a1").to_payload(57);

    assert_eq!(read(&payload, "user_id"), Some("u1".to_string()));
    assert_eq!(read(&payload, "app_id"), Some("a1".to_string()));
}

#[test]
fn payload_holds_five_claims() {
    let payload = context("u1", "a1").to_payload(57);

    assert_eq!(payload.len(), 5);
    for name in ["user_id", "app_id", "expires_at", "session_id", "token_id"] {
        assert!(payload.contains_key(name), "{} is missing", name);
    }
}

#[test]
fn payload_expires_after_the_time_to_live() {
    let before = time::get_time().sec;
    let payload = context("u1", "a1").to_payload(57);
    let after = time::get_time().sec;

    let expires_at: i64 = payload.get("expires_at").unwrap().parse().unwrap();
    assert!(before + 57 <= expires_at && expires_at <= after + 57);
}

#[test]
fn payload_at_a_given_time_is_exact() {
    let payload = context("u1", "a1").payload_at(
        1_500_000_000,
        600,
        "11111111-1111-4111-8111-111111111111".to_string(),
        "22222222-2222-4222-9222-222222222222".to_string(),
    );

    assert_eq!(payload.len(), 5);
    assert_eq!(read(&payload, "user_id"), Some("u1".to_string()));
    assert_eq!(read(&payload, "app_id"), Some("a1".to_string()));
    assert_eq!(read(&payload, "expires_at"), Some("1500000600".to_string()));
    assert_eq!(
        read(&payload, "session_id"),
        Some("11111111-1111-4111-8111-111111111111".to_string())
    );
    assert_eq!(
        read(&payload, "token_id"),
        Some("22222222-2222-4222-9222-222222222222".to_string())
    );
}

#[test]
fn payload_expiry_is_written_in_full_beyond_64_bits() {
    let late = context("u", "a").payload_at(i64::MAX, 1, String::new(), String::new());
    assert_eq!(read(&late, "expires_at"), Some("9223372036854775808".to_string()));

    let early = context("u", "a").payload_at(i64::MIN, -1, String::new(), String::new());
    assert_eq!(read(&early, "expires_at"), Some("-9223372036854775809".to_string()));

    let negative = context("u", "a").payload_at(-100, 40, String::new(), String::new());
    assert_eq!(read(&negative, "expires_at"), Some("-60".to_string()));
}

fn is_random_uuid(text: &str) -> bool {
    let bytes = text.as_bytes();
    bytes.len() == 36
        && bytes.iter().enumerate().all(|(i, b)| match i {
            8 | 13 | 18 | 23 => *b == b'-',
            _ => b.is_ascii_digit() || (b'a'..=b'f').contains(b),
        })
        && bytes[14] == b'4'
        && matches!(bytes[19], b'8' | b'9' | b'a' | b'b')
}

#[test]
fn payload_identifiers_are_random_uuids() {
    let payload = context("u1", "a1").to_payload(57);

    let session_id = read(&payload, "session_id").unwrap();
    let token_id = read(&payload, "token_id").unwrap();
    assert!(is_random_uuid(&session_id), "{}", session_id);
    assert!(is_random_uuid(&token_id), "{}", token_id);
    assert_ne!(session_id, token_id);
}

#[test]
fn two_issuances_differ_in_their_identifiers_only() {
    let one = context("u1", "a1").to_payload(57);
    let other = context("u1", "a1").to_payload(57);

    assert_ne!(read(&one, "session_id"), read(&other, "session_id"));
    assert_ne!(read(&one, "token_id"), read(&other, "token_id"));
    assert_eq!(read(&one, "user_id"), read(&other, "user_id"));
    assert_eq!(read(&one, "app_id"), read(&other, "app_id"));
}

#[test]
fn issued_payload_validates() {
    let payload = context("u1", "a1").to_payload(57);
    let back = AuthenticationContext::try_from(&payload).unwrap();

    assert_eq!(back.user.user_id.0, "u1");
    assert_eq!(back.app_id, "a1");
}

#[test]
fn validate_accepts_until_the_expiry_and_not_after() {
    let now = 1_700_000_000;
    let p = |expires_at: i64| {
        claims(&[("user_id", "1"), ("app_id", "2"), ("expires_at", &expires_at.to_string())])
    };

    assert!(AuthenticationContext::validate(&p(now + 5), now).is_ok());
    assert!(AuthenticationContext::validate(&p(now), now).is_ok());
    let late = AuthenticationContext::validate(&p(now - 1), now).unwrap_err();
    assert!(matches!(late, AuthError::Input(InputError::ExpiredToken)));
    let later = AuthenticationContext::validate(&p(now - 5), now).unwrap_err();
    assert!(matches!(later, AuthError::Input(InputError::ExpiredToken)));
}

#[test]
fn validate_gives_the_user_and_the_application() {
    let p = claims(&[
        ("user_id", "u7"),
        ("app_id", "a9"),
        ("expires_at", "100"),
        ("session_id", "s"),
        ("token_id", "t"),
    ]);
    let context = AuthenticationContext::validate(&p, 100).unwrap();

    assert_eq!(context.user.user_id.0, "u7");
    assert_eq!(context.user.email, "testemail");
    assert!(context.user.tz.is_none());
    assert_eq!(context.app_id, "a9");
}

fn missing_field(r: Result<AuthenticationContext, AuthError>) -> String {
    match r {
        Err(AuthError::Input(InputError::MissingField(name))) => name,
        other => panic!("no missing field: {:?}", other),
    }
}

#[test]
fn validate_names_the_missing_field() {
    let no_user = claims(&[("app_id", "1"), ("expires_at", "5")]);
    assert_eq!(missing_field(AuthenticationContext::validate(&no_user, 0)), "user_id");

    let no_app = claims(&[("user_id", "1"), ("expires_at", "5")]);
    assert_eq!(missing_field(AuthenticationContext::validate(&no_app, 0)), "app_id");

    let no_expiry = claims(&[("user_id", "1"), ("app_id", "1")]);
    assert_eq!(missing_field(AuthenticationContext::validate(&no_expiry, 0)), "expires_at");
}

#[test]
fn validate_reports_the_first_fault() {
    let empty = Claims::new();
    assert_eq!(missing_field(AuthenticationContext::validate(&empty, 0)), "user_id");

    let user_only = claims(&[("user_id", "1")]);
    assert_eq!(missing_field(AuthenticationContext::validate(&user_only, 0)), "app_id");

    let expired_without_app = claims(&[("user_id", "1"), ("expires_at", "5")]);
    assert_eq!(
        missing_field(AuthenticationContext::validate(&expired_without_app, 10)),
        "app_id"
    );

    let unparsable_without_app = claims(&[("user_id", "1"), ("expires_at", "AZER")]);
    assert_eq!(
        missing_field(AuthenticationContext::validate(&unparsable_without_app, 10)),
        "app_id"
    );
}

#[test]
fn validate_refuses_an_expiry_that_is_no_integer() {
    for text in ["AZER", "", " 5", "5 ", "1.5", "0x10", "9223372036854775808", "--1"] {
        let p = claims(&[("user_id", "1"), ("app_id", "1"), ("expires_at", text)]);
        match AuthenticationContext::validate(&p, 0) {
            Err(AuthError::Input(InputError::ParsingError(name))) => {
                assert_eq!(name, "expires_at")
            }
            other => panic!("{:?} gave {:?}", text, other),
        }
    }
}

#[test]
fn validate_accepts_any_user_identifier() {
    let p = claims(&[("user_id", ""), ("app_id", ""), ("expires_at", "+7")]);
    let context = AuthenticationContext::validate(&p, 7).unwrap();

    assert_eq!(context.user.user_id.0, "");
    assert_eq!(context.app_id, "");
}

#[test]
fn get_user_from_makes_up_a_profile() {
    let user = AuthenticationContext::get_user_from("u1").unwrap();

    assert_eq!(user.user_id.0, "u1");
    assert_eq!(user.email, "testemail");
    assert!(user.tz.is_none());
}

#[test]
fn to_hashmap_keeps_user_and_application_only() {
    let granted = context("u1", "a1").to_hashmap();

    assert_eq!(granted.len(), 2);
    assert_eq!(read(&granted, "user_id"), Some("u1".to_string()));
    assert_eq!(read(&granted, "app_id"), Some("a1".to_string()));
    assert_eq!(read(&granted, "session_id"), None);
}

#[test]
fn bearer_header_gives_its_token() {
    assert_eq!(bearer_token(Some("Bearer abc.def.ghi")).unwrap(), "abc.def.ghi");
    assert_eq!(bearer_token(Some("bearer abc.def.ghi")).unwrap(), "abc.def.ghi");
    assert_eq!(bearer_token(Some("BEARER abc.def.ghi")).unwrap(), "abc.def.ghi");
    assert_eq!(bearer_token(Some("bEaReR abc.def.ghi")).unwrap(), "abc.def.ghi");
    assert_eq!(bearer_token(Some("Bearer ")).unwrap(), "");
    assert_eq!(bearer_token(Some("Bearer  x y")).unwrap(), " x y");
    assert_eq!(bearer_token(Some("Bearer \u{e9}t\u{e9}")).unwrap(), "\u{e9}t\u{e9}");
}

#[test]
fn other_headers_are_invalid() {
    for header in ["token abc", "", "Bearer", "Bearer\tabc", "bearerabc", " Bearer abc", "B\u{e9}arer abc"] {
        match bearer_token(Some(header)) {
            Err(InputError::InvalidHeader { name }) => assert_eq!(name, "authorization"),
            other => panic!("{:?} gave {:?}", header, other),
        }
    }
}

#[test]
fn a_missing_header_is_reported() {
    match bearer_token(None) {
        Err(InputError::MissingHeader(name)) => assert_eq!(name, "authorization"),
        other => panic!("{:?}", other),
    }
    let err = check_authorization(None, "no key").unwrap_err();
    assert_eq!(err.to_string(), "Missing Header: 'authorization'");
}

#[test]
fn an_invalid_header_is_refused_before_the_key_is_used() {
    let err = check_authorization(Some("token abc"), "no key").unwrap_err();
    assert_eq!(err.to_string(), "Invalid Header: 'authorization'");
}

#[test]
fn authorize_grants_to_valid_claims() {
    let p = claims(&[
        ("user_id", "u1"),
        ("app_id", "a1"),
        ("expires_at", "2000"),
        ("session_id", "s"),
        ("token_id", "t"),
    ]);
    let policy: Policy = authorize(Ok(p), 2000).unwrap();

    assert_eq!(policy.principal_id, "user");
    assert_eq!(policy.effect, Effect::Allow);
    assert_eq!(policy.context.len(), 2);
    assert_eq!(read(&policy.context, "user_id"), Some("u1".to_string()));
    assert_eq!(read(&policy.context, "app_id"), Some("a1".to_string()));
}

#[test]
fn authorize_refuses_expired_claims() {
    let p = claims(&[("user_id", "u1"), ("app_id", "a1"), ("expires_at", "1999")]);
    let err = authorize(Ok(p), 2000).unwrap_err();

    assert_eq!(err.to_string(), "Expired Token");
}

#[test]
fn authorize_passes_a_decode_failure_on() {
    let failure = ProcessError::JWTError("error decoding the JWT SignatureInvalid".to_string());
    let err = authorize(Err(failure), 0).unwrap_err();

    match err {
        AuthError::Process(ProcessError::JWTError(text)) => {
            assert_eq!(text, "error decoding the JWT SignatureInvalid")
        }
        other => panic!("{:?}", other),
    }
}

#[test]
fn allow_all_grants_and_carries_the_claims() {
    let policy = Policy::allow_all("someone".to_string(), claims(&[("k", "v")]));

    assert_eq!(policy.principal_id, "someone");
    assert_eq!(policy.effect, Effect::Allow);
    assert_eq!(read(&policy.context, "k"), Some("v".to_string()));
    assert_eq!(policy.context.len(), 1);
}

#[test]
fn a_malformed_request_is_refused_with_invalid_request() {
    for fault in [InputError::MissingBody, InputError::ParsingError("body".to_string())] {
        let response = test_token(Err(fault), "no key").unwrap();

        assert_eq!(response.status_code, 400);
        match response.body {
            Some((Err(report), ContentType::ApplicationJson)) => {
                assert_eq!(report.error, Oauth2ErrorMessage::InvalidRequest);
                assert_eq!(report.error_description, None);
            }
            other => panic!("{:?}", other),
        }
    }
}

#[test]
fn a_key_that_is_none_fails_the_issuance() {
    let input = TestTokenInput { user_id: "u1".to_string(), app_id: "a1".to_string() };

    assert!(test_token(Ok(input), "no key").is_err());
}

#[test]
fn tokens_are_answered_with_status_200() {
    let tokens = Tokens {
        access_token: "a.b.c".to_string(),
        refresh_token: None,
        expires_in: TOKEN_TTL_SECONDS,
    };
    let response = token_response(Ok(tokens));

    assert_eq!(response.status_code, 200);
    match response.body {
        Some((Ok(tokens), ContentType::ApplicationJson)) => {
            assert_eq!(tokens.access_token, "a.b.c");
            assert_eq!(tokens.refresh_token, None);
            assert_eq!(tokens.expires_in, 86400);
        }
        other => panic!("{:?}", other),
    }
}

#[test]
fn the_public_key_is_handed_out_as_plain_text() {
    let response = get_pub_certificate("the text of the public key\n".to_string());

    assert_eq!(response.status_code, 200);
    match response.body {
        Some((Ok(text), ContentType::TextPlain)) => {
            assert_eq!(text, "the text of the public key\n")
        }
        other => panic!("{:?}", other),
    }
}

#[test]
fn errors_have_their_messages() {
    assert_eq!(
        InputError::MissingHeader("authorization".to_string()).to_string(),
        "Missing Header: 'authorization'"
    );
    assert_eq!(InputError::MissingBody.to_string(), "Missing Body");
    assert_eq!(
        InputError::MissingField("app_id".to_string()).to_string(),
        "Missing Field: 'app_id'"
    );
    assert_eq!(
        InputError::InvalidHeader { name: "authorization".to_string() }.to_string(),
        "Invalid Header: 'authorization'"
    );
    assert_eq!(
        InputError::ParsingError("body".to_string()).to_string(),
        "Could Not Parse Field: 'body'"
    );
    assert_eq!(InputError::ExpiredToken.to_string(), "Expired Token");
    assert_eq!(ProcessError::JWTError("x".to_string()).to_string(), "JWT Error: 'x'");
    assert_eq!(
        AuthError::Process(ProcessError::JWTError("y".to_string())).to_string(),
        "JWT Error: 'y'"
    );
    assert_eq!(AuthError::Input(InputError::ExpiredToken).to_string(), "Expired Token");
}

#[test]
fn a_signed_token_is_handed_back_with_its_time_to_live() {
    let tokens = signed_tokens(Ok("a.b.c".to_string()), 57).unwrap();

    assert_eq!(tokens.access_token, "a.b.c");
    assert_eq!(tokens.refresh_token, None);
    assert_eq!(tokens.expires_in, 57);
}

#[test]
fn a_failed_signing_is_handed_back_with_its_cause() {
    match signed_tokens(Err("OpenSslError(..)".to_string()), 57) {
        Err(ProcessError::JWTError(cause)) => assert_eq!(cause, "OpenSslError(..)"),
        other => panic!("{:?}", other),
    }
}
