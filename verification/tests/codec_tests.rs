use oidc_rs::authentication::{AuthorizationError, ErrorAuthenticationResponse};
use oidc_rs::challenge::{generate_challenge, to_hex};
use oidc_rs::context::LoginContext;
use oidc_rs::error::CustomError;
use oidc_rs::jwt::sign_id_token;
use oidc_rs::token::{Basic, IdToken, TokenError};
use oidc_rs::userinfo::UserinfoRequest;

#[test]
fn basic_header_round_trip() {
    let header = format!("Basic {}", base64::encode("id-1:sec-1"));
    let basic = Basic::from_header(&header).unwrap();
    assert_eq!(basic.client_id, "id-1");
    assert_eq!(basic.client_secret, "sec-1");
}

#[test]
fn basic_header_takes_first_two_segments() {
    let header = format!("Basic {}", base64::encode("a:b:c"));
    let basic = Basic::from_header(&header).unwrap();
    assert_eq!(basic.client_id, "a");
    assert_eq!(basic.client_secret, "b");
}

#[test]
fn basic_header_rejects_malformed_input() {
    assert!(Basic::from_header("").is_none());
    assert!(Basic::from_header("Basic").is_none());
    assert!(Basic::from_header("Bearer abcd").is_none());
    assert!(Basic::from_header("Basic !!!not-base64!!!").is_none());
    let no_colon = format!("Basic {}", base64::encode("nocolon"));
    assert!(Basic::from_header(&no_colon).is_none());
    let bad_utf8 = format!("Basic {}", base64::encode([0xffu8, 0xfe, b':', b'x']));
    assert!(Basic::from_header(&bad_utf8).is_none());
}

#[test]
fn bearer_header_extracts_token() {
    let req = UserinfoRequest::from_header("Bearer tok-123").unwrap();
    assert_eq!(req.bearer, "tok-123");
    assert!(UserinfoRequest::from_header("Basic tok-123").is_none());
    assert!(UserinfoRequest::from_header("Bearer").is_none());
    assert!(UserinfoRequest::from_header("").is_none());
}

#[test]
fn hex_encoding_is_exact() {
    assert_eq!(to_hex(&vec![]), "");
    assert_eq!(to_hex(&vec![0x00, 0xff, 0x1a]), "00ff1a");
    assert_eq!(to_hex(&vec![0xde, 0xad, 0xbe, 0xef]), "deadbeef");
}

#[test]
fn generated_challenges_are_fresh_hex() {
    let a = generate_challenge();
    let b = generate_challenge();
    assert_eq!(a.len(), 32);
    assert_eq!(b.len(), 32);
    assert!(a.chars().all(|c| c.is_ascii_hexdigit() && !c.is_ascii_uppercase()));
    assert_ne!(a, b);
}

#[test]
fn id_token_json_is_exact() {
    let claims = IdToken {
        iss: String::from("http://example.com"),
        sub: String::from("userid"),
        aud: String::from("client-1"),
        exp: 200,
        iat: 100,
        nonce: String::from("n\"1"),
    };
    assert_eq!(
        claims.to_json(),
        "{\"iss\":\"http://example.com\",\"sub\":\"userid\",\"aud\":\"client-1\",\
         \"exp\":200,\"iat\":100,\"nonce\":\"n\\\"1\"}"
    );
}

#[test]
fn signed_id_token_carries_the_claims() {
    let secret = b"jwt-secret".to_vec();
    let claims = IdToken {
        iss: String::from("http://example.com"),
        sub: String::from("userid"),
        aud: String::from("client-1"),
        exp: 200,
        iat: 100,
        nonce: String::from("n-1"),
    };
    let token = sign_id_token(&secret, &claims).unwrap();
    let parts: Vec<&str> = token.split('.').collect();
    assert_eq!(parts.len(), 3);
    let payload = String::from_utf8(
        base64::decode_config(parts[1], base64::URL_SAFE_NO_PAD).unwrap(),
    )
    .unwrap();
    assert_eq!(payload, claims.to_json());
    let message = format!("{}.{}", parts[0], parts[1]);
    let verified = jsonwebtoken::crypto::verify(
        parts[2],
        message.as_bytes(),
        &jsonwebtoken::DecodingKey::from_secret(&secret),
        jsonwebtoken::Algorithm::HS256,
    )
    .unwrap();
    assert!(verified);
}

#[test]
fn error_redirect_location_is_exact() {
    let resp = ErrorAuthenticationResponse::new(
        "https://rp.example/cb",
        AuthorizationError::InvalidScope,
        &Some(String::from("xyz")),
    );
    assert_eq!(
        resp.location(),
        "https://rp.example/cb?error=invalid_scope&state=xyz"
    );
    let no_state = ErrorAuthenticationResponse::new(
        "https://rp.example/cb",
        AuthorizationError::UnsupportedResponseType,
        &None,
    );
    assert_eq!(
        no_state.location(),
        "https://rp.example/cb?error=unsupported_response_type"
    );
}

#[test]
fn error_status_codes() {
    assert_eq!(CustomError::BadRequest.status(), 400);
    assert_eq!(CustomError::UnauthorizedError.status(), 401);
    assert_eq!(CustomError::StorageUnavailable.status(), 500);
    assert_eq!(CustomError::SigningError.status(), 500);
    assert_eq!(CustomError::SessionError.status(), 200);
    assert_eq!(CustomError::ChallengeError.status(), 200);
    assert_eq!(CustomError::TokenError(TokenError::InvalidGrant).status(), 400);
    assert_eq!(
        CustomError::ValidationError(LoginContext {
            error_msg: None,
            login_challenge: String::new(),
            state: None,
        })
        .status(),
        200
    );
}
