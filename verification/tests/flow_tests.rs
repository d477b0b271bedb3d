use oidc_rs::authentication::{AuthenticationRequestParam, AuthorizationError};
use oidc_rs::error::CustomError;
use oidc_rs::models::Token;
use oidc_rs::request::{ClientParams, ConsentGetParams, ConsentParams, LoginParams};
use oidc_rs::server::{
    get_authenticate, get_authorization, get_client, get_userinfo, post_authenticate,
    post_authorization, post_token, register_client,
};
use oidc_rs::store::Db;
use oidc_rs::token::{Basic, TokenError, TokenRequest};
use oidc_rs::userinfo::UserinfoRequest;

const NOW: u64 = 1_700_000_000;

fn secret() -> Vec<u8> {
    b"jwt-secret".to_vec()
}

fn registered_db(scope: &str) -> Db {
    let mut db = Db::new();
    register_client(
        &mut db,
        &ClientParams {
            scope: String::from(scope),
            response_type: String::from("code"),
            redirect_uri: String::from("https://rp.example/cb"),
        },
        String::from("client-1"),
        String::from("secret-1"),
    )
    .unwrap();
    db
}

fn auth_param(scope: &str, state: Option<&str>) -> AuthenticationRequestParam {
    AuthenticationRequestParam {
        scope: Some(String::from(scope)),
        response_type: Some(String::from("code")),
        client_id: Some(String::from("client-1")),
        redirect_uri: Some(String::from("https://rp.example/cb")),
        state: state.map(String::from),
        nonce: Some(String::from("n-1")),
    }
}

/// Runs the flow up to consent and returns the session cookie and the code.
fn flow_to_code(db: &mut Db) -> (String, String) {
    let ctx = get_authenticate(db, auth_param("openid", Some("xyz"))).unwrap();
    let challenge = ctx.login_challenge.clone();
    let redir = post_authenticate(
        db,
        &LoginParams {
            username: String::from("foobar"),
            password: String::from("1234"),
            login_challenge: challenge.clone(),
            state: Some(String::from("xyz")),
        },
    )
    .unwrap();
    let session = redir.value.clone();
    let resp = post_authorization(
        db,
        &Some(session.clone()),
        &ConsentParams {
            consent: String::from("true"),
            consent_challenge: challenge,
            state: Some(String::from("xyz")),
        },
    )
    .unwrap();
    assert_eq!(resp.next, "https://rp.example/cb");
    assert_eq!(resp.state.as_deref(), Some("xyz"));
    (session, resp.code.clone())
}

#[test]
fn client_registration_reports_credentials() {
    let mut db = Db::new();
    let msg = get_client(
        &mut db,
        Some(ClientParams {
            scope: String::from("openid email"),
            response_type: String::from("code"),
            redirect_uri: String::from("https://rp.example/cb"),
        }),
    )
    .unwrap();
    assert!(msg.starts_with("client_id: "));
    assert!(msg.contains(", client_secret: "));
    match get_client(&mut db, None) {
        Err(CustomError::BadRequest) => {}
        _ => panic!("registration without parameters must be a bad request"),
    }
}

#[test]
fn duplicate_client_id_is_refused() {
    let mut db = registered_db("openid email");
    let result = register_client(
        &mut db,
        &ClientParams {
            scope: String::from("openid"),
            response_type: String::from("code"),
            redirect_uri: String::from("https://other.example/cb"),
        },
        String::from("client-1"),
        String::from("another-secret"),
    );
    match result {
        Err(CustomError::StorageUnavailable) => {}
        _ => panic!("a second client under the same id must be refused"),
    }
}

#[test]
fn login_with_wrong_password_reechoes_challenge() {
    let mut db = registered_db("openid email");
    let ctx = get_authenticate(&mut db, auth_param("openid", Some("xyz"))).unwrap();
    let result = post_authenticate(
        &mut db,
        &LoginParams {
            username: String::from("foobar"),
            password: String::from("wrong"),
            login_challenge: ctx.login_challenge.clone(),
            state: Some(String::from("xyz")),
        },
    );
    match result {
        Err(CustomError::ValidationError(login_ctx)) => {
            assert_eq!(
                login_ctx.error_msg.as_deref(),
                Some("username or password is incorrect")
            );
            assert_eq!(login_ctx.login_challenge, ctx.login_challenge);
            assert_eq!(login_ctx.state.as_deref(), Some("xyz"));
        }
        _ => panic!("wrong credentials must re-render the login page"),
    }
}

#[test]
fn login_with_unknown_challenge_fails() {
    let mut db = registered_db("openid email");
    let result = post_authenticate(
        &mut db,
        &LoginParams {
            username: String::from("foobar"),
            password: String::from("1234"),
            login_challenge: String::from("no-such-challenge"),
            state: None,
        },
    );
    match result {
        Err(CustomError::ChallengeError) => {}
        _ => panic!("an unknown login challenge must fail"),
    }
}

#[test]
fn challenge_single_use_after_consent() {
    let mut db = registered_db("openid email");
    let ctx = get_authenticate(&mut db, auth_param("openid", Some("xyz"))).unwrap();
    let challenge = ctx.login_challenge.clone();
    let redir = post_authenticate(
        &mut db,
        &LoginParams {
            username: String::from("foobar"),
            password: String::from("1234"),
            login_challenge: challenge.clone(),
            state: Some(String::from("xyz")),
        },
    )
    .unwrap();
    let session = Some(redir.value.clone());
    let consent = ConsentParams {
        consent: String::from("true"),
        consent_challenge: challenge.clone(),
        state: Some(String::from("xyz")),
    };
    post_authorization(&mut db, &session, &consent).unwrap();
    match post_authorization(&mut db, &session, &consent) {
        Err(CustomError::ChallengeError) => {}
        _ => panic!("a consumed challenge must not grant a second code"),
    }
    let get_again = get_authorization(
        &db,
        &session,
        Some(ConsentGetParams {
            consent_challenge: challenge,
            state: Some(String::from("xyz")),
        }),
    );
    match get_again {
        Err(CustomError::ChallengeError) => {}
        _ => panic!("a consumed challenge must not be displayed again"),
    }
}

#[test]
fn consent_denied_leaves_challenge_pending() {
    let mut db = registered_db("openid email");
    let ctx = get_authenticate(&mut db, auth_param("openid", Some("xyz"))).unwrap();
    let challenge = ctx.login_challenge.clone();
    let redir = post_authenticate(
        &mut db,
        &LoginParams {
            username: String::from("foobar"),
            password: String::from("1234"),
            login_challenge: challenge.clone(),
            state: Some(String::from("xyz")),
        },
    )
    .unwrap();
    let session = Some(redir.value.clone());
    let denied = post_authorization(
        &mut db,
        &session,
        &ConsentParams {
            consent: String::from("no"),
            consent_challenge: challenge.clone(),
            state: Some(String::from("xyz")),
        },
    );
    match denied {
        Err(CustomError::AuthenticationError(resp)) => {
            assert_eq!(resp.error, AuthorizationError::AccessDenied);
            assert_eq!(
                resp.location(),
                "https://rp.example/cb?error=access_denied&state=xyz"
            );
        }
        _ => panic!("a denied consent must be an access_denied redirect"),
    }
    let granted = post_authorization(
        &mut db,
        &session,
        &ConsentParams {
            consent: String::from("true"),
            consent_challenge: challenge,
            state: Some(String::from("xyz")),
        },
    );
    assert!(granted.is_ok(), "the challenge must still be pending after a denial");
}

#[test]
fn code_exchanged_exactly_once() {
    let mut db = registered_db("openid email");
    let (_session, code) = flow_to_code(&mut db);
    let request = TokenRequest::new("authorization_code", &code, "https://rp.example/cb").unwrap();
    let basic = Basic {
        client_id: String::from("client-1"),
        client_secret: String::from("secret-1"),
    };
    let key = secret();
    post_token(&mut db, &request, &basic, NOW, &key).unwrap();
    match post_token(&mut db, &request, &basic, NOW, &key) {
        Err(CustomError::TokenError(TokenError::InvalidGrant)) => {}
        _ => panic!("a second exchange of the same code must fail with invalid_grant"),
    }
}

#[test]
fn wrong_client_secret_is_unauthorized() {
    let mut db = registered_db("openid email");
    let (_session, code) = flow_to_code(&mut db);
    let request = TokenRequest::new("authorization_code", &code, "https://rp.example/cb").unwrap();
    let basic = Basic {
        client_id: String::from("client-1"),
        client_secret: String::from("bad-secret"),
    };
    let key = secret();
    match post_token(&mut db, &request, &basic, NOW, &key) {
        Err(CustomError::UnauthorizedError) => {}
        _ => panic!("wrong client credentials must be unauthorized"),
    }
    match post_token(&mut db, &request, &basic, NOW, &key) {
        Err(CustomError::TokenError(TokenError::InvalidGrant)) => {}
        _ => panic!("the failed exchange must still have consumed the code"),
    }
}

#[test]
fn unknown_grant_type_is_unsupported() {
    let result = TokenRequest::new("implicit", "some-code", "https://rp.example/cb");
    assert_eq!(result.err().unwrap(), TokenError::UnsupportedGrantType);
    let request = TokenRequest::new("authorization_code", "c", "u").unwrap();
    assert!(request.validate().is_ok());
}

#[test]
fn session_persists_across_consent_calls() {
    let mut db = registered_db("openid email");
    let ctx = get_authenticate(&mut db, auth_param("openid", None)).unwrap();
    let challenge = ctx.login_challenge.clone();
    let redir = post_authenticate(
        &mut db,
        &LoginParams {
            username: String::from("foobar"),
            password: String::from("1234"),
            login_challenge: challenge.clone(),
            state: None,
        },
    )
    .unwrap();
    assert_eq!(redir.key, "session_id");
    assert_eq!(
        redir.next,
        format!("/authorization?consent_challenge={}", challenge)
    );
    let session = Some(redir.value.clone());
    let param = || {
        Some(ConsentGetParams {
            consent_challenge: challenge.clone(),
            state: None,
        })
    };
    assert!(get_authorization(&db, &session, param()).is_ok());
    assert!(get_authorization(&db, &session, param()).is_ok());
    match get_authorization(&db, &None, param()) {
        Err(CustomError::SessionError) => {}
        _ => panic!("a missing session cookie must be a session error"),
    }
    db.sessions.delete(&redir.value).unwrap();
    match get_authorization(&db, &session, param()) {
        Err(CustomError::SessionError) => {}
        _ => panic!("a deleted session must be a session error"),
    }
}

#[test]
fn token_accepted_before_expiry_and_rejected_after() {
    let mut db = registered_db("openid email");
    let (_session, code) = flow_to_code(&mut db);
    let request = TokenRequest::new("authorization_code", &code, "https://rp.example/cb").unwrap();
    let basic = Basic {
        client_id: String::from("client-1"),
        client_secret: String::from("secret-1"),
    };
    let key = secret();
    let token_resp = post_token(&mut db, &request, &basic, NOW, &key).unwrap();
    let inforeq = UserinfoRequest {
        bearer: token_resp.access_token.clone(),
    };
    assert!(get_userinfo(&db, &inforeq, NOW + 59 * 60).is_ok());
    match get_userinfo(&db, &inforeq, NOW + 61 * 60) {
        Err(CustomError::UnauthorizedError) => {}
        _ => panic!("an expired token must be unauthorized"),
    }
    match get_userinfo(
        &db,
        &UserinfoRequest {
            bearer: String::from("no-such-token"),
        },
        NOW,
    ) {
        Err(CustomError::UnauthorizedError) => {}
        _ => panic!("an unknown token must be unauthorized"),
    }
}

#[test]
fn end_to_end_code_flow() {
    let mut db = registered_db("openid email");
    let ctx = get_authenticate(&mut db, auth_param("openid", Some("xyz"))).unwrap();
    assert!(ctx.error_msg.is_none());
    assert_eq!(ctx.state.as_deref(), Some("xyz"));
    let challenge = ctx.login_challenge.clone();
    let redir = post_authenticate(
        &mut db,
        &LoginParams {
            username: String::from("foobar"),
            password: String::from("1234"),
            login_challenge: challenge.clone(),
            state: Some(String::from("xyz")),
        },
    )
    .unwrap();
    assert_eq!(
        redir.next,
        format!("/authorization?consent_challenge={}&state=xyz", challenge)
    );
    let session = Some(redir.value.clone());
    get_authorization(
        &db,
        &session,
        Some(ConsentGetParams {
            consent_challenge: challenge.clone(),
            state: Some(String::from("xyz")),
        }),
    )
    .unwrap();
    let resp = post_authorization(
        &mut db,
        &session,
        &ConsentParams {
            consent: String::from("true"),
            consent_challenge: challenge,
            state: Some(String::from("xyz")),
        },
    )
    .unwrap();
    assert_eq!(resp.next, "https://rp.example/cb");
    assert_eq!(resp.state.as_deref(), Some("xyz"));
    assert_eq!(
        resp.location(),
        format!("https://rp.example/cb?code={}&state=xyz", resp.code)
    );

    let request =
        TokenRequest::new("authorization_code", &resp.code, "https://rp.example/cb").unwrap();
    let basic = Basic {
        client_id: String::from("client-1"),
        client_secret: String::from("secret-1"),
    };
    let key = secret();
    let token_resp = post_token(&mut db, &request, &basic, NOW, &key).unwrap();
    assert_eq!(token_resp.token_type, "Bearer");
    assert_eq!(token_resp.expires_in, 3600);
    assert!(token_resp.refresh_token.is_none());

    let parts: Vec<&str> = token_resp.id_token.split('.').collect();
    assert_eq!(parts.len(), 3);
    let header = base64::decode_config(parts[0], base64::URL_SAFE_NO_PAD).unwrap();
    assert_eq!(
        String::from_utf8(header).unwrap(),
        "{\"typ\":\"JWT\",\"alg\":\"HS256\"}"
    );
    let payload = String::from_utf8(
        base64::decode_config(parts[1], base64::URL_SAFE_NO_PAD).unwrap(),
    )
    .unwrap();
    assert!(payload.contains("\"aud\":\"client-1\""));
    assert!(payload.contains("\"iss\":\"http://example.com\""));
    assert!(payload.contains("\"sub\":\"userid\""));
    assert!(payload.contains("\"nonce\":\"n-1\""));
    let message = format!("{}.{}", parts[0], parts[1]);
    let verified = jsonwebtoken::crypto::verify(
        parts[2],
        message.as_bytes(),
        &jsonwebtoken::DecodingKey::from_secret(&key),
        jsonwebtoken::Algorithm::HS256,
    )
    .unwrap();
    assert!(verified);

    let info = get_userinfo(
        &db,
        &UserinfoRequest {
            bearer: token_resp.access_token.clone(),
        },
        NOW + 60,
    )
    .unwrap();
    assert_eq!(info.sub, "userid");
    assert_eq!(info.name, "tarou tanaka");
    assert!(info.email.is_none());
    assert!(info.phone_number.is_none());
    assert!(info.address.is_none());
}

#[test]
fn unpermitted_scope_is_refused_before_challenge_creation() {
    let mut db = registered_db("openid email");
    let result = get_authenticate(&mut db, auth_param("openid superadmin", Some("xyz")));
    match result {
        Err(CustomError::AuthenticationError(resp)) => {
            assert_eq!(resp.error, AuthorizationError::InvalidScope);
            assert_eq!(
                resp.location(),
                "https://rp.example/cb?error=invalid_scope&state=xyz"
            );
        }
        _ => panic!("an unregistered scope must be refused with invalid_scope"),
    }
    let result = get_authenticate(&mut db, auth_param("openid profile", Some("xyz")));
    match result {
        Err(CustomError::AuthenticationError(resp)) => {
            assert_eq!(resp.error, AuthorizationError::InvalidScope);
        }
        _ => panic!("a known but unregistered scope must be refused with invalid_scope"),
    }
}

#[test]
fn failure_without_redirect_target_is_bad_request() {
    let mut db = registered_db("openid email");
    let mut param = auth_param("openid superadmin", Some("xyz"));
    param.redirect_uri = None;
    match get_authenticate(&mut db, param) {
        Err(CustomError::BadRequest) => {}
        _ => panic!("with no redirect target a validation failure must be a bad request"),
    }
}

#[test]
fn all_scope_discloses_every_claim() {
    let mut db = registered_db("openid all");
    db.tokens
        .create(Token {
            access_token: String::from("tok-all"),
            user_id: String::from("userid"),
            scope: String::from("openid all"),
            created_at: NOW,
        })
        .unwrap();
    let info = get_userinfo(
        &db,
        &UserinfoRequest {
            bearer: String::from("tok-all"),
        },
        NOW,
    )
    .unwrap();
    assert_eq!(info.email.as_deref(), Some("test@example.com"));
    assert_eq!(info.email_verified, Some(true));
    assert_eq!(info.address.as_deref(), Some("address"));
    assert_eq!(info.phone_number.as_deref(), Some("111-1234-5678"));
    assert_eq!(info.phone_number_verified, Some(true));
}
