use oidc_rs::enums::{ParseError, ResponseType, ResponseTypes, Scope, Scopes, Vocabulary};
use oidc_rs::models::{Client, Token};

fn client_with(scope: &str, response_type: &str) -> Client {
    Client {
        client_id: String::default(),
        client_secret: String::default(),
        scope: String::from(scope),
        response_type: String::from(response_type),
        redirect_uri: String::default(),
    }
}

#[test]
fn client_check_scopes_ok() {
    let input = Scopes {
        scopes: vec![Scope::OpenID, Scope::Profile],
    };
    let client = client_with("openid email profile", "");
    assert!(client.check_scopes(&input).is_ok());
}

#[test]
fn client_check_sopes_ng() {
    let input = Scopes {
        scopes: vec![Scope::OpenID, Scope::Email],
    };
    let client = client_with("openid profile", "");
    assert!(client.check_scopes(&input).is_err());
}

#[test]
fn client_check_restypes_ok() {
    let input = ResponseTypes {
        types: vec![ResponseType::Code],
    };
    let client = client_with("", "code");
    assert!(client.check_restypes(&input).is_ok());
}

#[test]
fn client_check_restypes_ng() {
    let input = ResponseTypes {
        types: vec![ResponseType::Code],
    };
    let client = client_with("", "");
    assert!(client.check_restypes(&input).is_err());
}

#[test]
fn parse_unknown_scope_is_unsupported_value() {
    let result = Scopes::from_str("openid wrongscope");
    assert_eq!(
        result.err().unwrap(),
        ParseError::UnsupportedValue(Vocabulary::Scope)
    );
}

#[test]
fn scopes_round_trip_preserves_tokens() {
    let parsed = Scopes::from_str("profile openid phone").unwrap();
    assert_eq!(parsed.to_string(), "profile openid phone");
    let normalized = Scopes::from_str("  openid   email ").unwrap();
    assert_eq!(normalized.to_string(), "openid email");
    let reparsed = Scopes::from_str(&normalized.to_string()).unwrap();
    assert_eq!(reparsed, normalized);
}

#[test]
fn token_validity_window() {
    let token = Token {
        access_token: String::from("tok"),
        user_id: String::from("userid"),
        scope: String::from("openid"),
        created_at: 1000,
    };
    assert!(token.is_valid(1000));
    assert!(token.is_valid(4600));
    assert!(!token.is_valid(4601));
}
