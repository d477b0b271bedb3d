use oidc_rs::enums::{
    validate_grant_type, validate_response_type, validate_scope, GrantType, ResponseType,
    ResponseTypes, Scope, Scopes,
};

#[test]
fn validate_scope_ok() {
    let result = validate_scope("profile openid  phone");
    assert!(result.is_ok());
}

#[test]
fn validate_scope_err_openid_notfound() {
    let result = validate_scope("profile address");
    assert_eq!("scope openid is required", result.err().unwrap().message());
}

#[test]
fn validate_scope_err_unsupported_scope() {
    let result = validate_scope("openid wrongscope");
    assert_eq!("Unsupported scope", result.err().unwrap().message());
}

#[test]
fn validate_response_type_ok() {
    let result = validate_response_type("code");
    assert!(result.is_ok());
}

#[test]
fn validate_response_type_err_unsupported_type() {
    let result = validate_response_type("code hoge");
    assert_eq!("Unsupported response_type", result.err().unwrap().message());
}

#[test]
fn enums_validate_grant_type_ok() {
    let result = validate_grant_type("authorization_code");
    assert!(result.is_ok());
}

#[test]
fn enums_validate_grant_type_err_unsupported_type() {
    let result = validate_grant_type("authorization_code invalid_grant_type");
    assert_eq!("Unsupported grant_type", result.err().unwrap().message());
}

#[test]
fn scopes_from_str_ok() {
    let result = Scopes::from_str("openid profile address phone email");
    let expected = Scopes {
        scopes: vec![
            Scope::OpenID,
            Scope::Profile,
            Scope::Address,
            Scope::Phone,
            Scope::Email,
        ],
    };
    assert_eq!(expected, result.unwrap());
}

#[test]
fn scopes_from_str_ng() {
    let result = Scopes::from_str("openid profile phone hogehoge");
    assert!(result.is_err());
}

#[test]
fn scopes_to_str_ok() {
    let input = Scopes {
        scopes: vec![
            Scope::OpenID,
            Scope::Profile,
            Scope::Address,
            Scope::Phone,
            Scope::Email,
        ],
    };
    let result = input.to_string();
    let expected = String::from("openid profile address phone email");
    assert_eq!(expected, result);
}

#[test]
fn response_type_from_str_ok() {
    let result = ResponseTypes::from_str("code");
    let expected = ResponseTypes {
        types: vec![ResponseType::Code],
    };
    assert_eq!(expected, result.unwrap());
}

#[test]
fn response_type_from_str_ng() {
    let result = ResponseTypes::from_str("aaaaa");
    assert!(result.is_err());
}

#[test]
fn response_type_to_str_ok() {
    let input = ResponseTypes {
        types: vec![ResponseType::Code],
    };
    let result = input.to_string();
    let expected = String::from("code");
    assert_eq!(expected, result);
}

#[test]
fn grant_type_from_str_ok() {
    let result = GrantType::from_str("authorization_code");
    let expected = GrantType::AuthorizationCode;
    assert_eq!(expected, result.unwrap());
}

#[test]
fn grant_type_from_str_ng() {
    let result = GrantType::from_str("aaaaa");
    assert!(result.is_err());
}

#[test]
fn token_validate_grant_type_ok() {
    let result = validate_grant_type("authorization_code");
    assert!(result.is_ok());
}

#[test]
fn token_validate_grant_type_err_unsupported_type() {
    let result = validate_grant_type("authorization_code invalid_grant_type");
    assert_eq!("Unsupported grant_type", result.err().unwrap().message());
}
