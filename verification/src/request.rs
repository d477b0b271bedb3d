//! Plain parameter records, one per request form or query string. The layer
//! that speaks HTTP fills these in and hands them to the protocol engine.

use vstd::prelude::*;

verus! {

/// Parameters of a client-registration request.
#[derive(Debug)]
pub struct ClientParams {
    pub scope: String,
    pub response_type: String,
    pub redirect_uri: String,
}

/// Parameters of an authorization request, before validation.
#[derive(Debug)]
pub struct AuthenticationParams {
    pub scope: String,
    pub response_type: String,
    pub client_id: String,
    pub redirect_uri: String,
    pub state: Option<String>,
}

/// Parameters of a login form submission.
#[derive(Debug)]
pub struct LoginParams {
    pub username: String,
    pub password: String,
    pub login_challenge: String,
    pub state: Option<String>,
}

/// Parameters of a consent page request.
#[derive(Debug)]
pub struct ConsentGetParams {
    pub consent_challenge: String,
    pub state: Option<String>,
}

/// Parameters of a consent form submission.
#[derive(Debug)]
pub struct ConsentParams {
    pub consent: String,
    pub consent_challenge: String,
    pub state: Option<String>,
}

/// Parameters of a token-exchange request.
#[derive(Debug)]
pub struct TokenParams {
    pub grant_type: String,
    pub code: String,
    pub redirect_uri: String,
    pub client_id: String,
    pub client_secret: String,
}

} // verus!
