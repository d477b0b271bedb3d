//! Contexts handed to the page-rendering collaborator: one struct per page,
//! carrying exactly what the template needs.

use vstd::prelude::*;

verus! {

/// Context for the login page: an optional error to show, and the challenge
/// id that the form must send back verbatim.
#[derive(Debug)]
pub struct LoginContext {
    pub error_msg: Option<String>,
    pub login_challenge: String,
    pub state: Option<String>,
}

/// Context for the consent page.
#[derive(Debug)]
pub struct ConsentContext {
    pub consent_challenge: String,
    pub state: Option<String>,
}

/// Context for the generic error page.
#[derive(Debug)]
pub struct ErrorContext {
    pub error_msg: String,
}

} // verus!
