//! The single tagged error type of the protocol engine, and its mapping to
//! HTTP status codes.

use vstd::prelude::*;

verus! {

use vstd::string::*;

use crate::authentication::ErrorAuthenticationResponse;
use crate::context::{ErrorContext, LoginContext};
use crate::token::TokenError;

/// Every way a protocol step can fail.
#[derive(Debug)]
pub enum CustomError {
    /// The persistence layer refused an operation.
    StorageUnavailable,
    /// A parameter is missing or malformed before any redirect target is
    /// known.
    BadRequest,
    /// An authorization-request failure delivered as an error redirect.
    AuthenticationError(ErrorAuthenticationResponse),
    /// A recoverable login failure: the login page is rendered again with
    /// this context.
    ValidationError(LoginContext),
    /// The session cookie is absent or names no live session.
    SessionError,
    /// The challenge id names no live challenge.
    ChallengeError,
    /// Bearer-token or client-credential authentication failed.
    UnauthorizedError,
    /// A token-exchange failure with its OAuth error code.
    TokenError(TokenError),
    /// Signing the ID token failed.
    SigningError,
}

impl CustomError {
    /// The HTTP status this error is answered with: redirects carry 302,
    /// re-rendered pages 200, and the rest their usual codes.
    pub open spec fn status_spec(self) -> u16 {
        match self {
            CustomError::StorageUnavailable => 500,
            CustomError::BadRequest => 400,
            CustomError::AuthenticationError(_) => 302,
            CustomError::ValidationError(_) => 200,
            CustomError::SessionError => 200,
            CustomError::ChallengeError => 200,
            CustomError::UnauthorizedError => 401,
            CustomError::TokenError(_) => 400,
            CustomError::SigningError => 500,
        }
    }

    pub fn status(&self) -> (r: u16)
        ensures
            r == self.status_spec(),
    {
        match self {
            CustomError::StorageUnavailable => 500,
            CustomError::BadRequest => 400,
            CustomError::AuthenticationError(_) => 302,
            CustomError::ValidationError(_) => 200,
            CustomError::SessionError => 200,
            CustomError::ChallengeError => 200,
            CustomError::UnauthorizedError => 401,
            CustomError::TokenError(_) => 400,
            CustomError::SigningError => 500,
        }
    }

    /// The message of the error page, for the errors that render one.
    pub open spec fn page_message_spec(self) -> Option<Seq<char>> {
        match self {
            CustomError::SessionError => Some(
                "Session doesn't exist or is invalid. Please retry from login page."@,
            ),
            CustomError::ChallengeError => Some("Challenge is incorrect."@),
            _ => None,
        }
    }

    /// The context of the error page, for the errors that render one.
    pub fn error_context(&self) -> (r: Option<ErrorContext>)
        ensures
            match r {
                Some(ctx) => self.page_message_spec() == Some(ctx.error_msg@),
                None => self.page_message_spec() is None,
            },
    {
        match self {
            CustomError::SessionError => Some(
                ErrorContext {
                    error_msg: String::from_str(
                        "Session doesn't exist or is invalid. Please retry from login page.",
                    ),
                },
            ),
            CustomError::ChallengeError => Some(
                ErrorContext { error_msg: String::from_str("Challenge is incorrect.") },
            ),
            _ => None,
        }
    }
}

} // verus!
