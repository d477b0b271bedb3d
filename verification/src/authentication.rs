//! The authorization request: validation of scope, response type and client
//! permissions, and the redirect responses that answer it.

use vstd::prelude::*;

verus! {

use vstd::string::*;

use crate::enums::{
    spec_parse_response_types, spec_parse_scopes, ParseError, ResponseType, ResponseTypes, Scope,
    Scopes,
};
use crate::error::CustomError;
use crate::models::{spec_check_restypes, spec_check_scopes, Client};

/// A validated authentication request.
///
/// <https://openid.net/specs/openid-connect-core-1_0.html#AuthRequest>
#[derive(Debug)]
pub struct AuthenticationRequest {
    pub scope: Scopes,
    pub response_type: ResponseTypes,
    pub client_id: String,
    pub redirect_uri: String,
    pub state: Option<String>,
    pub nonce: Option<String>,
}

/// An authentication request as it arrives, every parameter optional.
#[derive(Debug)]
pub struct AuthenticationRequestParam {
    pub scope: Option<String>,
    pub response_type: Option<String>,
    pub client_id: Option<String>,
    pub redirect_uri: Option<String>,
    pub state: Option<String>,
    pub nonce: Option<String>,
}

impl AuthenticationRequestParam {
    pub fn client_id(&self) -> (r: &Option<String>)
        ensures
            r == &self.client_id,
    {
        &self.client_id
    }
}

/// OAuth error codes carried on an error redirect.
///
/// <https://openid.net/specs/openid-connect-core-1_0.html#AuthError>
#[derive(Clone, Copy, Debug, PartialEq, Eq, Structural)]
pub enum AuthorizationError {
    InvalidRequest,
    UnauthorizedClient,
    AccessDenied,
    UnsupportedResponseType,
    InvalidScope,
    ServerError,
    TemporarilyUnavailable,
    InteractionRequired,
    LoginRequired,
    AccountSelectionRequired,
    ConsentRequired,
    InvalidRequestUri,
    InvalidRequestObject,
    RequestNotSupported,
    RequestUriNotSupported,
    RegistrationNotSupported,
}

impl AuthorizationError {
    /// The protocol spelling of this error code.
    pub open spec fn code_spec(self) -> Seq<char> {
        match self {
            AuthorizationError::InvalidRequest => "invalid_request"@,
            AuthorizationError::UnauthorizedClient => "unauthorized_client"@,
            AuthorizationError::AccessDenied => "access_denied"@,
            AuthorizationError::UnsupportedResponseType => "unsupported_response_type"@,
            AuthorizationError::InvalidScope => "invalid_scope"@,
            AuthorizationError::ServerError => "server_error"@,
            AuthorizationError::TemporarilyUnavailable => "temporarily_unavailable"@,
            AuthorizationError::InteractionRequired => "interaction_required"@,
            AuthorizationError::LoginRequired => "login_required"@,
            AuthorizationError::AccountSelectionRequired => "account_selection_required"@,
            AuthorizationError::ConsentRequired => "consent_required"@,
            AuthorizationError::InvalidRequestUri => "invalid_request_uri"@,
            AuthorizationError::InvalidRequestObject => "invalid_request_object"@,
            AuthorizationError::RequestNotSupported => "request_not_supported"@,
            AuthorizationError::RequestUriNotSupported => "request_uri_not_supported"@,
            AuthorizationError::RegistrationNotSupported => "registration_not_supported"@,
        }
    }

    pub fn code(self) -> (r: &'static str)
        ensures
            r@ == self.code_spec(),
    {
        match self {
            AuthorizationError::InvalidRequest => "invalid_request",
            AuthorizationError::UnauthorizedClient => "unauthorized_client",
            AuthorizationError::AccessDenied => "access_denied",
            AuthorizationError::UnsupportedResponseType => "unsupported_response_type",
            AuthorizationError::InvalidScope => "invalid_scope",
            AuthorizationError::ServerError => "server_error",
            AuthorizationError::TemporarilyUnavailable => "temporarily_unavailable",
            AuthorizationError::InteractionRequired => "interaction_required",
            AuthorizationError::LoginRequired => "login_required",
            AuthorizationError::AccountSelectionRequired => "account_selection_required",
            AuthorizationError::ConsentRequired => "consent_required",
            AuthorizationError::InvalidRequestUri => "invalid_request_uri",
            AuthorizationError::InvalidRequestObject => "invalid_request_object",
            AuthorizationError::RequestNotSupported => "request_not_supported",
            AuthorizationError::RequestUriNotSupported => "request_uri_not_supported",
            AuthorizationError::RegistrationNotSupported => "registration_not_supported",
        }
    }
}

/// An authentication error answered as a redirect carrying an `error` code.
#[derive(Debug)]
pub struct ErrorAuthenticationResponse {
    pub next: String,
    pub error: AuthorizationError,
    pub error_description: Option<String>,
    pub error_uri: Option<String>,
    pub state: Option<String>,
}

impl ErrorAuthenticationResponse {
    pub fn new(next: &str, error: AuthorizationError, state: &Option<String>) -> (r:
        ErrorAuthenticationResponse)
        ensures
            r.next@ == next@,
            r.error == error,
            r.error_description is None,
            r.error_uri is None,
            r.state == *state,
    {
        ErrorAuthenticationResponse {
            next: String::from_str(next),
            error,
            error_description: None,
            error_uri: None,
            state: clone_opt_string(state),
        }
    }

    /// The redirect target, with the error code and the optional details
    /// appended to the query string.
    pub open spec fn location_spec(self) -> Seq<char> {
        self.next@ + "?error="@ + self.error.code_spec() + (if self.error_description is Some {
            "&error_description="@ + self.error_description.unwrap()@
        } else {
            Seq::<char>::empty()
        }) + (if self.error_uri is Some {
            "&error_uri="@ + self.error_uri.unwrap()@
        } else {
            Seq::<char>::empty()
        }) + (if self.state is Some {
            "&state="@ + self.state.unwrap()@
        } else {
            Seq::<char>::empty()
        })
    }

    pub fn location(&self) -> (r: String)
        ensures
            r@ == self.location_spec(),
    {
        let mut r = self.next.clone();
        r.append("?error=");
        r.append(self.error.code());
        if let Some(d) = &self.error_description {
            r.append("&error_description=");
            r.append(d.as_str());
        }
        if let Some(u) = &self.error_uri {
            r.append("&error_uri=");
            r.append(u.as_str());
        }
        if let Some(s) = &self.state {
            r.append("&state=");
            r.append(s.as_str());
        }
        proof {
            assert(r@ =~= self.location_spec());
        }
        r
    }
}

/// A successful authentication response: a redirect to the client carrying
/// the authorization code, and the request's `state` when present.
///
/// <https://openid.net/specs/openid-connect-core-1_0.html#AuthResponse>
#[derive(Debug)]
pub struct SuccessfulAuthenticationResponse {
    pub next: String,
    pub code: String,
    pub state: Option<String>,
}

impl SuccessfulAuthenticationResponse {
    pub fn new(next: &str, code: &str, state: &Option<String>) -> (r:
        SuccessfulAuthenticationResponse)
        ensures
            r.next@ == next@,
            r.code@ == code@,
            r.state == *state,
    {
        SuccessfulAuthenticationResponse {
            next: String::from_str(next),
            code: String::from_str(code),
            state: clone_opt_string(state),
        }
    }

    /// The redirect target, carrying `code` and the optional `state`.
    pub open spec fn location_spec(self) -> Seq<char> {
        self.next@ + "?code="@ + self.code@ + (if self.state is Some {
            "&state="@ + self.state.unwrap()@
        } else {
            Seq::<char>::empty()
        })
    }

    pub fn location(&self) -> (r: String)
        ensures
            r@ == self.location_spec(),
    {
        let mut r = self.next.clone();
        r.append("?code=");
        r.append(self.code.as_str());
        if let Some(s) = &self.state {
            r.append("&state=");
            r.append(s.as_str());
        }
        proof {
            assert(r@ =~= self.location_spec());
        }
        r
    }
}

/// Clones an optional string, keeping its value.
pub fn clone_opt_string(s: &Option<String>) -> (r: Option<String>)
    ensures
        r == *s,
{
    match s {
        Some(v) => Some(v.clone()),
        None => None,
    }
}

/// The redirect target known to an incoming request: its `redirect_uri`
/// parameter, or empty when absent.
pub open spec fn spec_redirect_of(param: AuthenticationRequestParam) -> Seq<char> {
    if param.redirect_uri is Some {
        param.redirect_uri.unwrap()@
    } else {
        Seq::<char>::empty()
    }
}

/// The outcome of validating an incoming request against a client registered
/// with `own_scope` and `own_restype`: either acceptance, or the OAuth error
/// code that the checks produce, in the order the checks run.
pub open spec fn spec_from_outcome(
    param: AuthenticationRequestParam,
    own_scope: Seq<char>,
    own_restype: Seq<char>,
) -> Result<(), AuthorizationError> {
    if param.scope is None {
        Err(AuthorizationError::InvalidRequest)
    } else if spec_parse_scopes(param.scope.unwrap()@) is Err {
        Err(AuthorizationError::InvalidScope)
    } else if spec_check_scopes(own_scope, spec_parse_scopes(param.scope.unwrap()@).unwrap())
        is Err {
        Err(AuthorizationError::InvalidScope)
    } else if param.response_type is None {
        Err(AuthorizationError::InvalidRequest)
    } else if spec_parse_response_types(param.response_type.unwrap()@) is Err {
        Err(AuthorizationError::UnsupportedResponseType)
    } else if spec_check_restypes(
        own_restype,
        spec_parse_response_types(param.response_type.unwrap()@).unwrap(),
    ) is Err {
        Err(AuthorizationError::UnsupportedResponseType)
    } else if param.client_id is None {
        Err(AuthorizationError::InvalidRequest)
    } else {
        Ok(())
    }
}

/// How an authorization-request failure is delivered: as an error redirect
/// when the request named a redirect target, and as a generic bad request
/// when it did not.
fn refuse(redirect_uri: &Option<String>, error: AuthorizationError, state: &Option<String>) -> (e:
    CustomError)
    ensures
        match redirect_uri {
            Some(next) => {
                &&& e matches CustomError::AuthenticationError(_)
                &&& e->AuthenticationError_0.next@ == next@
                &&& e->AuthenticationError_0.error == error
                &&& e->AuthenticationError_0.state == *state
            },
            None => e matches CustomError::BadRequest,
        },
{
    match redirect_uri {
        Some(next) => CustomError::AuthenticationError(
            ErrorAuthenticationResponse::new(next.as_str(), error, state),
        ),
        None => CustomError::BadRequest,
    }
}

impl AuthenticationRequest {
    pub fn scope(&self) -> (r: &Scopes)
        ensures
            r == &self.scope,
    {
        &self.scope
    }

    pub fn client_id(&self) -> (r: &str)
        ensures
            r@ == self.client_id@,
    {
        self.client_id.as_str()
    }

    pub fn response_type(&self) -> (r: &ResponseTypes)
        ensures
            r == &self.response_type,
    {
        &self.response_type
    }

    pub fn redirect_uri(&self) -> (r: &str)
        ensures
            r@ == self.redirect_uri@,
    {
        self.redirect_uri.as_str()
    }

    pub fn state(&self) -> (r: &Option<String>)
        ensures
            r == &self.state,
    {
        &self.state
    }

    pub fn nonce(&self) -> (r: &Option<String>)
        ensures
            r == &self.nonce,
    {
        &self.nonce
    }

    /// Parses the scope and response-type strings of a request whose other
    /// parameters are already known, answering parse failures with an error
    /// redirect to `redirect_uri`.
    pub fn new(
        scope: &str,
        response_type: &str,
        client_id: &str,
        redirect_uri: &str,
        state: &Option<String>,
        nonce: &Option<String>,
    ) -> (r: Result<AuthenticationRequest, CustomError>)
        ensures
            match r {
                Ok(req) => {
                    &&& spec_parse_scopes(scope@) == Ok::<Seq<Scope>, ParseError>(req.scope.scopes@)
                    &&& spec_parse_response_types(response_type@) == Ok::<
                        Seq<ResponseType>,
                        ParseError,
                    >(req.response_type.types@)
                    &&& req.client_id@ == client_id@
                    &&& req.redirect_uri@ == redirect_uri@
                    &&& req.state == *state
                    &&& req.nonce == *nonce
                },
                Err(e) => {
                    &&& e matches CustomError::AuthenticationError(_)
                    &&& e->AuthenticationError_0.next@ == redirect_uri@
                    &&& e->AuthenticationError_0.state == *state
                    &&& if spec_parse_scopes(scope@) is Err {
                        e->AuthenticationError_0.error == AuthorizationError::InvalidScope
                    } else {
                        spec_parse_response_types(response_type@) is Err
                            && e->AuthenticationError_0.error
                            == AuthorizationError::UnsupportedResponseType
                    }
                },
            },
    {
        let parsed_scope = match Scopes::from_str(scope) {
            Ok(sc) => sc,
            Err(_) => {
                return Err(CustomError::AuthenticationError(ErrorAuthenticationResponse::new(
                    redirect_uri,
                    AuthorizationError::InvalidScope,
                    state,
                )));
            },
        };
        let parsed_restype = match ResponseTypes::from_str(response_type) {
            Ok(ts) => ts,
            Err(_) => {
                return Err(CustomError::AuthenticationError(ErrorAuthenticationResponse::new(
                    redirect_uri,
                    AuthorizationError::UnsupportedResponseType,
                    state,
                )));
            },
        };
        Ok(AuthenticationRequest {
            scope: parsed_scope,
            response_type: parsed_restype,
            client_id: String::from_str(client_id),
            redirect_uri: String::from_str(redirect_uri),
            state: clone_opt_string(state),
            nonce: clone_opt_string(nonce),
        })
    }

    /// Validates an incoming request against the registered client: the
    /// parameters must be present, the scope and response-type lists must
    /// parse, and both must be permitted for this client.
    pub fn from(param: AuthenticationRequestParam, client: &Client) -> (r: Result<
        AuthenticationRequest,
        CustomError,
    >)
        ensures
            match r {
                Ok(req) => {
                    &&& spec_from_outcome(param, client.scope@, client.response_type@) is Ok
                    &&& param.scope is Some
                    &&& spec_parse_scopes(param.scope.unwrap()@) == Ok::<Seq<Scope>, ParseError>(
                        req.scope.scopes@,
                    )
                    &&& param.response_type is Some
                    &&& spec_parse_response_types(param.response_type.unwrap()@) == Ok::<
                        Seq<ResponseType>,
                        ParseError,
                    >(req.response_type.types@)
                    &&& param.client_id is Some
                    &&& req.client_id@ == param.client_id.unwrap()@
                    &&& req.redirect_uri@ == spec_redirect_of(param)
                    &&& req.state == param.state
                    &&& req.nonce == param.nonce
                },
                Err(e) => {
                    &&& spec_from_outcome(param, client.scope@, client.response_type@) is Err
                    &&& if param.redirect_uri is Some {
                        &&& e matches CustomError::AuthenticationError(_)
                        &&& e->AuthenticationError_0.error == spec_from_outcome(
                            param,
                            client.scope@,
                            client.response_type@,
                        )->Err_0
                        &&& e->AuthenticationError_0.next@ == param.redirect_uri.unwrap()@
                        &&& e->AuthenticationError_0.state == param.state
                    } else {
                        e matches CustomError::BadRequest
                    }
                },
            },
    {
        let redirect_uri = match &param.redirect_uri {
            Some(u) => u.clone(),
            None => String::new(),
        };
        let param_scope = match &param.scope {
            Some(s) => s,
            None => {
                return Err(refuse(
                    &param.redirect_uri,
                    AuthorizationError::InvalidRequest,
                    &param.state,
                ));
            },
        };
        let scope = match Scopes::from_str(param_scope.as_str()) {
            Ok(sc) => sc,
            Err(_) => {
                return Err(refuse(
                    &param.redirect_uri,
                    AuthorizationError::InvalidScope,
                    &param.state,
                ));
            },
        };
        if client.check_scopes(&scope).is_err() {
            return Err(refuse(&param.redirect_uri, AuthorizationError::InvalidScope, &param.state));
        }
        let param_res_type = match &param.response_type {
            Some(t) => t,
            None => {
                return Err(refuse(
                    &param.redirect_uri,
                    AuthorizationError::InvalidRequest,
                    &param.state,
                ));
            },
        };
        let response_type = match ResponseTypes::from_str(param_res_type.as_str()) {
            Ok(ts) => ts,
            Err(_) => {
                return Err(refuse(
                    &param.redirect_uri,
                    AuthorizationError::UnsupportedResponseType,
                    &param.state,
                ));
            },
        };
        if client.check_restypes(&response_type).is_err() {
            return Err(refuse(
                &param.redirect_uri,
                AuthorizationError::UnsupportedResponseType,
                &param.state,
            ));
        }
        let param_client_id = match &param.client_id {
            Some(c) => c.clone(),
            None => {
                return Err(refuse(
                    &param.redirect_uri,
                    AuthorizationError::InvalidRequest,
                    &param.state,
                ));
            },
        };
        Ok(AuthenticationRequest {
            scope,
            response_type,
            client_id: param_client_id,
            redirect_uri,
            state: clone_opt_string(&param.state),
            nonce: clone_opt_string(&param.nonce),
        })
    }
}

} // verus!
