//! The persisted entities of the server: registered clients, in-flight
//! authentication challenges, browser sessions, single-use authorization
//! codes, and access tokens.

use vstd::prelude::*;

verus! {

use crate::enums::{
    spec_parse_response_types, spec_parse_scopes, spec_scope_words, spec_response_type_words,
    ParseError, ResponseType, ResponseTypes, Scope, Scopes,
};
use crate::text::join_words;

/// Why a requested scope or response-type list was refused for a client.
#[derive(Clone, Copy, Debug, PartialEq, Eq, Structural)]
pub enum CheckError {
    /// The client's own registered list does not parse.
    Parse(ParseError),
    /// A requested value is not among the client's registered values.
    NotAllowed,
}

/// A registered relying party.
#[derive(Debug)]
pub struct Client {
    pub client_id: String,
    pub client_secret: String,
    pub scope: String,
    pub response_type: String,
    pub redirect_uri: String,
}

/// The mathematical value of a client: its fields as character sequences.
pub struct ClientView {
    pub client_id: Seq<char>,
    pub client_secret: Seq<char>,
    pub scope: Seq<char>,
    pub response_type: Seq<char>,
    pub redirect_uri: Seq<char>,
}

impl View for Client {
    type V = ClientView;

    open spec fn view(&self) -> ClientView {
        ClientView {
            client_id: self.client_id@,
            client_secret: self.client_secret@,
            scope: self.scope@,
            response_type: self.response_type@,
            redirect_uri: self.redirect_uri@,
        }
    }
}

/// What checking a requested scope list against a registered scope string
/// yields: every requested scope must be registered.
pub open spec fn spec_check_scopes(own: Seq<char>, requested: Seq<Scope>) -> Result<
    (),
    CheckError,
> {
    match spec_parse_scopes(own) {
        Ok(allowed) => {
            if forall|i: int| 0 <= i < requested.len() ==> allowed.contains(#[trigger] requested[i]) {
                Ok(())
            } else {
                Err(CheckError::NotAllowed)
            }
        },
        Err(e) => Err(CheckError::Parse(e)),
    }
}

/// What checking a requested response-type list against a registered
/// response-type string yields.
pub open spec fn spec_check_restypes(own: Seq<char>, requested: Seq<ResponseType>) -> Result<
    (),
    CheckError,
> {
    match spec_parse_response_types(own) {
        Ok(allowed) => {
            if forall|i: int| 0 <= i < requested.len() ==> allowed.contains(#[trigger] requested[i]) {
                Ok(())
            } else {
                Err(CheckError::NotAllowed)
            }
        },
        Err(e) => Err(CheckError::Parse(e)),
    }
}

/// Whether a scope list contains a given scope.
pub fn contains_scope(v: &Vec<Scope>, sc: Scope) -> (r: bool)
    ensures
        r == v@.contains(sc),
{
    let n = v.len();
    let mut i: usize = 0;
    while i < n
        invariant
            i <= n,
            n == v.len(),
            forall|k: int| 0 <= k < i ==> v@[k] != sc,
        decreases n - i,
    {
        if v[i] == sc {
            return true;
        }
        i += 1;
    }
    false
}

fn contains_restype(v: &Vec<ResponseType>, t: ResponseType) -> (r: bool)
    ensures
        r == v@.contains(t),
{
    let n = v.len();
    let mut i: usize = 0;
    while i < n
        invariant
            i <= n,
            n == v.len(),
            forall|k: int| 0 <= k < i ==> v@[k] != t,
        decreases n - i,
    {
        if v[i] == t {
            return true;
        }
        i += 1;
    }
    false
}

impl Client {
    /// Checks that every requested scope is among this client's registered
    /// scopes.
    pub fn check_scopes(&self, scopes: &Scopes) -> (r: Result<(), CheckError>)
        ensures
            r == spec_check_scopes(self.scope@, scopes.scopes@),
    {
        let own = match Scopes::from_str(self.scope.as_str()) {
            Ok(own) => own,
            Err(e) => {
                return Err(CheckError::Parse(e));
            },
        };
        let n = scopes.scopes.len();
        let mut i: usize = 0;
        while i < n
            invariant
                i <= n,
                n == scopes.scopes.len(),
                spec_parse_scopes(self.scope@) == Ok::<Seq<Scope>, ParseError>(own.scopes@),
                forall|k: int| 0 <= k < i ==> own.scopes@.contains(#[trigger] scopes.scopes@[k]),
            decreases n - i,
        {
            if !contains_scope(&own.scopes, scopes.scopes[i]) {
                return Err(CheckError::NotAllowed);
            }
            i += 1;
        }
        Ok(())
    }

    /// Checks that every requested response type is among this client's
    /// registered response types.
    pub fn check_restypes(&self, restypes: &ResponseTypes) -> (r: Result<(), CheckError>)
        ensures
            r == spec_check_restypes(self.response_type@, restypes.types@),
    {
        let own = match ResponseTypes::from_str(self.response_type.as_str()) {
            Ok(own) => own,
            Err(e) => {
                return Err(CheckError::Parse(e));
            },
        };
        let n = restypes.types.len();
        let mut i: usize = 0;
        while i < n
            invariant
                i <= n,
                n == restypes.types.len(),
                spec_parse_response_types(self.response_type@) == Ok::<
                    Seq<ResponseType>,
                    ParseError,
                >(own.types@),
                forall|k: int| 0 <= k < i ==> own.types@.contains(#[trigger] restypes.types@[k]),
            decreases n - i,
        {
            if !contains_restype(&own.types, restypes.types[i]) {
                return Err(CheckError::NotAllowed);
            }
            i += 1;
        }
        Ok(())
    }
}

/// An in-flight authorization attempt, correlated across the login and
/// consent steps by its opaque challenge id.
#[derive(Debug)]
pub struct AuthChallenge {
    pub challenge: String,
    pub client_id: String,
    pub scope: String,
    pub response_type: String,
    pub redirect_uri: String,
    pub state: Option<String>,
    pub nonce: Option<String>,
}

/// The mathematical value of an authentication challenge.
pub struct AuthChallengeView {
    pub challenge: Seq<char>,
    pub client_id: Seq<char>,
    pub scope: Seq<char>,
    pub response_type: Seq<char>,
    pub redirect_uri: Seq<char>,
    pub state: Option<Seq<char>>,
    pub nonce: Option<Seq<char>>,
}

impl View for AuthChallenge {
    type V = AuthChallengeView;

    open spec fn view(&self) -> AuthChallengeView {
        AuthChallengeView {
            challenge: self.challenge@,
            client_id: self.client_id@,
            scope: self.scope@,
            response_type: self.response_type@,
            redirect_uri: self.redirect_uri@,
            state: self.state.deep_view(),
            nonce: self.nonce.deep_view(),
        }
    }
}

impl AuthChallenge {
    /// Captures a validated authentication request under a fresh challenge id.
    pub fn from_auth_request(challenge: &str, req: crate::authentication::AuthenticationRequest)
        -> (r: AuthChallenge)
        ensures
            r.challenge@ == challenge@,
            r.client_id@ == req.client_id@,
            r.scope@ == join_words(spec_scope_words(req.scope.scopes@)),
            r.response_type@ == join_words(spec_response_type_words(req.response_type.types@)),
            r.redirect_uri@ == req.redirect_uri@,
            r.state == req.state,
            r.nonce == req.nonce,
    {
        AuthChallenge {
            challenge: String::from_str(challenge),
            client_id: req.client_id,
            scope: req.scope.to_string(),
            response_type: req.response_type.to_string(),
            redirect_uri: req.redirect_uri,
            state: req.state,
            nonce: req.nonce,
        }
    }

    /// Rebuilds the validated request this challenge captured; fails with an
    /// error redirect exactly when the stored scope or response-type string
    /// no longer parses.
    pub fn into_auth_request(self) -> (r: Result<
        crate::authentication::AuthenticationRequest,
        crate::error::CustomError,
    >)
        ensures
            match r {
                Ok(req) => {
                    &&& spec_parse_scopes(self.scope@) == Ok::<Seq<Scope>, ParseError>(
                        req.scope.scopes@,
                    )
                    &&& spec_parse_response_types(self.response_type@) == Ok::<
                        Seq<ResponseType>,
                        ParseError,
                    >(req.response_type.types@)
                    &&& req.client_id@ == self.client_id@
                    &&& req.redirect_uri@ == self.redirect_uri@
                    &&& req.state == self.state
                    &&& req.nonce == self.nonce
                },
                Err(_) => spec_parse_scopes(self.scope@) is Err || spec_parse_response_types(
                    self.response_type@,
                ) is Err,
            },
    {
        crate::authentication::AuthenticationRequest::new(
            self.scope.as_str(),
            self.response_type.as_str(),
            self.client_id.as_str(),
            self.redirect_uri.as_str(),
            &self.state,
            &self.nonce,
        )
    }
}

/// An authenticated end-user's browser session.
#[derive(Debug)]
pub struct Session {
    pub session_id: String,
}

/// The mathematical value of a session.
pub struct SessionView {
    pub session_id: Seq<char>,
}

impl View for Session {
    type V = SessionView;

    open spec fn view(&self) -> SessionView {
        SessionView { session_id: self.session_id@ }
    }
}

/// A single-use authorization code bound to the consent that minted it.
#[derive(Debug)]
pub struct AuthCode {
    pub code: String,
    pub client_id: String,
    pub user_id: String,
    pub scope: String,
    pub nonce: String,
}

/// The mathematical value of an authorization code.
pub struct AuthCodeView {
    pub code: Seq<char>,
    pub client_id: Seq<char>,
    pub user_id: Seq<char>,
    pub scope: Seq<char>,
    pub nonce: Seq<char>,
}

impl View for AuthCode {
    type V = AuthCodeView;

    open spec fn view(&self) -> AuthCodeView {
        AuthCodeView {
            code: self.code@,
            client_id: self.client_id@,
            user_id: self.user_id@,
            scope: self.scope@,
            nonce: self.nonce@,
        }
    }
}

/// Validity window of an access token, in seconds.
pub const TOKEN_TTL_SECONDS: u64 = 3600;

/// A bearer access token with its issuance time (seconds since the epoch).
#[derive(Debug)]
pub struct Token {
    pub access_token: String,
    pub user_id: String,
    pub scope: String,
    pub created_at: u64,
}

/// The mathematical value of an access token.
pub struct TokenView {
    pub access_token: Seq<char>,
    pub user_id: Seq<char>,
    pub scope: Seq<char>,
    pub created_at: u64,
}

impl View for Token {
    type V = TokenView;

    open spec fn view(&self) -> TokenView {
        TokenView {
            access_token: self.access_token@,
            user_id: self.user_id@,
            scope: self.scope@,
            created_at: self.created_at,
        }
    }
}

impl Token {
    /// Whether the token is still inside its validity window at `now`.
    pub fn is_valid(&self, now: u64) -> (r: bool)
        ensures
            r == (now <= self.created_at + TOKEN_TTL_SECONDS),
    {
        if now <= self.created_at {
            true
        } else {
            now - self.created_at <= TOKEN_TTL_SECONDS
        }
    }
}

/// An access token as handed to the store, before the issuance time is
/// attached.
#[derive(Debug)]
pub struct NewToken {
    pub access_token: String,
    pub user_id: String,
    pub scope: String,
}

impl NewToken {
    /// Attaches the issuance time, as the store does when the token is
    /// persisted.
    pub fn into_token(self, now: u64) -> (r: Token)
        ensures
            r.access_token@ == self.access_token@,
            r.user_id@ == self.user_id@,
            r.scope@ == self.scope@,
            r.created_at == now,
    {
        Token {
            access_token: self.access_token,
            user_id: self.user_id,
            scope: self.scope,
            created_at: now,
        }
    }
}

} // verus!
