//! The protocol engine: one function per HTTP step, each a transition over
//! the persisted state with an exact contract. The layer that speaks HTTP
//! extracts parameters and cookies, hands them in as plain values, and turns
//! results and errors into responses.

use vstd::prelude::*;

verus! {

use vstd::string::*;

use crate::authentication::{
    clone_opt_string, spec_from_outcome, spec_redirect_of, AuthenticationRequest,
    AuthenticationRequestParam, AuthorizationError, ErrorAuthenticationResponse,
    SuccessfulAuthenticationResponse,
};
use crate::challenge::generate_challenge;
use crate::context::{ConsentContext, LoginContext};
use crate::enums::{
    spec_parse_response_types, spec_parse_scopes, spec_response_type_words, spec_scope_words,
    Scope,
};
use crate::text::{join_words, str_eq};
use crate::error::CustomError;
use crate::jwt::{sign_id_token, spec_claims_json, spec_jws};
use crate::models::{
    AuthChallenge, AuthChallengeView, AuthCode, AuthCodeView, Client, ClientView, NewToken,
    Session, SessionView, Token, TokenView, TOKEN_TTL_SECONDS,
};
use crate::request::{ClientParams, ConsentGetParams, ConsentParams, LoginParams};
use crate::response::RedirectWithCookie;
use crate::store::Db;
use crate::token::{Basic, IdToken, SuccessfulTokenResponse, TokenError, TokenRequest};
use crate::userinfo::{SuccessfulUserinfoResponse, UserinfoRequest};

/// The whole persisted state as one mathematical value.
pub struct DbView {
    pub clients: Map<Seq<char>, ClientView>,
    pub auth_challenges: Map<Seq<char>, AuthChallengeView>,
    pub sessions: Map<Seq<char>, SessionView>,
    pub auth_codes: Map<Seq<char>, AuthCodeView>,
    pub tokens: Map<Seq<char>, TokenView>,
}

impl View for Db {
    type V = DbView;

    open spec fn view(&self) -> DbView {
        DbView {
            clients: self.clients@,
            auth_challenges: self.auth_challenges@,
            sessions: self.sessions@,
            auth_codes: self.auth_codes@,
            tokens: self.tokens@,
        }
    }
}

/// Whether a session cookie names a live session.
pub open spec fn spec_session_ok(db: DbView, session_id: Option<Seq<char>>) -> bool {
    session_id is Some && db.sessions.contains_key(session_id.unwrap())
}

/// How both consent steps admit a request: the session is examined first,
/// then the challenge; on success the pending challenge is the result.
pub open spec fn spec_consent_decision(
    db: DbView,
    session_id: Option<Seq<char>>,
    challenge: Seq<char>,
) -> Result<AuthChallengeView, CustomError> {
    if !spec_session_ok(db, session_id) {
        Err(CustomError::SessionError)
    } else if !db.auth_challenges.contains_key(challenge) {
        Err(CustomError::ChallengeError)
    } else {
        Ok(db.auth_challenges[challenge])
    }
}

/// Whether the consent form reports the grant: the form sends `true` when
/// the end user approves.
pub open spec fn spec_consent_granted(consent: Seq<char>) -> bool {
    consent == "true"@
}

/// The authorization code minted from a consented challenge.
pub open spec fn spec_minted_code(ch: AuthChallengeView, code: Seq<char>) -> AuthCodeView {
    AuthCodeView {
        code: code,
        client_id: ch.client_id,
        user_id: "userid"@,
        scope: ch.scope,
        nonce: if ch.nonce is Some {
            ch.nonce.unwrap()
        } else {
            Seq::<char>::empty()
        },
    }
}

fn session_exists(db: &Db, session_id: &Option<String>) -> (r: bool)
    requires
        db.wf(),
    ensures
        r == spec_session_ok(db@, session_id.deep_view()),
{
    match session_id {
        Some(id) => db.sessions.find(id).is_some(),
        None => false,
    }
}

/// Displays the consent prompt: requires a live session, then a pending
/// challenge; the state is not changed.
pub fn get_authorization(
    db: &Db,
    session_id: &Option<String>,
    consentgetparam: Option<ConsentGetParams>,
) -> (r: Result<ConsentContext, CustomError>)
    requires
        db.wf(),
    ensures
        match r {
            Ok(ctx) => {
                &&& consentgetparam is Some
                &&& spec_consent_decision(
                    db@,
                    session_id.deep_view(),
                    consentgetparam.unwrap().consent_challenge@,
                ) is Ok
                &&& ctx.consent_challenge@ == consentgetparam.unwrap().consent_challenge@
                &&& ctx.state == consentgetparam.unwrap().state
            },
            Err(e) => match e {
                CustomError::SessionError => !spec_session_ok(db@, session_id.deep_view()),
                CustomError::BadRequest => spec_session_ok(db@, session_id.deep_view())
                    && consentgetparam is None,
                CustomError::ChallengeError => {
                    &&& spec_session_ok(db@, session_id.deep_view())
                    &&& consentgetparam is Some
                    &&& !db@.auth_challenges.contains_key(
                        consentgetparam.unwrap().consent_challenge@,
                    )
                },
                _ => false,
            },
        },
{
    if !session_exists(db, session_id) {
        return Err(CustomError::SessionError);
    }
    let param = match consentgetparam {
        Some(p) => p,
        None => {
            return Err(CustomError::BadRequest);
        },
    };
    if db.auth_challenges.find(&param.consent_challenge).is_none() {
        return Err(CustomError::ChallengeError);
    }
    Ok(ConsentContext { consent_challenge: param.consent_challenge, state: param.state })
}

/// Consent submission under a caller-supplied fresh code id: when consent
/// is granted the authorization code is minted from the challenge, the
/// challenge is deleted so that it cannot be used again, and the response
/// redirects to the client's `redirect_uri` carrying the code and the
/// `state`; a denial is answered with an `access_denied` redirect and
/// leaves the challenge pending.
pub fn grant_consent(
    db: &mut Db,
    session_id: &Option<String>,
    consentparam: &ConsentParams,
    code: String,
) -> (r: Result<SuccessfulAuthenticationResponse, CustomError>)
    requires
        old(db).wf(),
    ensures
        final(db).wf(),
        match r {
            Ok(resp) => {
                let dec = spec_consent_decision(
                    old(db)@,
                    session_id.deep_view(),
                    consentparam.consent_challenge@,
                );
                &&& dec is Ok
                &&& spec_consent_granted(consentparam.consent@)
                &&& !old(db)@.auth_codes.contains_key(code@)
                &&& final(db)@.auth_codes == old(db)@.auth_codes.insert(
                    code@,
                    spec_minted_code(dec->Ok_0, code@),
                )
                &&& final(db)@.auth_challenges == old(db)@.auth_challenges.remove(
                    consentparam.consent_challenge@,
                )
                &&& final(db)@.clients == old(db)@.clients
                &&& final(db)@.sessions == old(db)@.sessions
                &&& final(db)@.tokens == old(db)@.tokens
                &&& resp.next@ == dec->Ok_0.redirect_uri
                &&& resp.code@ == code@
                &&& resp.state == consentparam.state
            },
            Err(e) => {
                let dec = spec_consent_decision(
                    old(db)@,
                    session_id.deep_view(),
                    consentparam.consent_challenge@,
                );
                &&& *final(db) == *old(db)
                &&& match e {
                    CustomError::SessionError => dec == Err::<AuthChallengeView, CustomError>(
                        CustomError::SessionError,
                    ),
                    CustomError::ChallengeError => dec == Err::<AuthChallengeView, CustomError>(
                        CustomError::ChallengeError,
                    ),
                    CustomError::AuthenticationError(resp) => {
                        &&& dec is Ok
                        &&& !spec_consent_granted(consentparam.consent@)
                        &&& resp.error == AuthorizationError::AccessDenied
                        &&& resp.next@ == dec->Ok_0.redirect_uri
                        &&& resp.state == consentparam.state
                    },
                    CustomError::StorageUnavailable => {
                        &&& dec is Ok
                        &&& spec_consent_granted(consentparam.consent@)
                        &&& old(db)@.auth_codes.contains_key(code@)
                    },
                    _ => false,
                }
            },
        },
{
    if !session_exists(db, session_id) {
        return Err(CustomError::SessionError);
    }
    let (redirect_uri, client_id, scope, nonce) = match db.auth_challenges.find(
        &consentparam.consent_challenge,
    ) {
        Some(ch) => (
            ch.redirect_uri.clone(),
            ch.client_id.clone(),
            ch.scope.clone(),
            match &ch.nonce {
                Some(n) => n.clone(),
                None => String::new(),
            },
        ),
        None => {
            return Err(CustomError::ChallengeError);
        },
    };
    if !str_eq(consentparam.consent.as_str(), "true") {
        return Err(CustomError::AuthenticationError(ErrorAuthenticationResponse::new(
            redirect_uri.as_str(),
            AuthorizationError::AccessDenied,
            &consentparam.state,
        )));
    }
    let resp = SuccessfulAuthenticationResponse::new(
        redirect_uri.as_str(),
        code.as_str(),
        &consentparam.state,
    );
    let entry = AuthCode {
        code,
        client_id,
        user_id: String::from_str("userid"),
        scope,
        nonce,
    };
    if db.auth_codes.create(entry).is_err() {
        return Err(CustomError::StorageUnavailable);
    }
    match db.auth_challenges.delete(&consentparam.consent_challenge) {
        Ok(()) => {},
        Err(_) => {
            proof {
                assert(false);
            }
        },
    }
    Ok(resp)
}

/// The body of a successful client registration.
pub open spec fn spec_client_message(cid: Seq<char>, cs: Seq<char>) -> Seq<char> {
    "client_id: "@ + cid + ", client_secret: "@ + cs
}

/// The client record a registration request creates.
pub open spec fn spec_registered_client(
    param: ClientParams,
    cid: Seq<char>,
    cs: Seq<char>,
) -> ClientView {
    ClientView {
        client_id: cid,
        client_secret: cs,
        scope: param.scope@,
        response_type: param.response_type@,
        redirect_uri: param.redirect_uri@,
    }
}

/// Client registration under caller-supplied credentials: stores the client
/// as requested and reports its credentials.
pub fn register_client(
    db: &mut Db,
    param: &ClientParams,
    client_id: String,
    client_secret: String,
) -> (r: Result<String, CustomError>)
    requires
        old(db).wf(),
    ensures
        final(db).wf(),
        match r {
            Ok(msg) => {
                &&& !old(db)@.clients.contains_key(client_id@)
                &&& final(db)@.clients == old(db)@.clients.insert(
                    client_id@,
                    spec_registered_client(*param, client_id@, client_secret@),
                )
                &&& final(db)@.auth_challenges == old(db)@.auth_challenges
                &&& final(db)@.sessions == old(db)@.sessions
                &&& final(db)@.auth_codes == old(db)@.auth_codes
                &&& final(db)@.tokens == old(db)@.tokens
                &&& msg@ == spec_client_message(client_id@, client_secret@)
            },
            Err(e) => {
                &&& *final(db) == *old(db)
                &&& e matches CustomError::StorageUnavailable
                &&& old(db)@.clients.contains_key(client_id@)
            },
        },
{
    let msg_id = client_id.clone();
    let msg_secret = client_secret.clone();
    let entry = Client {
        client_id,
        client_secret,
        scope: param.scope.clone(),
        response_type: param.response_type.clone(),
        redirect_uri: param.redirect_uri.clone(),
    };
    if db.clients.create(entry).is_err() {
        return Err(CustomError::StorageUnavailable);
    }
    let mut msg = String::from_str("client_id: ");
    msg.append(msg_id.as_str());
    msg.append(", client_secret: ");
    msg.append(msg_secret.as_str());
    proof {
        assert(msg@ =~= spec_client_message(msg_id@, msg_secret@));
    }
    Ok(msg)
}

/// Client registration: mints a fresh client id and secret, stores the
/// client as requested, and reports its credentials.
pub fn get_client(db: &mut Db, clientparam: Option<ClientParams>) -> (r: Result<
    String,
    CustomError,
>)
    requires
        old(db).wf(),
    ensures
        final(db).wf(),
        match r {
            Ok(msg) => {
                &&& clientparam is Some
                &&& exists|cid: Seq<char>, cs: Seq<char>|
                    {
                        &&& !old(db)@.clients.contains_key(cid)
                        &&& final(db)@.clients == old(db)@.clients.insert(
                            cid,
                            spec_registered_client(clientparam.unwrap(), cid, cs),
                        )
                        &&& msg@ == #[trigger] spec_client_message(cid, cs)
                    }
                &&& final(db)@.auth_challenges == old(db)@.auth_challenges
                &&& final(db)@.sessions == old(db)@.sessions
                &&& final(db)@.auth_codes == old(db)@.auth_codes
                &&& final(db)@.tokens == old(db)@.tokens
            },
            Err(e) => {
                &&& *final(db) == *old(db)
                &&& match e {
                    CustomError::BadRequest => clientparam is None,
                    CustomError::StorageUnavailable => clientparam is Some,
                    _ => false,
                }
            },
        },
{
    let param = match clientparam {
        Some(p) => p,
        None => {
            return Err(CustomError::BadRequest);
        },
    };
    let client_id = generate_challenge();
    let client_secret = generate_challenge();
    let ghost cid = client_id@;
    let ghost cs = client_secret@;
    let r = register_client(db, &param, client_id, client_secret);
    proof {
        if r is Ok {
            assert(r->Ok_0@ == spec_client_message(cid, cs));
        }
    }
    r
}

/// The challenge record a valid authorization request creates: the parsed
/// scope and response-type lists in their canonical spellings, and the
/// request's correlation values.
pub open spec fn spec_minted_challenge(
    param: AuthenticationRequestParam,
    challenge: Seq<char>,
) -> AuthChallengeView {
    AuthChallengeView {
        challenge: challenge,
        client_id: param.client_id.unwrap()@,
        scope: join_words(spec_scope_words(spec_parse_scopes(param.scope.unwrap()@)->Ok_0)),
        response_type: join_words(
            spec_response_type_words(
                spec_parse_response_types(param.response_type.unwrap()@)->Ok_0,
            ),
        ),
        redirect_uri: spec_redirect_of(param),
        state: param.state.deep_view(),
        nonce: param.nonce.deep_view(),
    }
}

/// The authorization request under a caller-supplied fresh challenge id:
/// the client must exist and the requested scope and response type must
/// parse and be permitted for it; then a challenge capturing the request is
/// stored and handed to the login page.
pub fn start_authentication(
    db: &mut Db,
    param: AuthenticationRequestParam,
    challenge: String,
) -> (r: Result<LoginContext, CustomError>)
    requires
        old(db).wf(),
    ensures
        final(db).wf(),
        match r {
            Ok(ctx) => {
                &&& param.client_id is Some
                &&& old(db)@.clients.contains_key(param.client_id.unwrap()@)
                &&& spec_from_outcome(
                    param,
                    old(db)@.clients[param.client_id.unwrap()@].scope,
                    old(db)@.clients[param.client_id.unwrap()@].response_type,
                ) is Ok
                &&& !old(db)@.auth_challenges.contains_key(challenge@)
                &&& final(db)@.auth_challenges == old(db)@.auth_challenges.insert(
                    challenge@,
                    spec_minted_challenge(param, challenge@),
                )
                &&& final(db)@.clients == old(db)@.clients
                &&& final(db)@.sessions == old(db)@.sessions
                &&& final(db)@.auth_codes == old(db)@.auth_codes
                &&& final(db)@.tokens == old(db)@.tokens
                &&& ctx.error_msg is None
                &&& ctx.login_challenge@ == challenge@
                &&& ctx.state == param.state
            },
            Err(e) => {
                &&& *final(db) == *old(db)
                &&& match e {
                    CustomError::BadRequest => param.client_id is None || !old(
                        db,
                    )@.clients.contains_key(param.client_id.unwrap()@) || (param.redirect_uri
                        is None && spec_from_outcome(
                        param,
                        old(db)@.clients[param.client_id.unwrap()@].scope,
                        old(db)@.clients[param.client_id.unwrap()@].response_type,
                    ) is Err),
                    CustomError::AuthenticationError(resp) => {
                        &&& param.redirect_uri is Some
                        &&& param.client_id is Some
                        &&& old(db)@.clients.contains_key(param.client_id.unwrap()@)
                        &&& spec_from_outcome(
                            param,
                            old(db)@.clients[param.client_id.unwrap()@].scope,
                            old(db)@.clients[param.client_id.unwrap()@].response_type,
                        ) is Err
                        &&& resp.error == spec_from_outcome(
                            param,
                            old(db)@.clients[param.client_id.unwrap()@].scope,
                            old(db)@.clients[param.client_id.unwrap()@].response_type,
                        )->Err_0
                        &&& resp.next@ == spec_redirect_of(param)
                        &&& resp.state == param.state
                    },
                    CustomError::StorageUnavailable => {
                        &&& param.client_id is Some
                        &&& old(db)@.clients.contains_key(param.client_id.unwrap()@)
                        &&& spec_from_outcome(
                            param,
                            old(db)@.clients[param.client_id.unwrap()@].scope,
                            old(db)@.clients[param.client_id.unwrap()@].response_type,
                        ) is Ok
                        &&& old(db)@.auth_challenges.contains_key(challenge@)
                    },
                    _ => false,
                }
            },
        },
{
    let client_id = match &param.client_id {
        Some(c) => c.clone(),
        None => {
            return Err(CustomError::BadRequest);
        },
    };
    let req = {
        let cl = match db.clients.find(&client_id) {
            Some(c) => c,
            None => {
                return Err(CustomError::BadRequest);
            },
        };
        match AuthenticationRequest::from(param, cl) {
            Ok(rq) => rq,
            Err(e) => {
                return Err(e);
            },
        }
    };
    let state = clone_opt_string(&req.state);
    let entry = crate::models::AuthChallenge::from_auth_request(challenge.as_str(), req);
    if db.auth_challenges.create(entry).is_err() {
        return Err(CustomError::StorageUnavailable);
    }
    Ok(LoginContext { error_msg: None, login_challenge: challenge, state })
}

/// The authorization request: mints a fresh challenge id and starts the
/// flow under it.
pub fn get_authenticate(db: &mut Db, authparam: AuthenticationRequestParam) -> (r: Result<
    LoginContext,
    CustomError,
>)
    requires
        old(db).wf(),
    ensures
        final(db).wf(),
        match r {
            Ok(ctx) => {
                &&& authparam.client_id is Some
                &&& old(db)@.clients.contains_key(authparam.client_id.unwrap()@)
                &&& spec_from_outcome(
                    authparam,
                    old(db)@.clients[authparam.client_id.unwrap()@].scope,
                    old(db)@.clients[authparam.client_id.unwrap()@].response_type,
                ) is Ok
                &&& !old(db)@.auth_challenges.contains_key(ctx.login_challenge@)
                &&& final(db)@.auth_challenges == old(db)@.auth_challenges.insert(
                    ctx.login_challenge@,
                    spec_minted_challenge(authparam, ctx.login_challenge@),
                )
                &&& final(db)@.clients == old(db)@.clients
                &&& final(db)@.sessions == old(db)@.sessions
                &&& final(db)@.auth_codes == old(db)@.auth_codes
                &&& final(db)@.tokens == old(db)@.tokens
                &&& ctx.error_msg is None
                &&& ctx.state == authparam.state
            },
            Err(e) => {
                &&& *final(db) == *old(db)
                &&& match e {
                    CustomError::BadRequest => authparam.client_id is None || !old(
                        db,
                    )@.clients.contains_key(authparam.client_id.unwrap()@) || (authparam.redirect_uri
                        is None && spec_from_outcome(
                        authparam,
                        old(db)@.clients[authparam.client_id.unwrap()@].scope,
                        old(db)@.clients[authparam.client_id.unwrap()@].response_type,
                    ) is Err),
                    CustomError::AuthenticationError(resp) => {
                        &&& authparam.redirect_uri is Some
                        &&& authparam.client_id is Some
                        &&& old(db)@.clients.contains_key(authparam.client_id.unwrap()@)
                        &&& spec_from_outcome(
                            authparam,
                            old(db)@.clients[authparam.client_id.unwrap()@].scope,
                            old(db)@.clients[authparam.client_id.unwrap()@].response_type,
                        ) is Err
                        &&& resp.error == spec_from_outcome(
                            authparam,
                            old(db)@.clients[authparam.client_id.unwrap()@].scope,
                            old(db)@.clients[authparam.client_id.unwrap()@].response_type,
                        )->Err_0
                        &&& resp.next@ == spec_redirect_of(authparam)
                        &&& resp.state == authparam.state
                    },
                    CustomError::StorageUnavailable => {
                        &&& authparam.client_id is Some
                        &&& old(db)@.clients.contains_key(authparam.client_id.unwrap()@)
                        &&& spec_from_outcome(
                            authparam,
                            old(db)@.clients[authparam.client_id.unwrap()@].scope,
                            old(db)@.clients[authparam.client_id.unwrap()@].response_type,
                        ) is Ok
                    },
                    _ => false,
                }
            },
        },
{
    let challenge = generate_challenge();
    start_authentication(db, authparam, challenge)
}

/// Whether the presented end-user credentials are the known ones.
pub open spec fn spec_credentials_ok(username: Seq<char>, password: Seq<char>) -> bool {
    username == "foobar"@ && password == "1234"@
}

/// The consent-step redirect a successful login answers with.
pub open spec fn spec_login_next(ch: Seq<char>, state: Option<Seq<char>>) -> Seq<char> {
    "/authorization?consent_challenge="@ + ch + (if state is Some {
        "&state="@ + state.unwrap()
    } else {
        Seq::<char>::empty()
    })
}

/// Login submission under a caller-supplied fresh session id: the challenge
/// must be pending and the credentials right; then a session is stored and
/// the browser is sent to the consent step with its cookie set.
pub fn login(db: &mut Db, loginparam: &LoginParams, session_id: String) -> (r: Result<
    RedirectWithCookie,
    CustomError,
>)
    requires
        old(db).wf(),
    ensures
        final(db).wf(),
        match r {
            Ok(redir) => {
                &&& old(db)@.auth_challenges.contains_key(loginparam.login_challenge@)
                &&& spec_credentials_ok(loginparam.username@, loginparam.password@)
                &&& !old(db)@.sessions.contains_key(session_id@)
                &&& final(db)@.sessions == old(db)@.sessions.insert(
                    session_id@,
                    SessionView { session_id: session_id@ },
                )
                &&& final(db)@.clients == old(db)@.clients
                &&& final(db)@.auth_challenges == old(db)@.auth_challenges
                &&& final(db)@.auth_codes == old(db)@.auth_codes
                &&& final(db)@.tokens == old(db)@.tokens
                &&& redir.key@ == "session_id"@
                &&& redir.value@ == session_id@
                &&& redir.next@ == spec_login_next(
                    loginparam.login_challenge@,
                    loginparam.state.deep_view(),
                )
            },
            Err(e) => {
                &&& *final(db) == *old(db)
                &&& match e {
                    CustomError::ChallengeError => !old(db)@.auth_challenges.contains_key(
                        loginparam.login_challenge@,
                    ),
                    CustomError::ValidationError(ctx) => {
                        &&& old(db)@.auth_challenges.contains_key(loginparam.login_challenge@)
                        &&& !spec_credentials_ok(loginparam.username@, loginparam.password@)
                        &&& ctx.error_msg is Some
                        &&& ctx.error_msg.unwrap()@ == "username or password is incorrect"@
                        &&& ctx.login_challenge@ == loginparam.login_challenge@
                        &&& ctx.state == loginparam.state
                    },
                    CustomError::StorageUnavailable => {
                        &&& old(db)@.auth_challenges.contains_key(loginparam.login_challenge@)
                        &&& spec_credentials_ok(loginparam.username@, loginparam.password@)
                        &&& old(db)@.sessions.contains_key(session_id@)
                    },
                    _ => false,
                }
            },
        },
{
    if db.auth_challenges.find(&loginparam.login_challenge).is_none() {
        return Err(CustomError::ChallengeError);
    }
    if !(str_eq(loginparam.username.as_str(), "foobar") && str_eq(
        loginparam.password.as_str(),
        "1234",
    )) {
        return Err(CustomError::ValidationError(LoginContext {
            error_msg: Some(String::from_str("username or password is incorrect")),
            login_challenge: loginparam.login_challenge.clone(),
            state: clone_opt_string(&loginparam.state),
        }));
    }
    let cookie_value = session_id.clone();
    if db.sessions.create(Session { session_id }).is_err() {
        return Err(CustomError::StorageUnavailable);
    }
    let mut next = String::from_str("/authorization?consent_challenge=");
    next.append(loginparam.login_challenge.as_str());
    if let Some(s) = &loginparam.state {
        next.append("&state=");
        next.append(s.as_str());
    }
    proof {
        assert(next@ =~= spec_login_next(
            loginparam.login_challenge@,
            loginparam.state.deep_view(),
        ));
    }
    Ok(RedirectWithCookie {
        key: String::from_str("session_id"),
        value: cookie_value,
        next,
    })
}

/// Login submission: mints a fresh session id and logs in under it.
pub fn post_authenticate(db: &mut Db, loginparam: &LoginParams) -> (r: Result<
    RedirectWithCookie,
    CustomError,
>)
    requires
        old(db).wf(),
    ensures
        final(db).wf(),
        match r {
            Ok(redir) => {
                &&& old(db)@.auth_challenges.contains_key(loginparam.login_challenge@)
                &&& spec_credentials_ok(loginparam.username@, loginparam.password@)
                &&& !old(db)@.sessions.contains_key(redir.value@)
                &&& final(db)@.sessions == old(db)@.sessions.insert(
                    redir.value@,
                    SessionView { session_id: redir.value@ },
                )
                &&& final(db)@.clients == old(db)@.clients
                &&& final(db)@.auth_challenges == old(db)@.auth_challenges
                &&& final(db)@.auth_codes == old(db)@.auth_codes
                &&& final(db)@.tokens == old(db)@.tokens
                &&& redir.key@ == "session_id"@
                &&& redir.next@ == spec_login_next(
                    loginparam.login_challenge@,
                    loginparam.state.deep_view(),
                )
            },
            Err(e) => {
                &&& *final(db) == *old(db)
                &&& match e {
                    CustomError::ChallengeError => !old(db)@.auth_challenges.contains_key(
                        loginparam.login_challenge@,
                    ),
                    CustomError::ValidationError(ctx) => {
                        &&& old(db)@.auth_challenges.contains_key(loginparam.login_challenge@)
                        &&& !spec_credentials_ok(loginparam.username@, loginparam.password@)
                        &&& ctx.error_msg is Some
                        &&& ctx.error_msg.unwrap()@ == "username or password is incorrect"@
                        &&& ctx.login_challenge@ == loginparam.login_challenge@
                        &&& ctx.state == loginparam.state
                    },
                    CustomError::StorageUnavailable => {
                        &&& old(db)@.auth_challenges.contains_key(loginparam.login_challenge@)
                        &&& spec_credentials_ok(loginparam.username@, loginparam.password@)
                    },
                    _ => false,
                }
            },
        },
{
    let session_id = generate_challenge();
    login(db, loginparam, session_id)
}

/// Consent submission: mints a fresh code id and, when consent is granted,
/// issues an authorization code under it; a denial is answered with an
/// `access_denied` redirect and leaves the challenge pending.
pub fn post_authorization(
    db: &mut Db,
    session_id: &Option<String>,
    consentparam: &ConsentParams,
) -> (r: Result<SuccessfulAuthenticationResponse, CustomError>)
    requires
        old(db).wf(),
    ensures
        final(db).wf(),
        match r {
            Ok(resp) => {
                let dec = spec_consent_decision(
                    old(db)@,
                    session_id.deep_view(),
                    consentparam.consent_challenge@,
                );
                &&& dec is Ok
                &&& spec_consent_granted(consentparam.consent@)
                &&& !old(db)@.auth_codes.contains_key(resp.code@)
                &&& final(db)@.auth_codes == old(db)@.auth_codes.insert(
                    resp.code@,
                    spec_minted_code(dec->Ok_0, resp.code@),
                )
                &&& final(db)@.auth_challenges == old(db)@.auth_challenges.remove(
                    consentparam.consent_challenge@,
                )
                &&& final(db)@.clients == old(db)@.clients
                &&& final(db)@.sessions == old(db)@.sessions
                &&& final(db)@.tokens == old(db)@.tokens
                &&& resp.next@ == dec->Ok_0.redirect_uri
                &&& resp.state == consentparam.state
            },
            Err(e) => {
                let dec = spec_consent_decision(
                    old(db)@,
                    session_id.deep_view(),
                    consentparam.consent_challenge@,
                );
                &&& *final(db) == *old(db)
                &&& match e {
                    CustomError::SessionError => dec == Err::<AuthChallengeView, CustomError>(
                        CustomError::SessionError,
                    ),
                    CustomError::ChallengeError => dec == Err::<AuthChallengeView, CustomError>(
                        CustomError::ChallengeError,
                    ),
                    CustomError::AuthenticationError(resp) => {
                        &&& dec is Ok
                        &&& !spec_consent_granted(consentparam.consent@)
                        &&& resp.error == AuthorizationError::AccessDenied
                        &&& resp.next@ == dec->Ok_0.redirect_uri
                        &&& resp.state == consentparam.state
                    },
                    CustomError::StorageUnavailable => dec is Ok && spec_consent_granted(
                        consentparam.consent@,
                    ),
                    _ => false,
                }
            },
        },
{
    let code = generate_challenge();
    grant_consent(db, session_id, consentparam, code)
}

/// Validity window of an ID token, in seconds.
pub const ID_TOKEN_TTL_SECONDS: u64 = 43200;

/// The decision of the token exchange before any signing or storage: the
/// code must be live, its client known, and the presented credentials that
/// client's.
pub open spec fn spec_exchange_decision(
    db: DbView,
    code: Seq<char>,
    cid: Seq<char>,
    csec: Seq<char>,
) -> Result<AuthCodeView, CustomError> {
    if !db.auth_codes.contains_key(code) {
        Err(CustomError::TokenError(TokenError::InvalidGrant))
    } else {
        let ac = db.auth_codes[code];
        if !db.clients.contains_key(ac.client_id) {
            Err(CustomError::TokenError(TokenError::InvalidClient))
        } else {
            let cl = db.clients[ac.client_id];
            if cid != cl.client_id || csec != cl.client_secret {
                Err(CustomError::UnauthorizedError)
            } else {
                Ok(ac)
            }
        }
    }
}

/// The state after the code has been consumed and nothing else changed.
pub open spec fn spec_code_consumed(pre: DbView, post: DbView, code: Seq<char>) -> bool {
    &&& post.auth_codes == pre.auth_codes.remove(code)
    &&& post.clients == pre.clients
    &&& post.sessions == pre.sessions
    &&& post.auth_challenges == pre.auth_challenges
    &&& post.tokens == pre.tokens
}

/// The access token a redeemed code mints.
pub open spec fn spec_issued_token(ac: AuthCodeView, access_token: Seq<char>, now: u64)
    -> TokenView {
    TokenView { access_token: access_token, user_id: ac.user_id, scope: ac.scope, created_at: now }
}

/// The signed ID token a redeemed code yields at `now`.
pub open spec fn spec_id_token_jws(secret: Seq<u8>, ac: AuthCodeView, now: u64) -> Seq<char> {
    spec_jws(
        secret,
        spec_claims_json(
            "http://example.com"@,
            ac.user_id,
            ac.client_id,
            (now + ID_TOKEN_TTL_SECONDS) as u64,
            now,
            ac.nonce,
        ),
    )
}

/// Token exchange under a caller-supplied fresh access token: the code is
/// looked up and deleted — whatever happens afterwards, it cannot be
/// redeemed again — the client's credentials are checked, an access token is
/// stored, and the signed ID token is returned.
pub fn exchange_token(
    db: &mut Db,
    tokenparam: &TokenRequest,
    basic: &Basic,
    access_token: String,
    now: u64,
    secret: &Vec<u8>,
) -> (r: Result<SuccessfulTokenResponse, CustomError>)
    requires
        old(db).wf(),
        now <= u64::MAX - ID_TOKEN_TTL_SECONDS,
    ensures
        final(db).wf(),
        match r {
            Ok(resp) => {
                let dec = spec_exchange_decision(
                    old(db)@,
                    tokenparam.code@,
                    basic.client_id@,
                    basic.client_secret@,
                );
                &&& dec is Ok
                &&& !old(db)@.tokens.contains_key(access_token@)
                &&& final(db)@.tokens == old(db)@.tokens.insert(
                    access_token@,
                    spec_issued_token(dec->Ok_0, access_token@, now),
                )
                &&& final(db)@.auth_codes == old(db)@.auth_codes.remove(tokenparam.code@)
                &&& final(db)@.clients == old(db)@.clients
                &&& final(db)@.sessions == old(db)@.sessions
                &&& final(db)@.auth_challenges == old(db)@.auth_challenges
                &&& resp.access_token@ == access_token@
                &&& resp.token_type@ == "Bearer"@
                &&& resp.refresh_token is None
                &&& resp.expires_in == 3600
                &&& resp.id_token@ == spec_id_token_jws(secret@, dec->Ok_0, now)
            },
            Err(e) => {
                let dec = spec_exchange_decision(
                    old(db)@,
                    tokenparam.code@,
                    basic.client_id@,
                    basic.client_secret@,
                );
                match e {
                    CustomError::TokenError(TokenError::InvalidGrant) => {
                        &&& dec == Err::<AuthCodeView, CustomError>(
                            CustomError::TokenError(TokenError::InvalidGrant),
                        )
                        &&& *final(db) == *old(db)
                    },
                    CustomError::TokenError(TokenError::InvalidClient) => {
                        &&& dec == Err::<AuthCodeView, CustomError>(
                            CustomError::TokenError(TokenError::InvalidClient),
                        )
                        &&& spec_code_consumed(old(db)@, final(db)@, tokenparam.code@)
                    },
                    CustomError::UnauthorizedError => {
                        &&& dec == Err::<AuthCodeView, CustomError>(CustomError::UnauthorizedError)
                        &&& spec_code_consumed(old(db)@, final(db)@, tokenparam.code@)
                    },
                    CustomError::SigningError => {
                        &&& dec is Ok
                        &&& spec_code_consumed(old(db)@, final(db)@, tokenparam.code@)
                    },
                    CustomError::StorageUnavailable => {
                        &&& dec is Ok
                        &&& old(db)@.tokens.contains_key(access_token@)
                        &&& spec_code_consumed(old(db)@, final(db)@, tokenparam.code@)
                    },
                    _ => false,
                }
            },
        },
{
    let ac = match db.auth_codes.find(&tokenparam.code) {
        Some(c) => AuthCode {
            code: c.code.clone(),
            client_id: c.client_id.clone(),
            user_id: c.user_id.clone(),
            scope: c.scope.clone(),
            nonce: c.nonce.clone(),
        },
        None => {
            return Err(CustomError::TokenError(TokenError::InvalidGrant));
        },
    };
    match db.auth_codes.delete(&tokenparam.code) {
        Ok(()) => {},
        Err(_) => {
            proof {
                assert(false);
            }
        },
    }
    let (known_id, known_secret) = match db.clients.find(&ac.client_id) {
        Some(cl) => (cl.client_id.clone(), cl.client_secret.clone()),
        None => {
            return Err(CustomError::TokenError(TokenError::InvalidClient));
        },
    };
    if !(str_eq(basic.client_id.as_str(), known_id.as_str()) && str_eq(
        basic.client_secret.as_str(),
        known_secret.as_str(),
    )) {
        return Err(CustomError::UnauthorizedError);
    }
    let claims = IdToken {
        iss: String::from_str("http://example.com"),
        sub: ac.user_id.clone(),
        aud: ac.client_id.clone(),
        exp: now + ID_TOKEN_TTL_SECONDS,
        iat: now,
        nonce: ac.nonce.clone(),
    };
    let id_token = match sign_id_token(secret, &claims) {
        Some(t) => t,
        None => {
            return Err(CustomError::SigningError);
        },
    };
    let entry = NewToken {
        access_token: access_token.clone(),
        user_id: ac.user_id,
        scope: ac.scope,
    }.into_token(now);
    if db.tokens.create(entry).is_err() {
        return Err(CustomError::StorageUnavailable);
    }
    Ok(SuccessfulTokenResponse {
        access_token,
        token_type: String::from_str("Bearer"),
        refresh_token: None,
        expires_in: 3600,
        id_token,
    })
}

/// Token exchange: mints a fresh access token and redeems the code under it.
pub fn post_token(
    db: &mut Db,
    tokenparam: &TokenRequest,
    basic: &Basic,
    now: u64,
    secret: &Vec<u8>,
) -> (r: Result<SuccessfulTokenResponse, CustomError>)
    requires
        old(db).wf(),
        now <= u64::MAX - ID_TOKEN_TTL_SECONDS,
    ensures
        final(db).wf(),
        match r {
            Ok(resp) => {
                let dec = spec_exchange_decision(
                    old(db)@,
                    tokenparam.code@,
                    basic.client_id@,
                    basic.client_secret@,
                );
                &&& dec is Ok
                &&& !old(db)@.tokens.contains_key(resp.access_token@)
                &&& final(db)@.tokens == old(db)@.tokens.insert(
                    resp.access_token@,
                    spec_issued_token(dec->Ok_0, resp.access_token@, now),
                )
                &&& final(db)@.auth_codes == old(db)@.auth_codes.remove(tokenparam.code@)
                &&& final(db)@.clients == old(db)@.clients
                &&& final(db)@.sessions == old(db)@.sessions
                &&& final(db)@.auth_challenges == old(db)@.auth_challenges
                &&& resp.token_type@ == "Bearer"@
                &&& resp.refresh_token is None
                &&& resp.expires_in == 3600
                &&& resp.id_token@ == spec_id_token_jws(secret@, dec->Ok_0, now)
            },
            Err(e) => {
                let dec = spec_exchange_decision(
                    old(db)@,
                    tokenparam.code@,
                    basic.client_id@,
                    basic.client_secret@,
                );
                match e {
                    CustomError::TokenError(TokenError::InvalidGrant) => {
                        &&& dec == Err::<AuthCodeView, CustomError>(
                            CustomError::TokenError(TokenError::InvalidGrant),
                        )
                        &&& *final(db) == *old(db)
                    },
                    CustomError::TokenError(TokenError::InvalidClient) => {
                        &&& dec == Err::<AuthCodeView, CustomError>(
                            CustomError::TokenError(TokenError::InvalidClient),
                        )
                        &&& spec_code_consumed(old(db)@, final(db)@, tokenparam.code@)
                    },
                    CustomError::UnauthorizedError => {
                        &&& dec == Err::<AuthCodeView, CustomError>(CustomError::UnauthorizedError)
                        &&& spec_code_consumed(old(db)@, final(db)@, tokenparam.code@)
                    },
                    CustomError::SigningError => {
                        &&& dec is Ok
                        &&& spec_code_consumed(old(db)@, final(db)@, tokenparam.code@)
                    },
                    CustomError::StorageUnavailable => {
                        &&& dec is Ok
                        &&& spec_code_consumed(old(db)@, final(db)@, tokenparam.code@)
                    },
                    _ => false,
                }
            },
        },
{
    let access_token = generate_challenge();
    exchange_token(db, tokenparam, basic, access_token, now, secret)
}

/// Whether a stored access token is still inside its validity window.
pub open spec fn spec_token_fresh(t: TokenView, now: u64) -> bool {
    now <= t.created_at + TOKEN_TTL_SECONDS
}

/// Which claims a scope list grants.
pub open spec fn spec_grants_email(scopes: Seq<Scope>) -> bool {
    scopes.contains(Scope::Email) || scopes.contains(Scope::All)
}

pub open spec fn spec_grants_phone(scopes: Seq<Scope>) -> bool {
    scopes.contains(Scope::Phone) || scopes.contains(Scope::All)
}

pub open spec fn spec_grants_address(scopes: Seq<Scope>) -> bool {
    scopes.contains(Scope::Address) || scopes.contains(Scope::All)
}

/// Userinfo access: admitted purely on the bearer token being stored and inside
/// its validity window; the claims disclosed are exactly those the token's
/// scope grants.
pub fn get_userinfo(db: &Db, inforeq: &UserinfoRequest, now: u64) -> (r: Result<
    SuccessfulUserinfoResponse,
    CustomError,
>)
    requires
        db.wf(),
        db@.tokens.contains_key(inforeq.bearer@) && spec_token_fresh(
            db@.tokens[inforeq.bearer@],
            now,
        ) ==> spec_parse_scopes(db@.tokens[inforeq.bearer@].scope) is Ok,
    ensures
        match r {
            Ok(res) => {
                let t = db@.tokens[inforeq.bearer@];
                let scopes = spec_parse_scopes(t.scope)->Ok_0;
                &&& db@.tokens.contains_key(inforeq.bearer@)
                &&& spec_token_fresh(t, now)
                &&& res.sub@ == "userid"@
                &&& res.name@ == "tarou tanaka"@
                &&& res.email.deep_view() == (if spec_grants_email(scopes) {
                    Some("test@example.com"@)
                } else {
                    None::<Seq<char>>
                })
                &&& res.email_verified == (if spec_grants_email(scopes) {
                    Some(true)
                } else {
                    None::<bool>
                })
                &&& res.address.deep_view() == (if spec_grants_address(scopes) {
                    Some("address"@)
                } else {
                    None::<Seq<char>>
                })
                &&& res.phone_number.deep_view() == (if spec_grants_phone(scopes) {
                    Some("111-1234-5678"@)
                } else {
                    None::<Seq<char>>
                })
                &&& res.phone_number_verified == (if spec_grants_phone(scopes) {
                    Some(true)
                } else {
                    None::<bool>
                })
            },
            Err(e) => {
                &&& e matches CustomError::UnauthorizedError
                &&& !(db@.tokens.contains_key(inforeq.bearer@) && spec_token_fresh(
                    db@.tokens[inforeq.bearer@],
                    now,
                ))
            },
        },
{
    let t = match db.tokens.find(&inforeq.bearer) {
        Some(t) => t,
        None => {
            return Err(CustomError::UnauthorizedError);
        },
    };
    if !t.is_valid(now) {
        return Err(CustomError::UnauthorizedError);
    }
    let scopes = match crate::enums::Scopes::from_str(t.scope.as_str()) {
        Ok(s) => s,
        Err(_) => {
            proof {
                assert(false);
            }
            return Err(CustomError::UnauthorizedError);
        },
    };
    let grants_email = crate::models::contains_scope(&scopes.scopes, Scope::Email)
        || crate::models::contains_scope(&scopes.scopes, Scope::All);
    let grants_phone = crate::models::contains_scope(&scopes.scopes, Scope::Phone)
        || crate::models::contains_scope(&scopes.scopes, Scope::All);
    let grants_address = crate::models::contains_scope(&scopes.scopes, Scope::Address)
        || crate::models::contains_scope(&scopes.scopes, Scope::All);
    Ok(SuccessfulUserinfoResponse {
        sub: String::from_str("userid"),
        name: String::from_str("tarou tanaka"),
        email: if grants_email {
            Some(String::from_str("test@example.com"))
        } else {
            None
        },
        email_verified: if grants_email {
            Some(true)
        } else {
            None
        },
        address: if grants_address {
            Some(String::from_str("address"))
        } else {
            None
        },
        phone_number: if grants_phone {
            Some(String::from_str("111-1234-5678"))
        } else {
            None
        },
        phone_number_verified: if grants_phone {
            Some(true)
        } else {
            None
        },
    })
}

} // verus!
