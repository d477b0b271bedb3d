//! The laws of the protocol, proved over the same specifications the
//! engine's contracts use: parse/serialize round trips, single use of
//! challenges and codes, session gating, and the token validity window.

use vstd::prelude::*;

verus! {

use crate::authentication::{spec_from_outcome, AuthenticationRequestParam, AuthorizationError};
use crate::enums::{
    lemma_response_type_words_are_words, lemma_scope_words_are_words, response_type_of_word,
    scope_of_word, spec_parse_response_types, spec_parse_scopes, spec_response_type_words,
    spec_scope_words, ParseError, Scope,
};
use crate::error::CustomError;
use crate::models::{spec_check_scopes, AuthChallengeView, AuthCodeView};
use crate::server::{
    spec_consent_decision, spec_exchange_decision, spec_session_ok, spec_token_fresh, DbView,
};
use crate::text::{is_word, join_words, lemma_split_join, split_ws};
use crate::token::TokenError;

/// Serializing a parsed scope string preserves its token sequence — and so
/// its token multiset — and parsing the serialization gives the same scopes
/// back.
pub proof fn lemma_scope_round_trip(s: Seq<char>)
    requires
        spec_parse_scopes(s) is Ok,
    ensures
        split_ws(join_words(spec_scope_words(spec_parse_scopes(s)->Ok_0))) == split_ws(s),
        split_ws(join_words(spec_scope_words(spec_parse_scopes(s)->Ok_0))).to_multiset()
            == split_ws(s).to_multiset(),
        spec_parse_scopes(join_words(spec_scope_words(spec_parse_scopes(s)->Ok_0)))
            == spec_parse_scopes(s),
{
    let ws = split_ws(s);
    let scopes = spec_parse_scopes(s)->Ok_0;
    lemma_scope_words_are_words();
    assert(spec_scope_words(scopes) =~~= ws) by {
        assert forall|i: int| 0 <= i < ws.len() implies #[trigger] spec_scope_words(scopes)[i]
            == ws[i] by {
            assert(scope_of_word(ws[i]) is Some);
        }
    }
    assert(forall|i: int| 0 <= i < ws.len() ==> is_word(#[trigger] ws[i])) by {
        assert forall|i: int| 0 <= i < ws.len() implies is_word(#[trigger] ws[i]) by {
            assert(scope_of_word(ws[i]) is Some);
            let sc = scope_of_word(ws[i]).unwrap();
            assert(ws[i] == sc.word());
        }
    }
    lemma_split_join(ws);
}

/// The scope strings the engine stores are canonical: serializing any scope
/// list and parsing it again gives exactly that list. The scope carried from
/// challenge to code to token therefore always parses at the userinfo step.
pub proof fn lemma_canonical_scope_parses(scopes: Seq<Scope>)
    ensures
        spec_parse_scopes(join_words(spec_scope_words(scopes))) == Ok::<Seq<Scope>, ParseError>(
            scopes,
        ),
{
    let ws = spec_scope_words(scopes);
    lemma_scope_words_are_words();
    assert(forall|i: int| 0 <= i < ws.len() ==> is_word(#[trigger] ws[i])) by {
        assert forall|i: int| 0 <= i < ws.len() implies is_word(#[trigger] ws[i]) by {
            assert(ws[i] == scopes[i].word());
        }
    }
    lemma_split_join(ws);
    assert forall|i: int| 0 <= i < ws.len() implies scope_of_word(#[trigger] ws[i]) is Some by {
        assert(ws[i] == scopes[i].word());
    }
    assert(spec_parse_scopes(join_words(ws))->Ok_0 =~= scopes) by {
        assert forall|i: int|
            0 <= i < scopes.len() implies #[trigger] spec_parse_scopes(join_words(ws))->Ok_0[i]
            == scopes[i] by {
            assert(ws[i] == scopes[i].word());
            assert(scope_of_word(ws[i]) == Some(scopes[i]));
        }
    }
}

/// Serializing a parsed response-type string preserves its token sequence,
/// and parsing the serialization gives the same list back.
pub proof fn lemma_response_type_round_trip(s: Seq<char>)
    requires
        spec_parse_response_types(s) is Ok,
    ensures
        split_ws(join_words(spec_response_type_words(spec_parse_response_types(s)->Ok_0)))
            == split_ws(s),
        spec_parse_response_types(
            join_words(spec_response_type_words(spec_parse_response_types(s)->Ok_0)),
        ) == spec_parse_response_types(s),
{
    let ws = split_ws(s);
    let types = spec_parse_response_types(s)->Ok_0;
    lemma_response_type_words_are_words();
    assert(spec_response_type_words(types) =~~= ws) by {
        assert forall|i: int| 0 <= i < ws.len() implies #[trigger] spec_response_type_words(
            types,
        )[i] == ws[i] by {
            assert(response_type_of_word(ws[i]) is Some);
        }
    }
    assert(forall|i: int| 0 <= i < ws.len() ==> is_word(#[trigger] ws[i])) by {
        assert forall|i: int| 0 <= i < ws.len() implies is_word(#[trigger] ws[i]) by {
            assert(response_type_of_word(ws[i]) is Some);
            let t = response_type_of_word(ws[i]).unwrap();
            assert(ws[i] == t.word());
        }
    }
    lemma_split_join(ws);
}

/// A challenge is consumed by consent: once an authorization code has been
/// issued from it, the challenge is gone, and any further consent request
/// naming it — whatever live session presents it — is answered with the
/// challenge error.
pub proof fn lemma_challenge_single_use(
    pre: DbView,
    post: DbView,
    session_id: Option<Seq<char>>,
    later_session_id: Option<Seq<char>>,
    challenge: Seq<char>,
)
    requires
        spec_consent_decision(pre, session_id, challenge) is Ok,
        post.auth_challenges == pre.auth_challenges.remove(challenge),
        spec_session_ok(post, later_session_id),
    ensures
        spec_consent_decision(post, later_session_id, challenge) == Err::<
            AuthChallengeView,
            CustomError,
        >(CustomError::ChallengeError),
{
}

/// An authorization code is redeemed at most once: the exchange deletes it
/// whatever else happens, and a second exchange of the same code — with any
/// credentials — is answered with `invalid_grant`.
pub proof fn lemma_code_single_use(
    pre: DbView,
    post: DbView,
    code: Seq<char>,
    client_id: Seq<char>,
    client_secret: Seq<char>,
)
    requires
        post.auth_codes == pre.auth_codes.remove(code),
    ensures
        spec_exchange_decision(post, code, client_id, client_secret) == Err::<
            AuthCodeView,
            CustomError,
        >(CustomError::TokenError(TokenError::InvalidGrant)),
{
}

/// The session rule of the consent steps: while the session is stored, no
/// consent request under it fails with the session error; once it is absent
/// — deleted, or never set — every consent request under it does.
pub proof fn lemma_session_persistence(db: DbView, session_id: Seq<char>, challenge: Seq<char>)
    ensures
        db.sessions.contains_key(session_id) ==> spec_consent_decision(
            db,
            Some(session_id),
            challenge,
        ) != Err::<AuthChallengeView, CustomError>(CustomError::SessionError),
        !db.sessions.contains_key(session_id) ==> spec_consent_decision(
            db,
            Some(session_id),
            challenge,
        ) == Err::<AuthChallengeView, CustomError>(CustomError::SessionError),
        spec_consent_decision(db, None::<Seq<char>>, challenge) == Err::<
            AuthChallengeView,
            CustomError,
        >(CustomError::SessionError),
{
}

/// The access-token validity window is one hour: a token issued at `t` is
/// still accepted fifty-nine minutes later and no longer accepted
/// sixty-one minutes later.
pub proof fn lemma_token_window(db: DbView, bearer: Seq<char>, t: u64)
    requires
        db.tokens.contains_key(bearer),
        db.tokens[bearer].created_at == t,
        t + 3660 <= u64::MAX,
    ensures
        spec_token_fresh(db.tokens[bearer], (t + 3540) as u64),
        !spec_token_fresh(db.tokens[bearer], (t + 3660) as u64),
{
}

/// A scope request outside the client's registered scopes is refused as
/// `invalid_scope`; with the engine's contract, no challenge is created
/// from it.
pub proof fn lemma_unpermitted_scope_refused(
    param: AuthenticationRequestParam,
    own_scope: Seq<char>,
    own_restype: Seq<char>,
)
    requires
        param.scope is Some,
        spec_parse_scopes(param.scope.unwrap()@) is Ok,
        spec_check_scopes(own_scope, spec_parse_scopes(param.scope.unwrap()@)->Ok_0) is Err,
    ensures
        spec_from_outcome(param, own_scope, own_restype) == Err::<(), AuthorizationError>(
            AuthorizationError::InvalidScope,
        ),
{
}

} // verus!
