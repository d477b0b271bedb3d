//! The token-exchange messages: client authentication from an HTTP Basic
//! header, the token request, and the token responses.

use vstd::prelude::*;

verus! {

use vstd::string::*;

use crate::enums::{grant_type_of_word, GrantType};
use crate::text::{
    colon_free_len, lemma_colon_free_len_at, split_colons, split_ws, str_eq, string_push,
    tokenize,
};

/// Client credentials presented with a token request.
#[derive(Debug)]
pub struct Basic {
    pub client_id: String,
    pub client_secret: String,
}

/// What base64 decoding with the standard alphabet yields, when it succeeds;
/// the result depends on the characters alone.
pub uninterp spec fn b64_decoded(s: Seq<char>) -> Option<Seq<u8>>;

/// Relies on `base64::decode`: standard-alphabet base64 decoding, failing
/// exactly on input that is not valid base64.
#[verifier::external_body]
fn base64_decode(s: &str) -> (r: Option<Vec<u8>>)
    ensures
        match r {
            Some(v) => b64_decoded(s@) == Some(v@),
            None => b64_decoded(s@) is None,
        },
{
    base64::decode(s).ok()
}

/// What UTF-8 decoding yields, when the bytes are valid UTF-8; the result
/// depends on the bytes alone.
pub uninterp spec fn utf8_decoded(b: Seq<u8>) -> Option<Seq<char>>;

/// Relies on `String::from_utf8`: decodes UTF-8 bytes into their characters,
/// failing exactly on invalid UTF-8.
#[verifier::external_body]
fn utf8_to_string(b: Vec<u8>) -> (r: Option<String>)
    ensures
        match r {
            Some(s) => utf8_decoded(b@) == Some(s@),
            None => utf8_decoded(b@) is None,
        },
{
    String::from_utf8(b).ok()
}

/// What parsing an `Authorization: Basic` header yields: the header must
/// hold the scheme word and a base64 token decoding to UTF-8 text with at
/// least two `:`-separated segments, of which the first two are the client
/// id and secret.
pub open spec fn spec_parse_basic(h: Seq<char>) -> Option<(Seq<char>, Seq<char>)> {
    let ws = split_ws(h);
    if ws.len() < 2 || ws[0] != "Basic"@ {
        None
    } else {
        match b64_decoded(ws[1]) {
            None => None,
            Some(bytes) => match utf8_decoded(bytes) {
                None => None,
                Some(t) => {
                    let segs = split_colons(t);
                    if segs.len() >= 2 {
                        Some((segs[0], segs[1]))
                    } else {
                        None
                    }
                },
            },
        }
    }
}

/// Splits decoded `id:secret` text at its colons and takes the first two
/// segments.
fn split_credentials(t: &str) -> (r: Option<(String, String)>)
    ensures
        match r {
            Some((id, secret)) => {
                &&& split_colons(t@).len() >= 2
                &&& id@ == split_colons(t@)[0]
                &&& secret@ == split_colons(t@)[1]
            },
            None => split_colons(t@).len() < 2,
        },
{
    let tlen = t.unicode_len();
    let mut i: usize = 0;
    while i < tlen && t.get_char(i) != ':'
        invariant
            i <= tlen,
            tlen == t@.len(),
            forall|k: int| 0 <= k < i ==> t@[k] != ':',
        decreases tlen - i,
    {
        i += 1;
    }
    if i == tlen {
        proof {
            lemma_colon_free_len_at(t@, tlen as int);
            assert(split_colons(t@) == seq![t@]);
        }
        return None;
    }
    proof {
        lemma_colon_free_len_at(t@, i as int);
        assert(split_colons(t@) == seq![t@.take(i as int)] + split_colons(t@.skip(i + 1)));
    }
    let mut id = String::new();
    let mut k: usize = 0;
    while k < i
        invariant
            k <= i < tlen,
            tlen == t@.len(),
            id@ == t@.take(i as int).take(k as int),
        decreases i - k,
    {
        string_push(&mut id, t.get_char(k));
        proof {
            assert(t@.take(i as int).take(k as int).push(t@[k as int]) =~= t@.take(i as int).take(
                k + 1,
            ));
        }
        k += 1;
    }
    proof {
        assert(t@.take(i as int).take(i as int) =~= t@.take(i as int));
    }
    let mut j: usize = i + 1;
    let ghost start = j as int;
    let mut secret = String::new();
    while j < tlen && t.get_char(j) != ':'
        invariant
            start <= j <= tlen,
            start == i + 1,
            i < tlen,
            tlen == t@.len(),
            secret@ == t@.subrange(start, j as int),
            forall|k2: int| start <= k2 < j ==> t@[k2] != ':',
        decreases tlen - j,
    {
        string_push(&mut secret, t.get_char(j));
        proof {
            assert(t@.subrange(start, j as int).push(t@[j as int]) =~= t@.subrange(start, j + 1));
        }
        j += 1;
    }
    proof {
        let rest = t@.skip(start);
        assert(forall|k2: int| 0 <= k2 < j - start ==> #[trigger] rest[k2] == t@[k2 + start]);
        lemma_colon_free_len_at(rest, j - start);
        let m = colon_free_len(rest) as int;
        assert(rest.take(m) =~= t@.subrange(start, j as int));
        assert(split_colons(rest).len() >= 1);
        assert(split_colons(rest)[0] == t@.subrange(start, j as int));
        assert(split_colons(t@)[1] == split_colons(rest)[0]);
        assert(split_colons(t@).len() >= 2);
    }
    Some((id, secret))
}

impl Basic {
    /// Parses an `Authorization` header carrying HTTP Basic client
    /// credentials.
    pub fn from_header(header: &str) -> (r: Option<Basic>)
        ensures
            match r {
                Some(b) => spec_parse_basic(header@) == Some((b.client_id@, b.client_secret@)),
                None => spec_parse_basic(header@) is None,
            },
    {
        let toks = tokenize(header);
        let ghost ws = split_ws(header@);
        if toks.len() < 2 {
            return None;
        }
        proof {
            assert(ws[0] == toks@[0]@);
            assert(ws[1] == toks@[1]@);
        }
        if !str_eq(toks[0].as_str(), "Basic") {
            return None;
        }
        let bytes = match base64_decode(toks[1].as_str()) {
            Some(v) => v,
            None => {
                return None;
            },
        };
        let text = match utf8_to_string(bytes) {
            Some(s) => s,
            None => {
                return None;
            },
        };
        match split_credentials(text.as_str()) {
            Some((id, secret)) => Some(Basic { client_id: id, client_secret: secret }),
            None => None,
        }
    }
}

/// OAuth error codes of the token endpoint.
#[derive(Clone, Copy, Debug, PartialEq, Eq, Structural)]
pub enum TokenError {
    InvalidRequest,
    InvalidClient,
    InvalidGrant,
    UnauthorizedClient,
    UnsupportedGrantType,
    InvalidScope,
}

impl TokenError {
    /// The protocol spelling of this error code.
    pub open spec fn code_spec(self) -> Seq<char> {
        match self {
            TokenError::InvalidRequest => "invalid_request"@,
            TokenError::InvalidClient => "invalid_client"@,
            TokenError::InvalidGrant => "invalid_grant"@,
            TokenError::UnauthorizedClient => "unauthorized_client"@,
            TokenError::UnsupportedGrantType => "unsupported_grant_type"@,
            TokenError::InvalidScope => "invalid_scope"@,
        }
    }

    pub fn code(self) -> (r: &'static str)
        ensures
            r@ == self.code_spec(),
    {
        match self {
            TokenError::InvalidRequest => "invalid_request",
            TokenError::InvalidClient => "invalid_client",
            TokenError::InvalidGrant => "invalid_grant",
            TokenError::UnauthorizedClient => "unauthorized_client",
            TokenError::UnsupportedGrantType => "unsupported_grant_type",
            TokenError::InvalidScope => "invalid_scope",
        }
    }
}

/// A validated token-exchange request.
#[derive(Debug)]
pub struct TokenRequest {
    pub grant_type: GrantType,
    pub code: String,
    pub redirect_uri: String,
}

impl TokenRequest {
    /// Builds a token request, recognizing the grant type; an unknown grant
    /// type is refused with `unsupported_grant_type`.
    pub fn new(grant_type: &str, code: &str, redirect_uri: &str) -> (r: Result<
        TokenRequest,
        TokenError,
    >)
        ensures
            match r {
                Ok(req) => {
                    &&& grant_type_of_word(grant_type@) == Some(req.grant_type)
                    &&& req.code@ == code@
                    &&& req.redirect_uri@ == redirect_uri@
                },
                Err(e) => grant_type_of_word(grant_type@) is None && e
                    == TokenError::UnsupportedGrantType,
            },
    {
        match GrantType::from_str(grant_type) {
            Ok(g) => Ok(
                TokenRequest {
                    grant_type: g,
                    code: String::from_str(code),
                    redirect_uri: String::from_str(redirect_uri),
                },
            ),
            Err(_) => Err(TokenError::UnsupportedGrantType),
        }
    }

    /// The token-request checks beyond construction; recognizing the grant
    /// type already happened when the request was built.
    pub fn validate(&self) -> (r: Result<(), TokenError>)
        ensures
            r is Ok,
    {
        Ok(())
    }

    pub fn grant_type(&self) -> (r: &GrantType)
        ensures
            r == &self.grant_type,
    {
        &self.grant_type
    }

    pub fn code(&self) -> (r: &str)
        ensures
            r@ == self.code@,
    {
        self.code.as_str()
    }

    pub fn redirect_uri(&self) -> (r: &str)
        ensures
            r@ == self.redirect_uri@,
    {
        self.redirect_uri.as_str()
    }
}

/// A successful token response.
#[derive(Debug)]
pub struct SuccessfulTokenResponse {
    pub access_token: String,
    pub token_type: String,
    pub refresh_token: Option<String>,
    pub expires_in: u64,
    pub id_token: String,
}

/// A failed token response.
#[derive(Debug)]
pub struct ErrorTokenResponse {
    pub error: TokenError,
}

/// The claims of an ID token.
#[derive(Debug)]
pub struct IdToken {
    pub iss: String,
    pub sub: String,
    pub aud: String,
    pub exp: u64,
    pub iat: u64,
    pub nonce: String,
}

} // verus!
