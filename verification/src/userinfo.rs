//! The userinfo endpoint's messages: bearer-token extraction and the claims
//! response.

use vstd::prelude::*;

verus! {

use crate::text::{split_ws, str_eq, tokenize};

/// A userinfo request: the bearer token presented in the `Authorization`
/// header.
#[derive(Debug)]
pub struct UserinfoRequest {
    pub bearer: String,
}

/// What parsing an `Authorization: Bearer` header yields: the scheme word
/// followed by the token.
pub open spec fn spec_parse_bearer(h: Seq<char>) -> Option<Seq<char>> {
    let ws = split_ws(h);
    if ws.len() >= 2 && ws[0] == "Bearer"@ {
        Some(ws[1])
    } else {
        None
    }
}

impl UserinfoRequest {
    /// Parses an `Authorization` header carrying a bearer token.
    pub fn from_header(header: &str) -> (r: Option<UserinfoRequest>)
        ensures
            match r {
                Some(req) => spec_parse_bearer(header@) == Some(req.bearer@),
                None => spec_parse_bearer(header@) is None,
            },
    {
        let mut toks = tokenize(header);
        let ghost ws = split_ws(header@);
        if toks.len() < 2 {
            return None;
        }
        proof {
            assert(ws[0] == toks@[0]@);
            assert(ws[1] == toks@[1]@);
        }
        if !str_eq(toks[0].as_str(), "Bearer") {
            return None;
        }
        let bearer = toks.remove(1);
        Some(UserinfoRequest { bearer })
    }
}

/// A postal address claim.
#[derive(Debug)]
pub struct Address {
    pub formatted: String,
    pub street_address: String,
    pub locality: String,
    pub region: String,
    pub postal_code: String,
    pub country: String,
}

/// The claims disclosed by the userinfo endpoint; each optional claim is
/// present exactly when the token's scope grants it.
#[derive(Debug)]
pub struct SuccessfulUserinfoResponse {
    pub sub: String,
    pub name: String,
    pub email: Option<String>,
    pub email_verified: Option<bool>,
    pub address: Option<String>,
    pub phone_number: Option<String>,
    pub phone_number_verified: Option<bool>,
}

/// A failed userinfo response.
#[derive(Debug)]
pub struct UserinfoErrorResponse {
    pub error: String,
    pub error_description: String,
}

} // verus!
