//! ID-token construction: the claims serialized as JSON by verified code,
//! framed as a compact JWS, and signed through the JWT library.

use vstd::prelude::*;

verus! {

use vstd::string::*;

use crate::challenge::{hex_digit, hex_digit_char};
use crate::text::string_push;
use crate::token::IdToken;

/// How one character appears inside a JSON string literal: quote and
/// backslash are escaped, control characters become `\u00XX`, everything
/// else stands as itself.
pub open spec fn json_escaped_char(c: char) -> Seq<char> {
    if c == '"' {
        seq!['\\', '"']
    } else if c == '\\' {
        seq!['\\', '\\']
    } else if (c as int) < 0x20 {
        seq!['\\', 'u', '0', '0', hex_digit(c as int / 16), hex_digit(c as int % 16)]
    } else {
        seq![c]
    }
}

/// A string escaped for inclusion in a JSON string literal.
pub open spec fn json_escaped(s: Seq<char>) -> Seq<char>
    decreases s.len(),
{
    if s.len() == 0 {
        Seq::empty()
    } else {
        json_escaped(s.drop_last()) + json_escaped_char(s.last())
    }
}

/// Appends the JSON-escaped form of `s`.
fn json_escape_into(out: &mut String, s: &str)
    ensures
        final(out)@ == old(out)@ + json_escaped(s@),
{
    let n = s.unicode_len();
    let mut i: usize = 0;
    proof {
        assert(out@ + json_escaped(s@.take(0)) =~= out@);
    }
    while i < n
        invariant
            i <= n,
            n == s@.len(),
            out@ == old(out)@ + json_escaped(s@.take(i as int)),
        decreases n - i,
    {
        let c = s.get_char(i);
        if c == '"' {
            string_push(out, '\\');
            string_push(out, '"');
        } else if c == '\\' {
            string_push(out, '\\');
            string_push(out, '\\');
        } else if (c as u32) < 0x20 {
            let b = (c as u32) as u8;
            string_push(out, '\\');
            string_push(out, 'u');
            string_push(out, '0');
            string_push(out, '0');
            string_push(out, hex_digit_char(b / 16));
            string_push(out, hex_digit_char(b % 16));
        } else {
            string_push(out, c);
        }
        proof {
            assert(s@.take(i + 1).drop_last() =~= s@.take(i as int));
            assert(s@.take(i + 1).last() == s@[i as int]);
            assert(out@ =~= old(out)@ + json_escaped(s@.take(i + 1)));
        }
        i += 1;
    }
    proof {
        assert(s@.take(n as int) =~= s@);
    }
}

/// The decimal rendering of a non-negative number.
pub open spec fn dec_chars(n: int) -> Seq<char>
    decreases n,
{
    if n < 10 {
        seq![hex_digit(if n < 0 {
            0
        } else {
            n % 10
        })]
    } else {
        dec_chars(n / 10).push(hex_digit(n % 10))
    }
}

/// Appends the decimal rendering of `n`.
fn push_dec(out: &mut String, n: u64)
    ensures
        final(out)@ == old(out)@ + dec_chars(n as int),
    decreases n,
{
    if n < 10 {
        string_push(out, hex_digit_char(n as u8));
    } else {
        push_dec(out, n / 10);
        string_push(out, hex_digit_char((n % 10) as u8));
        proof {
            assert(old(out)@ + dec_chars(n as int / 10) + seq![
                hex_digit(n as int % 10),
            ] =~= old(out)@ + dec_chars(n as int));
        }
    }
}

/// The JSON object carrying the ID-token claims, in this fixed field order.
pub open spec fn spec_claims_json(
    iss: Seq<char>,
    sub: Seq<char>,
    aud: Seq<char>,
    exp: u64,
    iat: u64,
    nonce: Seq<char>,
) -> Seq<char> {
    "{\"iss\":\""@ + json_escaped(iss) + "\",\"sub\":\""@ + json_escaped(sub) + "\",\"aud\":\""@
        + json_escaped(aud) + "\",\"exp\":"@ + dec_chars(exp as int) + ",\"iat\":"@ + dec_chars(
        iat as int,
    ) + ",\"nonce\":\""@ + json_escaped(nonce) + "\"}"@
}

impl IdToken {
    /// Serializes the claims as JSON.
    pub fn to_json(&self) -> (r: String)
        ensures
            r@ == spec_claims_json(
                self.iss@,
                self.sub@,
                self.aud@,
                self.exp,
                self.iat,
                self.nonce@,
            ),
    {
        let mut r = String::from_str("{\"iss\":\"");
        json_escape_into(&mut r, self.iss.as_str());
        r.append("\",\"sub\":\"");
        json_escape_into(&mut r, self.sub.as_str());
        r.append("\",\"aud\":\"");
        json_escape_into(&mut r, self.aud.as_str());
        r.append("\",\"exp\":");
        push_dec(&mut r, self.exp);
        r.append(",\"iat\":");
        push_dec(&mut r, self.iat);
        r.append(",\"nonce\":\"");
        json_escape_into(&mut r, self.nonce.as_str());
        r.append("\"}");
        proof {
            assert(r@ =~= spec_claims_json(
                self.iss@,
                self.sub@,
                self.aud@,
                self.exp,
                self.iat,
                self.nonce@,
            ));
        }
        r
    }
}

/// What URL-safe unpadded base64 encoding of a string's UTF-8 bytes yields;
/// the result depends on the characters alone.
pub uninterp spec fn b64url_of(s: Seq<char>) -> Seq<char>;

/// Relies on `base64::encode_config` with `URL_SAFE_NO_PAD`: the unpadded
/// URL-safe base64 of the string's UTF-8 bytes.
#[verifier::external_body]
fn b64url_encode(s: &str) -> (r: String)
    ensures
        r@ == b64url_of(s@),
{
    base64::encode_config(s.as_bytes(), base64::URL_SAFE_NO_PAD)
}

/// What HMAC-SHA256 signing of a message under a secret yields, as the
/// URL-safe base64 text appended to a JWS; a function of secret and message
/// alone.
pub uninterp spec fn hs256_sig_of(secret: Seq<u8>, msg: Seq<char>) -> Seq<char>;

/// Relies on `jsonwebtoken::crypto::sign` with `Algorithm::HS256` and a key
/// from `EncodingKey::from_secret`: the URL-safe base64 of the HMAC-SHA256
/// tag over the message's UTF-8 bytes, a function of secret and message
/// alone. With the library's bundled crypto provider — nothing in this crate
/// installs another — HMAC accepts any secret length, but the provider lookup
/// is process state, so failure is still answered here with `None`.
#[verifier::external_body]
fn hs256_sign(secret: &Vec<u8>, msg: &str) -> (r: Option<String>)
    ensures
        match r {
            Some(sig) => sig@ == hs256_sig_of(secret@, msg@),
            None => true,
        },
{
    jsonwebtoken::crypto::sign(
        msg.as_bytes(),
        &jsonwebtoken::EncodingKey::from_secret(secret.as_slice()),
        jsonwebtoken::Algorithm::HS256,
    ).ok()
}

/// The JOSE header of every token this server signs.
pub open spec fn spec_jwt_header() -> Seq<char> {
    "{\"typ\":\"JWT\",\"alg\":\"HS256\"}"@
}

/// The signing input of a compact JWS: base64 header, dot, base64 payload.
pub open spec fn spec_signing_input(payload: Seq<char>) -> Seq<char> {
    b64url_of(spec_jwt_header()) + "."@ + b64url_of(payload)
}

/// A compact JWS over `payload` under `secret`.
pub open spec fn spec_jws(secret: Seq<u8>, payload: Seq<char>) -> Seq<char> {
    spec_signing_input(payload) + "."@ + hs256_sig_of(secret, spec_signing_input(payload))
}

/// Signs the ID-token claims into a compact JWS.
pub fn sign_id_token(secret: &Vec<u8>, claims: &IdToken) -> (r: Option<String>)
    ensures
        match r {
            Some(t) => t@ == spec_jws(
                secret@,
                spec_claims_json(
                    claims.iss@,
                    claims.sub@,
                    claims.aud@,
                    claims.exp,
                    claims.iat,
                    claims.nonce@,
                ),
            ),
            None => true,
        },
{
    let payload = claims.to_json();
    let mut msg = b64url_encode("{\"typ\":\"JWT\",\"alg\":\"HS256\"}");
    msg.append(".");
    let payload_b64 = b64url_encode(payload.as_str());
    msg.append(payload_b64.as_str());
    proof {
        assert(msg@ =~= spec_signing_input(payload@));
    }
    let sig = match hs256_sign(secret, msg.as_str()) {
        Some(sig) => sig,
        None => {
            return None;
        },
    };
    let ghost msg0 = msg@;
    let mut token = msg;
    token.append(".");
    token.append(sig.as_str());
    proof {
        assert(token@ =~= spec_jws(secret@, payload@));
    }
    Some(token)
}

} // verus!
