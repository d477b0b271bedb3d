//! Closed vocabularies of the protocol: scopes, response types and grant
//! types, together with parsing from and serialization to the space-delimited
//! strings in which requests carry them.

use vstd::prelude::*;

verus! {

use vstd::string::*;

use crate::text::{is_word, join_words, split_ws, str_eq, tokenize, views_of};

/// Which closed vocabulary a value was checked against.
#[derive(Clone, Copy, Debug, PartialEq, Eq, Structural)]
pub enum Vocabulary {
    Scope,
    ResponseType,
    GrantType,
}

/// Failure of parsing or validating a space-delimited value list.
#[derive(Clone, Copy, Debug, PartialEq, Eq, Structural)]
pub enum ParseError {
    /// A token is not part of the vocabulary.
    UnsupportedValue(Vocabulary),
    /// A scope list does not name `openid`.
    OpenIdRequired,
}

impl ParseError {
    pub open spec fn message_spec(self) -> Seq<char> {
        match self {
            ParseError::UnsupportedValue(Vocabulary::Scope) => "Unsupported scope"@,
            ParseError::UnsupportedValue(Vocabulary::ResponseType) => "Unsupported response_type"@,
            ParseError::UnsupportedValue(Vocabulary::GrantType) => "Unsupported grant_type"@,
            ParseError::OpenIdRequired => "scope openid is required"@,
        }
    }

    /// A short description of the failure.
    pub fn message(&self) -> (r: &'static str)
        ensures
            r@ == self.message_spec(),
    {
        match self {
            ParseError::UnsupportedValue(Vocabulary::Scope) => "Unsupported scope",
            ParseError::UnsupportedValue(Vocabulary::ResponseType) => "Unsupported response_type",
            ParseError::UnsupportedValue(Vocabulary::GrantType) => "Unsupported grant_type",
            ParseError::OpenIdRequired => "scope openid is required",
        }
    }
}

/// The closed vocabulary of scopes this server understands.
#[derive(Clone, Copy, Debug, PartialEq, Eq, Structural)]
pub enum Scope {
    OpenID,
    Profile,
    Address,
    Phone,
    Email,
    All,
}

/// The scope a single token denotes, if any.
pub open spec fn scope_of_word(w: Seq<char>) -> Option<Scope> {
    if w == "openid"@ {
        Some(Scope::OpenID)
    } else if w == "profile"@ {
        Some(Scope::Profile)
    } else if w == "address"@ {
        Some(Scope::Address)
    } else if w == "phone"@ {
        Some(Scope::Phone)
    } else if w == "email"@ {
        Some(Scope::Email)
    } else if w == "all"@ {
        Some(Scope::All)
    } else {
        None
    }
}

impl Scope {
    /// The canonical spelling of this scope in a scope string.
    pub open spec fn word(self) -> Seq<char> {
        match self {
            Scope::OpenID => "openid"@,
            Scope::Profile => "profile"@,
            Scope::Address => "address"@,
            Scope::Phone => "phone"@,
            Scope::Email => "email"@,
            Scope::All => "all"@,
        }
    }

    pub fn as_str(self) -> (r: &'static str)
        ensures
            r@ == self.word(),
    {
        match self {
            Scope::OpenID => "openid",
            Scope::Profile => "profile",
            Scope::Address => "address",
            Scope::Phone => "phone",
            Scope::Email => "email",
            Scope::All => "all",
        }
    }

    pub fn to_string(self) -> (r: String)
        ensures
            r@ == self.word(),
    {
        String::from_str(self.as_str())
    }

    /// Recognizes a single scope token.
    pub fn from_str(s: &str) -> (r: Result<Scope, ParseError>)
        ensures
            match r {
                Ok(sc) => scope_of_word(s@) == Some(sc),
                Err(e) => scope_of_word(s@) is None && e == ParseError::UnsupportedValue(
                    Vocabulary::Scope,
                ),
            },
    {
        if str_eq(s, "openid") {
            Ok(Scope::OpenID)
        } else if str_eq(s, "profile") {
            Ok(Scope::Profile)
        } else if str_eq(s, "address") {
            Ok(Scope::Address)
        } else if str_eq(s, "phone") {
            Ok(Scope::Phone)
        } else if str_eq(s, "email") {
            Ok(Scope::Email)
        } else if str_eq(s, "all") {
            Ok(Scope::All)
        } else {
            Err(ParseError::UnsupportedValue(Vocabulary::Scope))
        }
    }
}

/// Every scope word is non-empty and free of whitespace, so serialization
/// round-trips through `split_ws`.
pub proof fn lemma_scope_words_are_words()
    ensures
        forall|sc: Scope| is_word(#[trigger] sc.word()),
        forall|sc: Scope| scope_of_word(sc.word()) == Some(sc),
{
    reveal_strlit("openid");
    reveal_strlit("profile");
    reveal_strlit("address");
    reveal_strlit("phone");
    reveal_strlit("email");
    reveal_strlit("all");
    assert forall|sc: Scope| is_word(#[trigger] sc.word()) by {
        match sc {
            Scope::OpenID => assert(is_word("openid"@)),
            Scope::Profile => assert(is_word("profile"@)),
            Scope::Address => assert(is_word("address"@)),
            Scope::Phone => assert(is_word("phone"@)),
            Scope::Email => assert(is_word("email"@)),
            Scope::All => assert(is_word("all"@)),
        }
    }
    assert("profile"@[0] != "address"@[0]);
    assert("phone"@[0] != "email"@[0]);
    assert("openid"@ != "profile"@ && "openid"@ != "address"@ && "openid"@ != "phone"@
        && "openid"@ != "email"@ && "openid"@ != "all"@);
    assert("profile"@ != "address"@ && "profile"@ != "phone"@ && "profile"@ != "email"@
        && "profile"@ != "all"@);
    assert("address"@ != "phone"@ && "address"@ != "email"@ && "address"@ != "all"@);
    assert("phone"@ != "email"@ && "phone"@ != "all"@);
    assert("email"@ != "all"@);
}

/// An ordered list of scopes, as parsed from one scope string.
#[derive(Debug)]
pub struct Scopes {
    pub scopes: Vec<Scope>,
}

impl PartialEq for Scopes {
    fn eq(&self, other: &Scopes) -> (r: bool) {
        if self.scopes.len() != other.scopes.len() {
            return false;
        }
        let n = self.scopes.len();
        let mut i: usize = 0;
        while i < n
            invariant
                i <= n,
                n == self.scopes.len(),
                n == other.scopes.len(),
                forall|k: int| 0 <= k < i ==> self.scopes@[k] == other.scopes@[k],
            decreases n - i,
        {
            if self.scopes[i] != other.scopes[i] {
                return false;
            }
            i += 1;
        }
        proof {
            assert(self.scopes@ =~= other.scopes@);
        }
        true
    }
}

impl vstd::std_specs::cmp::PartialEqSpecImpl for Scopes {
    open spec fn obeys_eq_spec() -> bool {
        true
    }

    open spec fn eq_spec(&self, other: &Scopes) -> bool {
        self.scopes@ == other.scopes@
    }
}

/// Whether every token of a token list names a scope.
pub open spec fn all_scope_words(ws: Seq<Seq<char>>) -> bool {
    forall|i: int| 0 <= i < ws.len() ==> scope_of_word(#[trigger] ws[i]) is Some
}

/// The scopes a token list denotes, in input order (meaningful when
/// `all_scope_words` holds).
pub open spec fn scopes_of_words(ws: Seq<Seq<char>>) -> Seq<Scope> {
    ws.map_values(|w: Seq<char>| scope_of_word(w).unwrap())
}

/// What parsing a scope string yields.
pub open spec fn spec_parse_scopes(s: Seq<char>) -> Result<Seq<Scope>, ParseError> {
    if all_scope_words(split_ws(s)) {
        Ok(scopes_of_words(split_ws(s)))
    } else {
        Err(ParseError::UnsupportedValue(Vocabulary::Scope))
    }
}

/// The canonical words of a scope list.
pub open spec fn spec_scope_words(scopes: Seq<Scope>) -> Seq<Seq<char>> {
    scopes.map_values(|sc: Scope| sc.word())
}

impl Scopes {
    /// Parses a space-delimited scope string; every token must be a scope.
    pub fn from_str(s: &str) -> (r: Result<Scopes, ParseError>)
        ensures
            match r {
                Ok(sc) => spec_parse_scopes(s@) == Ok::<Seq<Scope>, ParseError>(sc.scopes@),
                Err(e) => spec_parse_scopes(s@) == Err::<Seq<Scope>, ParseError>(e),
            },
    {
        let toks = tokenize(s);
        let ghost ws = split_ws(s@);
        let mut out: Vec<Scope> = Vec::new();
        let n = toks.len();
        let mut i: usize = 0;
        while i < n
            invariant
                i <= n,
                n == toks.len(),
                views_of(toks@) == ws,
                ws == split_ws(s@),
            ws == split_ws(s@),
                forall|k: int| 0 <= k < i ==> scope_of_word(#[trigger] ws[k]) is Some,
                out@.len() == i,
                forall|k: int| 0 <= k < i ==> Some(#[trigger] out@[k]) == scope_of_word(ws[k]),
            decreases n - i,
        {
            proof {
                assert(ws[i as int] == toks@[i as int]@);
            }
            match Scope::from_str(toks[i].as_str()) {
                Ok(sc) => {
                    out.push(sc);
                },
                Err(e) => {
                    proof {
                        assert(scope_of_word(ws[i as int]) is None);
                        assert(!all_scope_words(ws));
                    }
                    return Err(e);
                },
            }
            i += 1;
        }
        proof {
            assert(all_scope_words(ws));
            assert(out@ =~= scopes_of_words(ws));
        }
        Ok(Scopes { scopes: out })
    }

    /// Serializes the scope list as its canonical words joined by spaces.
    pub fn to_string(&self) -> (r: String)
        ensures
            r@ == join_words(spec_scope_words(self.scopes@)),
    {
        let mut r = String::new();
        let n = self.scopes.len();
        let ghost words = spec_scope_words(self.scopes@);
        let mut i: usize = 0;
        while i < n
            invariant
                i <= n,
                n == self.scopes.len(),
                words == spec_scope_words(self.scopes@),
                r@ == join_words(words.take(i as int)),
            decreases n - i,
        {
            if i > 0 {
                r.append(" ");
            }
            r.append(self.scopes[i].as_str());
            proof {
                crate::text::lemma_join_push(words.take(i as int), words[i as int]);
                assert(words.take(i as int).push(words[i as int]) =~= words.take(i + 1));
                reveal_strlit(" ");
                if i > 0 {
                    assert(r@ =~= join_words(words.take(i + 1)));
                } else {
                    assert(r@ =~= join_words(words.take(i + 1)));
                }
            }
            i += 1;
        }
        proof {
            assert(words.take(n as int) =~= words);
        }
        r
    }
}

/// The closed vocabulary of response types.
#[derive(Clone, Copy, Debug, PartialEq, Eq, Structural)]
pub enum ResponseType {
    Code,
}

/// The response type a single token denotes, if any.
pub open spec fn response_type_of_word(w: Seq<char>) -> Option<ResponseType> {
    if w == "code"@ {
        Some(ResponseType::Code)
    } else {
        None
    }
}

impl ResponseType {
    pub open spec fn word(self) -> Seq<char> {
        match self {
            ResponseType::Code => "code"@,
        }
    }

    pub fn as_str(self) -> (r: &'static str)
        ensures
            r@ == self.word(),
    {
        match self {
            ResponseType::Code => "code",
        }
    }

    pub fn to_string(self) -> (r: String)
        ensures
            r@ == self.word(),
    {
        String::from_str(self.as_str())
    }

    pub fn from_str(s: &str) -> (r: Result<ResponseType, ParseError>)
        ensures
            match r {
                Ok(t) => response_type_of_word(s@) == Some(t),
                Err(e) => response_type_of_word(s@) is None && e == ParseError::UnsupportedValue(
                    Vocabulary::ResponseType,
                ),
            },
    {
        if str_eq(s, "code") {
            Ok(ResponseType::Code)
        } else {
            Err(ParseError::UnsupportedValue(Vocabulary::ResponseType))
        }
    }
}

pub proof fn lemma_response_type_words_are_words()
    ensures
        forall|t: ResponseType| is_word(#[trigger] t.word()),
        forall|t: ResponseType| response_type_of_word(t.word()) == Some(t),
{
    reveal_strlit("code");
    assert forall|t: ResponseType| is_word(#[trigger] t.word()) by {
        assert(is_word("code"@));
    }
}

/// An ordered list of response types, as parsed from one string.
#[derive(Debug)]
pub struct ResponseTypes {
    pub types: Vec<ResponseType>,
}

impl PartialEq for ResponseTypes {
    fn eq(&self, other: &ResponseTypes) -> (r: bool) {
        if self.types.len() != other.types.len() {
            return false;
        }
        let n = self.types.len();
        let mut i: usize = 0;
        while i < n
            invariant
                i <= n,
                n == self.types.len(),
                n == other.types.len(),
                forall|k: int| 0 <= k < i ==> self.types@[k] == other.types@[k],
            decreases n - i,
        {
            if self.types[i] != other.types[i] {
                return false;
            }
            i += 1;
        }
        proof {
            assert(self.types@ =~= other.types@);
        }
        true
    }
}

impl vstd::std_specs::cmp::PartialEqSpecImpl for ResponseTypes {
    open spec fn obeys_eq_spec() -> bool {
        true
    }

    open spec fn eq_spec(&self, other: &ResponseTypes) -> bool {
        self.types@ == other.types@
    }
}

pub open spec fn all_response_type_words(ws: Seq<Seq<char>>) -> bool {
    forall|i: int| 0 <= i < ws.len() ==> response_type_of_word(#[trigger] ws[i]) is Some
}

pub open spec fn response_types_of_words(ws: Seq<Seq<char>>) -> Seq<ResponseType> {
    ws.map_values(|w: Seq<char>| response_type_of_word(w).unwrap())
}

pub open spec fn spec_parse_response_types(s: Seq<char>) -> Result<Seq<ResponseType>, ParseError> {
    if all_response_type_words(split_ws(s)) {
        Ok(response_types_of_words(split_ws(s)))
    } else {
        Err(ParseError::UnsupportedValue(Vocabulary::ResponseType))
    }
}

pub open spec fn spec_response_type_words(types: Seq<ResponseType>) -> Seq<Seq<char>> {
    types.map_values(|t: ResponseType| t.word())
}

impl ResponseTypes {
    /// Parses a space-delimited response-type string.
    pub fn from_str(s: &str) -> (r: Result<ResponseTypes, ParseError>)
        ensures
            match r {
                Ok(ts) => spec_parse_response_types(s@) == Ok::<Seq<ResponseType>, ParseError>(
                    ts.types@,
                ),
                Err(e) => spec_parse_response_types(s@) == Err::<Seq<ResponseType>, ParseError>(e),
            },
    {
        let toks = tokenize(s);
        let ghost ws = split_ws(s@);
        let mut out: Vec<ResponseType> = Vec::new();
        let n = toks.len();
        let mut i: usize = 0;
        while i < n
            invariant
                i <= n,
                n == toks.len(),
                views_of(toks@) == ws,
                ws == split_ws(s@),
            ws == split_ws(s@),
                forall|k: int| 0 <= k < i ==> response_type_of_word(#[trigger] ws[k]) is Some,
                out@.len() == i,
                forall|k: int|
                    0 <= k < i ==> Some(#[trigger] out@[k]) == response_type_of_word(ws[k]),
            decreases n - i,
        {
            proof {
                assert(ws[i as int] == toks@[i as int]@);
            }
            match ResponseType::from_str(toks[i].as_str()) {
                Ok(t) => {
                    out.push(t);
                },
                Err(e) => {
                    proof {
                        assert(response_type_of_word(ws[i as int]) is None);
                        assert(!all_response_type_words(ws));
                    }
                    return Err(e);
                },
            }
            i += 1;
        }
        proof {
            assert(all_response_type_words(ws));
            assert(out@ =~= response_types_of_words(ws));
        }
        Ok(ResponseTypes { types: out })
    }

    /// Serializes the response-type list joined by spaces.
    pub fn to_string(&self) -> (r: String)
        ensures
            r@ == join_words(spec_response_type_words(self.types@)),
    {
        let mut r = String::new();
        let n = self.types.len();
        let ghost words = spec_response_type_words(self.types@);
        let mut i: usize = 0;
        while i < n
            invariant
                i <= n,
                n == self.types.len(),
                words == spec_response_type_words(self.types@),
                r@ == join_words(words.take(i as int)),
            decreases n - i,
        {
            if i > 0 {
                r.append(" ");
            }
            r.append(self.types[i].as_str());
            proof {
                crate::text::lemma_join_push(words.take(i as int), words[i as int]);
                assert(words.take(i as int).push(words[i as int]) =~= words.take(i + 1));
                reveal_strlit(" ");
                assert(r@ =~= join_words(words.take(i + 1)));
            }
            i += 1;
        }
        proof {
            assert(words.take(n as int) =~= words);
        }
        r
    }
}

/// The closed vocabulary of grant types.
#[derive(Clone, Copy, Debug, PartialEq, Eq, Structural)]
pub enum GrantType {
    AuthorizationCode,
}

pub open spec fn grant_type_of_word(w: Seq<char>) -> Option<GrantType> {
    if w == "authorization_code"@ {
        Some(GrantType::AuthorizationCode)
    } else {
        None
    }
}

impl GrantType {
    pub open spec fn word(self) -> Seq<char> {
        match self {
            GrantType::AuthorizationCode => "authorization_code"@,
        }
    }

    pub fn from_str(s: &str) -> (r: Result<GrantType, ParseError>)
        ensures
            match r {
                Ok(g) => grant_type_of_word(s@) == Some(g),
                Err(e) => grant_type_of_word(s@) is None && e == ParseError::UnsupportedValue(
                    Vocabulary::GrantType,
                ),
            },
    {
        if str_eq(s, "authorization_code") {
            Ok(GrantType::AuthorizationCode)
        } else {
            Err(ParseError::UnsupportedValue(Vocabulary::GrantType))
        }
    }
}

/// What validating a scope string yields: every token must be a scope, and
/// `openid` must be among them.
pub open spec fn spec_validate_scope(s: Seq<char>) -> Result<(), ParseError> {
    let ws = split_ws(s);
    if !all_scope_words(ws) {
        Err(ParseError::UnsupportedValue(Vocabulary::Scope))
    } else if !(exists|i: int|
        0 <= i < ws.len() && scope_of_word(#[trigger] ws[i]) == Some(Scope::OpenID)) {
        Err(ParseError::OpenIdRequired)
    } else {
        Ok(())
    }
}

/// Checks that a scope string uses only known scopes and requests `openid`.
pub fn validate_scope(scope: &str) -> (r: Result<(), ParseError>)
    ensures
        r == spec_validate_scope(scope@),
{
    let toks = tokenize(scope);
    let ghost ws = split_ws(scope@);
    let mut openid_found = false;
    let n = toks.len();
    let mut i: usize = 0;
    while i < n
        invariant
            i <= n,
            n == toks.len(),
            views_of(toks@) == ws,
            ws == split_ws(scope@),
            forall|k: int| 0 <= k < i ==> scope_of_word(#[trigger] ws[k]) is Some,
            openid_found == exists|k: int|
                0 <= k < i && scope_of_word(#[trigger] ws[k]) == Some(Scope::OpenID),
        decreases n - i,
    {
        proof {
            assert(ws[i as int] == toks@[i as int]@);
        }
        match Scope::from_str(toks[i].as_str()) {
            Ok(sc) => {
                if matches!(sc, Scope::OpenID) {
                    openid_found = true;
                    proof {
                        assert(scope_of_word(ws[i as int]) == Some(Scope::OpenID));
                    }
                }
            },
            Err(e) => {
                proof {
                    assert(scope_of_word(ws[i as int]) is None);
                    assert(!all_scope_words(ws));
                }
                return Err(e);
            },
        }
        i += 1;
    }
    proof {
        assert(all_scope_words(ws));
    }
    if !openid_found {
        return Err(ParseError::OpenIdRequired);
    }
    Ok(())
}

/// What validating a response-type string yields.
pub open spec fn spec_validate_response_type(s: Seq<char>) -> Result<(), ParseError> {
    if all_response_type_words(split_ws(s)) {
        Ok(())
    } else {
        Err(ParseError::UnsupportedValue(Vocabulary::ResponseType))
    }
}

/// Checks that a response-type string uses only known response types.
pub fn validate_response_type(response_type: &str) -> (r: Result<(), ParseError>)
    ensures
        r == spec_validate_response_type(response_type@),
{
    let toks = tokenize(response_type);
    let ghost ws = split_ws(response_type@);
    let n = toks.len();
    let mut i: usize = 0;
    while i < n
        invariant
            i <= n,
            n == toks.len(),
            views_of(toks@) == ws,
            ws == split_ws(response_type@),
            forall|k: int| 0 <= k < i ==> response_type_of_word(#[trigger] ws[k]) is Some,
        decreases n - i,
    {
        proof {
            assert(ws[i as int] == toks@[i as int]@);
        }
        if let Err(e) = ResponseType::from_str(toks[i].as_str()) {
            proof {
                assert(response_type_of_word(ws[i as int]) is None);
                assert(!all_response_type_words(ws));
            }
            return Err(e);
        }
        i += 1;
    }
    proof {
        assert(all_response_type_words(ws));
    }
    Ok(())
}

/// What validating a grant-type string yields.
pub open spec fn spec_validate_grant_type(s: Seq<char>) -> Result<(), ParseError> {
    if forall|i: int|
        0 <= i < split_ws(s).len() ==> grant_type_of_word(#[trigger] split_ws(s)[i]) is Some {
        Ok(())
    } else {
        Err(ParseError::UnsupportedValue(Vocabulary::GrantType))
    }
}

/// Checks that a grant-type string uses only known grant types.
pub fn validate_grant_type(grant_type: &str) -> (r: Result<(), ParseError>)
    ensures
        r == spec_validate_grant_type(grant_type@),
{
    let toks = tokenize(grant_type);
    let ghost ws = split_ws(grant_type@);
    let n = toks.len();
    let mut i: usize = 0;
    while i < n
        invariant
            i <= n,
            n == toks.len(),
            views_of(toks@) == ws,
            ws == split_ws(grant_type@),
            forall|k: int| 0 <= k < i ==> grant_type_of_word(#[trigger] ws[k]) is Some,
        decreases n - i,
    {
        proof {
            assert(ws[i as int] == toks@[i as int]@);
        }
        if let Err(e) = GrantType::from_str(toks[i].as_str()) {
            proof {
                assert(grant_type_of_word(ws[i as int]) is None);
            }
            return Err(e);
        }
        i += 1;
    }
    Ok(())
}

} // verus!
