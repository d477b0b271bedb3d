//! A redirect that also sets a cookie: what a successful login answers with.

use vstd::prelude::*;

verus! {

/// Redirect to `next` while setting the cookie `key=value`.
#[derive(Debug)]
pub struct RedirectWithCookie {
    pub key: String,
    pub value: String,
    pub next: String,
}

} // verus!
