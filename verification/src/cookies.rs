//! The cookie value object and the semantics of a cookie collection.
//!
//! A [`Cookie`] carries the attributes this library reads and writes: name,
//! value, path and the http-only flag.  A request or response holds a
//! sequence of cookies; [`cookie_lookup`] says which cookie a name denotes
//! (the first with that name) and [`with_cookie`] says what attaching a
//! cookie to a response means (the first cookie of the same name is
//! overwritten, otherwise the cookie is appended).

use vstd::prelude::*;

verus! {

/// One HTTP cookie, reduced to the attributes the session layer uses.
pub struct Cookie {
    /// The cookie's name.
    pub name: String,
    /// The cookie's value; for a session cookie, the identity token.
    pub value: String,
    /// The `Path` attribute, if any.
    pub path: Option<String>,
    /// The `HttpOnly` flag.
    pub http_only: bool,
}

/// The mathematical image of a [`Cookie`]: the same attributes over
/// sequences of characters.
pub struct CookieView {
    pub name: Seq<char>,
    pub value: Seq<char>,
    pub path: Option<Seq<char>>,
    pub http_only: bool,
}

impl View for Cookie {
    type V = CookieView;

    open spec fn view(&self) -> CookieView {
        CookieView {
            name: self.name@,
            value: self.value@,
            path: match self.path {
                Some(p) => Some(p@),
                None => None,
            },
            http_only: self.http_only,
        }
    }
}

impl Clone for Cookie {
    fn clone(&self) -> (r: Self)
        ensures
            r@ == self@,
    {
        Cookie {
            name: self.name.clone(),
            value: self.value.clone(),
            path: match &self.path {
                Some(p) => Some(p.clone()),
                None => None,
            },
            http_only: self.http_only,
        }
    }
}

/// The cookie a name denotes in a cookie collection: the first cookie with
/// that name, if any.
pub open spec fn cookie_lookup(s: Seq<CookieView>, name: Seq<char>) -> Option<CookieView>
    decreases s.len(),
{
    if s.len() == 0 {
        None
    } else if s[0].name == name {
        Some(s[0])
    } else {
        cookie_lookup(s.skip(1), name)
    }
}

/// The result of attaching a cookie to a response's cookie collection: the
/// first cookie of the same name is replaced, and if there is none the new
/// cookie is appended.  Last write wins; nothing is merged.
pub open spec fn with_cookie(s: Seq<CookieView>, c: CookieView) -> Seq<CookieView>
    decreases s.len(),
{
    if s.len() == 0 {
        seq![c]
    } else if s[0].name == c.name {
        seq![c] + s.skip(1)
    } else {
        seq![s[0]] + with_cookie(s.skip(1), c)
    }
}

/// After a cookie is attached, its name denotes exactly that cookie.
pub proof fn lemma_with_cookie_lookup(s: Seq<CookieView>, c: CookieView)
    ensures
        cookie_lookup(with_cookie(s, c), c.name) == Some(c),
    decreases s.len(),
{
    if s.len() == 0 {
        assert(with_cookie(s, c)[0] == c);
        assert(with_cookie(s, c).len() == 1);
    } else if s[0].name == c.name {
        assert(with_cookie(s, c)[0] == c);
    } else {
        lemma_with_cookie_lookup(s.skip(1), c);
        assert(with_cookie(s, c)[0] == s[0]);
        assert(with_cookie(s, c).skip(1) =~= with_cookie(s.skip(1), c));
    }
}

/// Attaching the same cookie twice leaves the collection as attaching it
/// once does.
pub proof fn lemma_with_cookie_idempotent(s: Seq<CookieView>, c: CookieView)
    ensures
        with_cookie(with_cookie(s, c), c) == with_cookie(s, c),
    decreases s.len(),
{
    if s.len() == 0 {
        assert(with_cookie(s, c)[0] == c);
        assert(with_cookie(with_cookie(s, c), c) =~= with_cookie(s, c));
    } else if s[0].name == c.name {
        assert(with_cookie(s, c)[0] == c);
        assert(with_cookie(s, c).skip(1) =~= s.skip(1));
        assert(with_cookie(with_cookie(s, c), c) =~= with_cookie(s, c));
    } else {
        lemma_with_cookie_idempotent(s.skip(1), c);
        assert(with_cookie(s, c)[0] == s[0]);
        assert(with_cookie(s, c).skip(1) =~= with_cookie(s.skip(1), c));
        assert(with_cookie(with_cookie(s, c), c) =~= with_cookie(s, c));
    }
}

} // verus!
