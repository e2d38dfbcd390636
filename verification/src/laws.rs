//! What the session contracts compose to, across a request/response cycle.
//!
//! Each lemma quantifies over every outcome the contracts of
//! [`Login::from_request`] and [`LoginModifier::modify`] allow, so it holds
//! of whatever those functions return.

use vstd::prelude::*;
use crate::cookies::{
    CookieView, cookie_lookup, lemma_with_cookie_idempotent, lemma_with_cookie_lookup,
    with_cookie,
};
use crate::login::{LoginView, User, login_outcome, session_cookie, session_token};

verus! {

/// A request whose session cookie carries the identity of a user the
/// lookup recognizes resolves to an equivalent user: one with that same
/// identity.  (The identity is non-empty; the empty string is the
/// logged-out sentinel and never an identity.)
pub proof fn lemma_recognized_identity_resolves<U: User>(
    u: U,
    user: Option<U>,
    cookies: Seq<CookieView>,
    name: Seq<char>,
)
    requires
        U::recognizes(u.identity()),
        u.identity().len() > 0,
        cookie_lookup(cookies, name) matches Some(c) && c.value == u.identity(),
        login_outcome::<U>(cookies, name, user),
    ensures
        user matches Some(x) && x.identity() == u.identity(),
{
}

/// A request with no cookie of the session cookie's name resolves to no
/// user.
pub proof fn lemma_no_cookie_no_user<U: User>(
    user: Option<U>,
    cookies: Seq<CookieView>,
    name: Seq<char>,
)
    requires
        cookie_lookup(cookies, name) is None,
        login_outcome::<U>(cookies, name, user),
    ensures
        user is None,
{
}

/// A request whose session cookie has the empty value resolves to no
/// user, exactly as if the cookie were absent.
pub proof fn lemma_empty_value_no_user<U: User>(
    user: Option<U>,
    cookies: Seq<CookieView>,
    name: Seq<char>,
)
    requires
        cookie_lookup(cookies, name) matches Some(c) && c.value.len() == 0,
        login_outcome::<U>(cookies, name, user),
    ensures
        user is None,
        session_token(cookies, name) == session_token(Seq::<CookieView>::empty(), name),
{
}

/// Applying a logout twice in sequence leaves the outgoing cookies as
/// applying it once does: the same empty-valued session cookie, written
/// once.
pub proof fn lemma_log_out_idempotent<U: User>(resp: Seq<CookieView>, v: LoginView<U>)
    requires
        v.user is None,
    ensures
        with_cookie(with_cookie(resp, session_cookie(v)), session_cookie(v)) == with_cookie(
            resp,
            session_cookie(v),
        ),
{
    lemma_with_cookie_idempotent(resp, session_cookie(v));
}

/// A logout, once applied, sticks: let the next request carry the
/// response's cookies, and reading the session back resolves to no user.
pub proof fn lemma_log_out_round_trip<U: User>(
    v: LoginView<U>,
    resp: Seq<CookieView>,
    user2: Option<U>,
)
    requires
        v.user is None,
        login_outcome::<U>(
            with_cookie(resp, session_cookie(v)),
            v.config.cookie_base.name,
            user2,
        ),
    ensures
        user2 is None,
{
    lemma_with_cookie_lookup(resp, session_cookie(v));
}

/// Round trip: log a user in, apply the pending write to a response, and
/// let the next request carry that response's cookies; reading the session
/// back resolves to an equivalent user, given a lookup that recognizes the
/// identity.
pub proof fn lemma_log_in_round_trip<U: User>(
    u: U,
    v: LoginView<U>,
    resp: Seq<CookieView>,
    user2: Option<U>,
)
    requires
        v.user == Some(u),
        U::recognizes(u.identity()),
        u.identity().len() > 0,
        login_outcome::<U>(
            with_cookie(resp, session_cookie(v)),
            v.config.cookie_base.name,
            user2,
        ),
    ensures
        user2 matches Some(x) && x.identity() == u.identity(),
{
    lemma_with_cookie_lookup(resp, session_cookie(v));
    lemma_recognized_identity_resolves(
        u,
        user2,
        with_cookie(resp, session_cookie(v)),
        v.config.cookie_base.name,
    );
}

} // verus!
