//! The per-request login state machine.
//!
//! [`Login`] is built from a request by reading the session cookie and
//! resolving its value through the application's user lookup.  An absent
//! cookie, an empty cookie value and an unrecognized identity all collapse
//! to "not logged in"; nothing at this layer is an error.  Logging in or
//! out consumes the `Login` and yields a [`LoginModifier`], the pending
//! cookie write for the outgoing response.

use vstd::prelude::*;
use vstd::pervasive::unreached;
use vstd::string::StrSliceExecFns;
use crate::config::{Config, ConfigView};
use crate::cookies::{CookieView, cookie_lookup, with_cookie};
use crate::http::{Request, Response};

verus! {

/// The identity token a request carries: the value of the first cookie with
/// the session cookie's name, unless the cookie is absent or its value is
/// empty.  The empty value is the logged-out sentinel and never a token.
pub open spec fn session_token(cookies: Seq<CookieView>, name: Seq<char>) -> Option<Seq<char>> {
    match cookie_lookup(cookies, name) {
        Some(c) => if c.value.len() > 0 {
            Some(c.value)
        } else {
            None
        },
        None => None,
    }
}

/// What reading the session state from a request must yield: a user exactly
/// when the request carries an identity token that the lookup recognizes,
/// and then a user whose identity is that token.
pub open spec fn login_outcome<U: User>(
    cookies: Seq<CookieView>,
    name: Seq<char>,
    user: Option<U>,
) -> bool {
    match session_token(cookies, name) {
        Some(t) => match user {
            Some(u) => U::recognizes(t) && u.identity() == t,
            None => !U::recognizes(t),
        },
        None => user is None,
    }
}

/// Trait representing an authenticated user.
///
/// The application supplies the lookup from identity tokens to users and
/// the identity string of a user.  The lookup is a function of the token
/// alone: the session layer relies on the same token resolving the same
/// way on every request.
pub trait User: Send + Sync + Sized {
    /// Whether the lookup recognizes this identity token.
    spec fn recognizes(user_id: Seq<char>) -> bool;

    /// The identity string of this user, as `get_user_id` returns it.
    spec fn identity(&self) -> Seq<char>;

    /// Create a `User` instance from a user id.
    ///
    /// Returns a user exactly when the id is recognized, and then one whose
    /// identity is the id; the request is left as it was.
    fn from_user_id(request: &mut Request, user_id: &str) -> (u: Option<Self>)
        ensures
            final(request)@ == old(request)@,
            u is Some <==> Self::recognizes(user_id@),
            u matches Some(x) ==> x.identity() == user_id@,
    ;

    /// Get the user id associated with this `User`.
    fn get_user_id(&self) -> (r: String)
        ensures
            r@ == self.identity(),
    ;

    /// Create a `Login<Self>` instance (no need to override): read the
    /// request's config, and the user its identity cookie resolves to.
    fn get_login(request: &mut Request) -> (login: Login<Self>)
        requires
            old(request)@.config is Some,
        ensures
            final(request)@ == old(request)@,
            login@.config == old(request)@.config.unwrap(),
            ({
                let name = old(request)@.config.unwrap().cookie_base.name;
                match session_token(old(request)@.cookies, name) {
                    Some(t) => match login@.user {
                        Some(u) => Self::recognizes(t) && u.identity() == t,
                        None => !Self::recognizes(t),
                    },
                    None => login@.user is None,
                }
            }),
    {
        let config: Config = match &request.config {
            Some(c) => c.clone(),
            None => unreached(),
        };
        let user_id: Option<String> = match request.get_cookie(&config.cookie_base.name) {
            Some(c) => if c.value.as_str().unicode_len() > 0 {
                Some(c.value.clone())
            } else {
                None
            },
            None => None,
        };
        let user: Option<Self> = match user_id {
            Some(user_id) => Self::from_user_id(request, user_id.as_str()),
            None => None,
        };
        Login { user, config }
    }
}

/// Login state for one request.
///
/// To construct this within a request, use `User::get_login()`.
pub struct Login<U> {
    user: Option<U>,
    config: Config,
}

/// The mathematical image of a [`Login`] or of a pending cookie write: the
/// resolved (or pending) user and the configuration.
pub struct LoginView<U> {
    pub user: Option<U>,
    pub config: ConfigView,
}

impl<U> View for Login<U> {
    type V = LoginView<U>;

    closed spec fn view(&self) -> LoginView<U> {
        LoginView { user: self.user, config: self.config@ }
    }
}

impl<U: User> Login<U> {
    /// Read the session state of a request: its config, and the user its
    /// identity cookie resolves to, if any.  The same as `U::get_login`.
    pub fn from_request(request: &mut Request) -> (login: Login<U>)
        requires
            old(request)@.config is Some,
        ensures
            final(request)@ == old(request)@,
            login@.config == old(request)@.config.unwrap(),
            login_outcome::<U>(
                old(request)@.cookies,
                old(request)@.config.unwrap().cookie_base.name,
                login@.user,
            ),
    {
        U::get_login(request)
    }

    /// Unwrap into the `User` instance.
    pub fn get_user(self) -> (user: Option<U>)
        ensures
            user == self@.user,
    {
        self.user
    }

    /// Log in as the passed `User` instance.
    ///
    /// The transition is unconditional: logging in while already logged in
    /// replaces the identity.
    pub fn log_in(self, user: U) -> (m: LoginModifier<U>)
        ensures
            m@.user == Some(user),
            m@.config == self@.config,
    {
        LoginModifier { login: Login { user: Some(user), config: self.config } }
    }

    /// Log out (clearing the cookie).
    pub fn log_out(self) -> (m: LoginModifier<U>)
        ensures
            m@.user is None,
            m@.config == self@.config,
    {
        LoginModifier { login: Login { user: None, config: self.config } }
    }
}

/// The cookie a pending write attaches: the configured base cookie, its
/// value the pending user's identity, or empty for logged out.
pub open spec fn session_cookie<U: User>(v: LoginView<U>) -> CookieView {
    CookieView {
        name: v.config.cookie_base.name,
        value: match v.user {
            Some(u) => u.identity(),
            None => Seq::<char>::empty(),
        },
        path: v.config.cookie_base.path,
        http_only: v.config.cookie_base.http_only,
    }
}

/// A pending cookie write: applying it to a response attaches the session
/// cookie that records the login or logout.
pub struct LoginModifier<U> {
    login: Login<U>,
}

impl<U> View for LoginModifier<U> {
    type V = LoginView<U>;

    closed spec fn view(&self) -> LoginView<U> {
        self.login@
    }
}

impl<U: User> LoginModifier<U> {
    /// Apply the pending write: attach the session cookie to the response,
    /// overwriting any cookie of the same name.
    pub fn modify(self, response: &mut Response)
        ensures
            final(response)@ == with_cookie(old(response)@, session_cookie(self@)),
    {
        let LoginModifier { login } = self;
        let Login { user, config } = login;
        let Config { cookie_base } = config;
        let mut cookie = cookie_base;
        cookie.value = match user {
            Some(u) => u.get_user_id(),
            None => String::new(),
        };
        response.set_cookie(cookie);
    }
}

} // verus!
