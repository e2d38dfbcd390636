//! The cookie configuration shared by every request.

use vstd::prelude::*;
use crate::cookies::{Cookie, CookieView};

verus! {

/// Configuration of the session cookie.
///
/// The `cookie_base` cookie carries the attributes every session cookie is
/// written with: its name, its path and its flags.  Its value is ignored;
/// each write fills the value in from the session state.
pub struct Config {
    /// The prototype for every session cookie this library writes.
    ///
    /// Override e.g. the path or the http-only flag before the manager is
    /// installed.  The name must stay stable for the lifetime of a
    /// deployment: changing it invalidates all outstanding session cookies.
    pub cookie_base: Cookie,
}

/// The mathematical image of a [`Config`].
pub struct ConfigView {
    pub cookie_base: CookieView,
}

impl View for Config {
    type V = ConfigView;

    open spec fn view(&self) -> ConfigView {
        ConfigView { cookie_base: self.cookie_base@ }
    }
}

impl Clone for Config {
    fn clone(&self) -> (r: Self)
        ensures
            r@ == self@,
    {
        Config { cookie_base: self.cookie_base.clone() }
    }
}

/// The default configuration: a cookie named `logged_in_user`, path `/`,
/// http-only.
pub open spec fn spec_default_config() -> ConfigView {
    ConfigView {
        cookie_base: CookieView {
            name: "logged_in_user"@,
            value: ""@,
            path: Some("/"@),
            http_only: true,
        },
    }
}

impl Config {
    /// Construct a configuration instance with default values.
    pub fn defaults() -> (r: Self)
        ensures
            r@ == spec_default_config(),
    {
        Config {
            cookie_base: Cookie {
                name: "logged_in_user".to_owned(),
                value: "".to_owned(),
                path: Some("/".to_owned()),
                http_only: true,
            },
        }
    }
}

} // verus!
