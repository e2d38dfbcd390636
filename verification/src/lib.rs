//! Per-request login-session management.
//!
//! A [`Login`] value is built from an incoming request's identity cookie and
//! resolves the current authenticated user, if any.  Logging in or out turns
//! the `Login` into a [`LoginModifier`], a pending cookie write that is
//! applied to the outgoing response.  The [`LoginManager`] holds the signing
//! key and the cookie configuration that every request uses.

pub mod config;
pub mod cookies;
pub mod http;
pub mod laws;
pub mod login;
pub mod manager;
pub mod users;

pub use config::Config;
pub use cookies::Cookie;
pub use http::Request;
pub use http::Response;
pub use login::Login;
pub use login::LoginModifier;
pub use login::User;
pub use manager::LoginManager;
