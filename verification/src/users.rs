//! Two ready-made [`User`] implementations.
//!
//! [`TokenUser`] is for deployments where the identity token itself is the
//! whole user record: every non-empty token is a user.  [`HandleUser`] is
//! for deployments whose identities are `@`-prefixed handles: any other
//! token is unknown and resolves to no user, as a stale or foreign cookie
//! value should.

use vstd::prelude::*;
use vstd::string::StrSliceExecFns;
use crate::http::Request;
use crate::login::User;

verus! {

/// A user that is nothing but its identity token.  Every non-empty token
/// is recognized.
pub struct TokenUser {
    /// The identity token.
    pub user_id: String,
}

impl User for TokenUser {
    open spec fn recognizes(user_id: Seq<char>) -> bool {
        user_id.len() > 0
    }

    open spec fn identity(&self) -> Seq<char> {
        self.user_id@
    }

    fn from_user_id(request: &mut Request, user_id: &str) -> (u: Option<Self>) {
        if user_id.unicode_len() > 0 {
            Some(TokenUser { user_id: user_id.to_owned() })
        } else {
            None
        }
    }

    fn get_user_id(&self) -> (r: String) {
        self.user_id.clone()
    }
}

/// A user identified by an `@`-prefixed handle.  A token without the
/// prefix is no known identity and resolves to no user.
pub struct HandleUser {
    /// The handle, `@` included.
    pub handle: String,
}

impl User for HandleUser {
    open spec fn recognizes(user_id: Seq<char>) -> bool {
        user_id.len() > 0 && user_id[0] == '@'
    }

    open spec fn identity(&self) -> Seq<char> {
        self.handle@
    }

    fn from_user_id(request: &mut Request, user_id: &str) -> (u: Option<Self>) {
        if user_id.unicode_len() > 0 && user_id.get_char(0) == '@' {
            Some(HandleUser { handle: user_id.to_owned() })
        } else {
            None
        }
    }

    fn get_user_id(&self) -> (r: String) {
        self.handle.clone()
    }
}

} // verus!
