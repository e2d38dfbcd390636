//! Plain models of the one request and the one response this library reads
//! and writes.
//!
//! The transport hands this layer a request whose session cookie has already
//! been verified and decrypted, together with the configuration the manager
//! published for the request; both are plain values here.  The response is
//! the outgoing cookie collection that the transport signs and sends.

use vstd::prelude::*;
use vstd::pervasive::VecAdditionalExecFns;
use crate::cookies::{Cookie, CookieView, cookie_lookup, with_cookie};
use crate::config::{Config, ConfigView};

verus! {

/// One incoming request, as this layer sees it: the configuration published
/// by the manager, and the decrypted cookies the request carries.
pub struct Request {
    /// The configuration the manager published for this request, or `None`
    /// where no manager was installed upstream.
    pub config: Option<Config>,
    /// The request's cookies, decrypted and verified by the transport.
    pub cookies: Vec<Cookie>,
}

/// The mathematical image of a [`Request`].
pub struct RequestView {
    pub config: Option<ConfigView>,
    pub cookies: Seq<CookieView>,
}

impl View for Request {
    type V = RequestView;

    open spec fn view(&self) -> RequestView {
        RequestView {
            config: match self.config {
                Some(c) => Some(c@),
                None => None,
            },
            cookies: self.cookies@.map_values(|c: Cookie| c@),
        }
    }
}

impl Request {
    /// A request carrying the given configuration and cookies.
    pub fn new(config: Option<Config>, cookies: Vec<Cookie>) -> (r: Self)
        ensures
            r == (Request { config, cookies }),
    {
        Request { config, cookies }
    }

    /// The first cookie with the given name, if any.
    pub fn get_cookie<'a>(&'a self, name: &String) -> (r: Option<&'a Cookie>)
        ensures
            match r {
                Some(c) => cookie_lookup(self@.cookies, name@) == Some(c@),
                None => cookie_lookup(self@.cookies, name@) is None,
            },
    {
        proof {
            assert(self@.cookies.skip(0) =~= self@.cookies);
        }
        let n: usize = self.cookies.len();
        let mut i: usize = 0;
        while i < n
            invariant
                n == self.cookies.len(),
                i <= n,
                cookie_lookup(self@.cookies, name@) == cookie_lookup(
                    self@.cookies.skip(i as int),
                    name@,
                ),
            decreases n - i,
        {
            proof {
                assert(self@.cookies.skip(i as int)[0] == self@.cookies[i as int]);
                assert(self@.cookies.skip(i as int).skip(1) =~= self@.cookies.skip(i + 1));
            }
            if self.cookies[i].name == *name {
                return Some(&self.cookies[i]);
            }
            i = i + 1;
        }
        proof {
            assert(self@.cookies.skip(n as int) =~= Seq::<CookieView>::empty());
        }
        None
    }
}

/// One outgoing response, as this layer sees it: the cookie collection that
/// the transport will sign and send.
pub struct Response {
    /// The response's outgoing cookies.
    pub cookies: Vec<Cookie>,
}

impl View for Response {
    type V = Seq<CookieView>;

    open spec fn view(&self) -> Seq<CookieView> {
        self.cookies@.map_values(|c: Cookie| c@)
    }
}

impl Response {
    /// A response that carries no cookie yet.
    pub fn new() -> (r: Self)
        ensures
            r@ == Seq::<CookieView>::empty(),
    {
        let r = Response { cookies: Vec::new() };
        proof {
            assert(r@ =~= Seq::<CookieView>::empty());
        }
        r
    }

    /// Attach a cookie: the first cookie of the same name is overwritten,
    /// otherwise the cookie is appended.
    pub fn set_cookie(&mut self, cookie: Cookie)
        ensures
            final(self)@ == with_cookie(old(self)@, cookie@),
    {
        let ghost s = self@;
        let ghost cv = cookie@;
        proof {
            assert(s.skip(0) =~= s);
            assert(s.take(0) + with_cookie(s, cv) =~= with_cookie(s, cv));
        }
        let n: usize = self.cookies.len();
        let mut i: usize = 0;
        while i < n
            invariant
                n == self.cookies.len(),
                i <= n,
                self@ == s,
                old(self)@ == s,
                cookie@ == cv,
                with_cookie(s, cv) == s.take(i as int) + with_cookie(s.skip(i as int), cv),
                forall|j: int| 0 <= j < i ==> s[j].name != cv.name,
            decreases n - i,
        {
            proof {
                assert(s.skip(i as int)[0] == s[i as int]);
                assert(s.skip(i as int).skip(1) =~= s.skip(i + 1));
            }
            if self.cookies[i].name == cookie.name {
                proof {
                    assert(s[i as int] == self.cookies@[i as int]@);
                    assert(self.cookies@[i as int].name@ == cookie.name@);
                    assert(s[i as int].name == cv.name);
                    assert(with_cookie(s.skip(i as int), cv) == seq![cv] + s.skip(i + 1));
                    assert(s.take(i as int) + (seq![cv] + s.skip(i + 1)) =~= s.update(
                        i as int,
                        cv,
                    ));
                }
                let ghost pre = self.cookies@;
                self.cookies.set(i, cookie);
                proof {
                    assert(self.cookies@ == pre.update(i as int, cookie));
                    assert forall|j: int| 0 <= j < self@.len() implies self@[j] == s.update(
                        i as int,
                        cv,
                    )[j] by {
                        assert(self@[j] == self.cookies@[j]@);
                        if j != i {
                            assert(self.cookies@[j] == pre[j]);
                            assert(s[j] == pre[j]@);
                        }
                    }
                    assert(self@.len() == s.update(i as int, cv).len());
                    assert(self@ =~= s.update(i as int, cv));
                }
                return;
            }
            proof {
                assert(s.take(i as int) + (seq![s[i as int]] + with_cookie(s.skip(i + 1), cv))
                    =~= s.take(i + 1) + with_cookie(s.skip(i + 1), cv));
            }
            i = i + 1;
        }
        proof {
            assert(s.skip(n as int) =~= Seq::<CookieView>::empty());
            assert(s.take(n as int) + seq![cv] =~= s.push(cv));
        }
        let ghost pre = self.cookies@;
        self.cookies.push(cookie);
        proof {
            assert(self.cookies@ == pre.push(cookie));
            assert forall|j: int| 0 <= j < self@.len() implies self@[j] == s.push(cv)[j] by {
                assert(self@[j] == self.cookies@[j]@);
                if j < pre.len() {
                    assert(self.cookies@[j] == pre[j]);
                    assert(s[j] == pre[j]@);
                }
            }
            assert(self@.len() == s.push(cv).len());
            assert(self@ =~= s.push(cv));
        }
    }
}

} // verus!
