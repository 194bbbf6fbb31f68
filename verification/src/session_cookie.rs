use vstd::prelude::*;

use crate::ports::SessionCookieService;
use crate::text::{append_str, owned};

verus! {

/// The `Set-Cookie` value that stores `token` under `name` for `path` and `domain`.
pub open spec fn auth_cookie_text(
    name: Seq<char>,
    token: Seq<char>,
    path: Seq<char>,
    domain: Seq<char>,
) -> Seq<char> {
    name + "="@ + token + "; Path="@ + path + "; Domain="@ + domain
        + "; HttpOnly; Secure; SameSite=Lax"@
}

/// The `Set-Cookie` value that removes the cookie `name` for `path` and `domain`.
pub open spec fn clear_cookie_text(name: Seq<char>, path: Seq<char>, domain: Seq<char>) -> Seq<
    char,
> {
    name + "=; Max-Age=0; Path="@ + path + "; Domain="@ + domain
        + "; HttpOnly; Secure; SameSite=Lax"@
}

/// Session cookies named `token`, for the whole site (`/`) of one domain.
pub struct AxumSessionCookieService {
    cookie_name: String,
    cookie_domain: String,
    cookie_path: String,
}

impl View for AxumSessionCookieService {
    /// Name, domain and path of the cookie.
    type V = (Seq<char>, Seq<char>, Seq<char>);

    closed spec fn view(&self) -> (Seq<char>, Seq<char>, Seq<char>) {
        (self.cookie_name@, self.cookie_domain@, self.cookie_path@)
    }
}

impl AxumSessionCookieService {
    /// Cookies named `token` with path `/` for `cookie_domain`.
    pub fn new(cookie_domain: String) -> (r: AxumSessionCookieService)
        ensures
            r@ == ("token"@, cookie_domain@, "/"@),
    {
        AxumSessionCookieService {
            cookie_name: owned("token"),
            cookie_domain,
            cookie_path: owned("/"),
        }
    }
}

impl SessionCookieService for AxumSessionCookieService {
    open spec fn auth_cookie_spec(&self, token: Seq<char>) -> Seq<char> {
        auth_cookie_text(self@.0, token, self@.2, self@.1)
    }

    open spec fn clear_cookie_spec(&self) -> Seq<char> {
        clear_cookie_text(self@.0, self@.2, self@.1)
    }

    fn build_auth_cookie(&self, token: &str) -> (r: String) {
        let mut r = self.cookie_name.clone();
        append_str(&mut r, "=");
        append_str(&mut r, token);
        append_str(&mut r, "; Path=");
        append_str(&mut r, self.cookie_path.as_str());
        append_str(&mut r, "; Domain=");
        append_str(&mut r, self.cookie_domain.as_str());
        append_str(&mut r, "; HttpOnly; Secure; SameSite=Lax");
        r
    }

    fn build_clear_auth_cookie(&self) -> (r: String) {
        let mut r = self.cookie_name.clone();
        append_str(&mut r, "=; Max-Age=0; Path=");
        append_str(&mut r, self.cookie_path.as_str());
        append_str(&mut r, "; Domain=");
        append_str(&mut r, self.cookie_domain.as_str());
        append_str(&mut r, "; HttpOnly; Secure; SameSite=Lax");
        r
    }
}

} // verus!
