use vstd::prelude::*;

use crate::entities::{AuthClaims, AuthIdentity};
use crate::errors::{DomainError, DomainErrorKind};

verus! {

/// Builds the `Set-Cookie` values that open and close a session.
pub trait SessionCookieService {
    /// The `Set-Cookie` value that stores `token` in the browser.
    spec fn auth_cookie_spec(&self, token: Seq<char>) -> Seq<char>;

    /// The `Set-Cookie` value that removes the session cookie.
    spec fn clear_cookie_spec(&self) -> Seq<char>;

    fn build_auth_cookie(&self, token: &str) -> (r: String)
        ensures
            r@ == self.auth_cookie_spec(token@),
    ;

    fn build_clear_auth_cookie(&self) -> (r: String)
        ensures
            r@ == self.clear_cookie_spec(),
    ;
}

/// Issues and checks session tokens.
pub trait IdentityService {
    /// `token` is one that this service may issue for `identity`.
    spec fn issues(&self, identity: AuthIdentity, token: Seq<char>) -> bool;

    /// This service may refuse to issue a token for `identity`, with `error`.
    spec fn may_refuse(&self, identity: AuthIdentity, error: DomainError) -> bool;

    /// This service may accept `token` as carrying `claims`.
    spec fn accepts(&self, token: Seq<char>, claims: AuthClaims) -> bool;

    /// This service may refuse `token`, with `error`.
    spec fn rejects(&self, token: Seq<char>, error: DomainError) -> bool;

    fn generate_token(&self, identity: &AuthIdentity) -> (r: Result<String, DomainError>)
        ensures
            r matches Ok(t) ==> self.issues(*identity, t@),
            r matches Err(e) ==> self.may_refuse(*identity, e),
    ;

    fn validate_token(&self, token: &str) -> (r: Result<AuthClaims, DomainError>)
        ensures
            r matches Ok(c) ==> self.accepts(token@, c),
            r matches Err(e) ==> self.rejects(token@, e),
    ;
}

/// Builds the address to which a user is sent to authorize the application.
pub trait OAuthAuthorizationUrlBuilder {
    /// The outcome of building the address for `redirect_uri`.
    spec fn authorization_url(&self, redirect_uri: Seq<char>) -> Result<
        Seq<char>,
        (DomainErrorKind, Seq<char>),
    >;

    fn build_authorization_url(&self, redirect_uri: &str) -> (r: Result<String, DomainError>)
        ensures
            self.authorization_url(redirect_uri@) == match r {
                Ok(u) => Ok::<Seq<char>, (DomainErrorKind, Seq<char>)>(u@),
                Err(e) => Err::<Seq<char>, (DomainErrorKind, Seq<char>)>(e@),
            },
    ;
}

/// Sends HTML e-mail.
pub trait EmailSender {
    fn send_html_email(&self, recipient: &str, subject: &str, html_body: &str) -> Result<
        (),
        DomainError,
    >;
}

} // verus!
