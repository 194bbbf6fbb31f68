use vstd::prelude::*;

use crate::email::{valid_email, Email};
use crate::entities::{opt_view, GoogleUser};
use crate::errors::{DomainError, DomainErrorKind};
use crate::ports::OAuthAuthorizationUrlBuilder;
use crate::text::owned;

verus! {

/// Name for what `reqwest::Url` gives when the text `url` is parsed
/// (`Url::parse`), the pair `key`=`value` is appended to its query
/// (`query_pairs_mut().append_pair`), and the result is turned back into text
/// (`String::from`): `None` when `url` does not parse.
pub uninterp spec fn url_with_query_pair(url: Seq<char>, key: Seq<char>, value: Seq<char>) -> Option<
    Seq<char>,
>;

/// `reqwest::Url::parse`, then `query_pairs_mut().append_pair(key, value)`, then
/// `String::from`. The contract claims only that the outcome is
/// [`url_with_query_pair`] of the arguments.
#[verifier::external_body]
fn append_query_pair(url: &str, key: &str, value: &str) -> (r: Option<String>)
    ensures
        opt_view(r) == url_with_query_pair(url@, key@, value@),
{
    let mut parsed = reqwest::Url::parse(url).ok()?;
    parsed.query_pairs_mut().append_pair(key, value);
    Some(String::from(parsed))
}

/// The Google authorization address for `client_id` and `redirect_uri`: the fixed
/// endpoint with the query pairs `client_id`, `redirect_uri`, `response_type=code`,
/// `scope=openid email profile` and `access_type=offline`, in that order.
pub open spec fn google_authorization_url(client_id: Seq<char>, redirect_uri: Seq<char>) -> Option<
    Seq<char>,
> {
    let base = "https://accounts.google.com/o/oauth2/v2/auth"@;
    match url_with_query_pair(base, "client_id"@, client_id) {
        None => None,
        Some(u1) => match url_with_query_pair(u1, "redirect_uri"@, redirect_uri) {
            None => None,
            Some(u2) => match url_with_query_pair(u2, "response_type"@, "code"@) {
                None => None,
                Some(u3) => match url_with_query_pair(u3, "scope"@, "openid email profile"@) {
                    None => None,
                    Some(u4) => url_with_query_pair(u4, "access_type"@, "offline"@),
                },
            },
        },
    }
}

/// The error for an authorization address that could not be built.
pub fn url_parse_error() -> (r: DomainError)
    ensures
        r@ == (DomainErrorKind::InvalidData, "URL de autorização malformada"@),
{
    DomainError::InvalidData(owned("URL de autorização malformada"))
}

/// The error for a failed exchange with the OAuth provider.
pub fn oauth_http_error() -> (r: DomainError)
    ensures
        r@ == (DomainErrorKind::BusinessRuleViolation, "Falha na comunicação com provedor OAuth"@),
{
    DomainError::BusinessRuleViolation(owned("Falha na comunicação com provedor OAuth"))
}

/// The error for an answer of the OAuth provider that could not be read.
pub fn oauth_parse_error() -> (r: DomainError)
    ensures
        r@ == (DomainErrorKind::InvalidData, "Resposta OAuth inválida"@),
{
    DomainError::InvalidData(owned("Resposta OAuth inválida"))
}

/// The error that the disabled Google OAuth components answer with.
pub fn oauth_disabled_error() -> (r: DomainError)
    ensures
        r@ == (DomainErrorKind::Forbidden, "Google OAuth está desabilitado neste ambiente"@),
{
    DomainError::Forbidden(owned("Google OAuth está desabilitado neste ambiente"))
}

/// Builds Google authorization addresses for one client.
pub struct GoogleOAuthAuthorizationUrlBuilder {
    client_id: String,
}

impl View for GoogleOAuthAuthorizationUrlBuilder {
    /// The client identifier.
    type V = Seq<char>;

    closed spec fn view(&self) -> Seq<char> {
        self.client_id@
    }
}

impl GoogleOAuthAuthorizationUrlBuilder {
    pub fn new(client_id: String) -> (r: GoogleOAuthAuthorizationUrlBuilder)
        ensures
            r@ == client_id@,
    {
        GoogleOAuthAuthorizationUrlBuilder { client_id }
    }
}

impl OAuthAuthorizationUrlBuilder for GoogleOAuthAuthorizationUrlBuilder {
    open spec fn authorization_url(&self, redirect_uri: Seq<char>) -> Result<
        Seq<char>,
        (DomainErrorKind, Seq<char>),
    > {
        match google_authorization_url(self@, redirect_uri) {
            Some(u) => Ok(u),
            None => Err((DomainErrorKind::InvalidData, "URL de autorização malformada"@)),
        }
    }

    fn build_authorization_url(&self, redirect_uri: &str) -> (r: Result<String, DomainError>) {
        let u1 = match append_query_pair(
            "https://accounts.google.com/o/oauth2/v2/auth",
            "client_id",
            self.client_id.as_str(),
        ) {
            Some(u) => u,
            None => return Err(url_parse_error()),
        };
        let u2 = match append_query_pair(u1.as_str(), "redirect_uri", redirect_uri) {
            Some(u) => u,
            None => return Err(url_parse_error()),
        };
        let u3 = match append_query_pair(u2.as_str(), "response_type", "code") {
            Some(u) => u,
            None => return Err(url_parse_error()),
        };
        let u4 = match append_query_pair(u3.as_str(), "scope", "openid email profile") {
            Some(u) => u,
            None => return Err(url_parse_error()),
        };
        match append_query_pair(u4.as_str(), "access_type", "offline") {
            Some(u) => Ok(u),
            None => Err(url_parse_error()),
        }
    }
}

/// Stands in for the Google authorization address builder where Google OAuth is
/// not configured: every request is refused.
pub struct DisabledOAuthAuthorizationUrlBuilder;

impl OAuthAuthorizationUrlBuilder for DisabledOAuthAuthorizationUrlBuilder {
    open spec fn authorization_url(&self, redirect_uri: Seq<char>) -> Result<
        Seq<char>,
        (DomainErrorKind, Seq<char>),
    > {
        Err((DomainErrorKind::Forbidden, "Google OAuth está desabilitado neste ambiente"@))
    }

    fn build_authorization_url(&self, _redirect_uri: &str) -> (r: Result<String, DomainError>) {
        Err(oauth_disabled_error())
    }
}

/// Stands in for the Google identity provider where Google OAuth is not
/// configured: every exchange is refused.
pub struct DisabledGoogleOAuthProvider;

impl DisabledGoogleOAuthProvider {
    /// Refuses the exchange of `_authorization_code`.
    pub fn fetch_user_by_code(&self, _authorization_code: &str, _redirect_uri: &str) -> (r: Result<
        GoogleUser,
        DomainError,
    >)
        ensures
            r matches Err(e) && e@ == (
                DomainErrorKind::Forbidden,
                "Google OAuth está desabilitado neste ambiente"@,
            ),
    {
        Err(oauth_disabled_error())
    }
}

/// The user description that the Google user-information endpoint answers with.
pub struct GoogleUserResponse {
    pub sub: String,
    pub email: String,
    pub email_verified: bool,
    pub name: String,
    pub picture: String,
}

impl GoogleUserResponse {
    /// The domain user, once its address is validated.
    pub fn into_domain(self) -> (r: Result<GoogleUser, DomainError>)
        ensures
            match r {
                Ok(u) => {
                    &&& valid_email(self.email@)
                    &&& u.sub == self.sub
                    &&& u.email@ == self.email@
                    &&& u.email_verified == self.email_verified
                    &&& u.name == self.name
                    &&& u.picture == self.picture
                },
                Err(e) => !valid_email(self.email@) && e == DomainError::InvalidEmail(self.email),
            },
    {
        let GoogleUserResponse { sub, email, email_verified, name, picture } = self;
        let email = Email::new(email)?;
        Ok(GoogleUser { sub, email, email_verified, name, picture })
    }
}

} // verus!
