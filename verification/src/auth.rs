use vstd::prelude::*;

use crate::app_error::{app_error_of, AppError, AppErrorKind};
use crate::email::{valid_email, Email};
use crate::entities::{opt_view, AuthClaims, AuthIdentity, GoogleUser, User};
use crate::errors::{DomainError, DomainErrorKind};
use crate::ports::{IdentityService, OAuthAuthorizationUrlBuilder, SessionCookieService};
use crate::text::{
    after_last, after_last_char, ascii_lower_seq, concat2, eq_ignore_ascii_case, owned, str_eq,
    trim, trim_spec,
};

verus! {

// ---------------------------------------------------------------------------
// Shared pieces
// ---------------------------------------------------------------------------

/// The address to which the identity provider sends users back.
pub open spec fn callback_uri(backend_url: Seq<char>) -> Seq<char> {
    backend_url + "/auth/callback"@
}

/// The address to which the identity provider sends users back:
/// `{backend_url}/auth/callback`.
pub fn callback_uri_for(backend_url: &str) -> (r: String)
    ensures
        r@ == callback_uri(backend_url@),
{
    concat2(backend_url, "/auth/callback")
}

/// Name for what `str::to_lowercase` gives: the Unicode lower-case mapping of `s`.
pub uninterp spec fn unicode_lowercase(s: Seq<char>) -> Seq<char>;

/// `str::to_lowercase`. Claimed: the result is [`unicode_lowercase`] of `s`.
#[verifier::external_body]
fn to_lowercase(s: &str) -> (r: String)
    ensures
        r@ == unicode_lowercase(s@),
{
    s.to_lowercase()
}

/// The views of a list of strings.
pub open spec fn views(v: Seq<String>) -> Seq<Seq<char>> {
    v.map_values(|s: String| s@)
}

fn contains_text(list: &Vec<String>, item: &str) -> (r: bool)
    ensures
        r == views(list@).contains(item@),
{
    let mut i: usize = 0;
    while i < list.len()
        invariant
            i <= list.len(),
            forall|j: int| 0 <= j < i ==> list@[j]@ != item@,
        decreases list.len() - i,
    {
        if str_eq(list[i].as_str(), item) {
            assert(views(list@)[i as int] == item@);
            return true;
        }
        i = i + 1;
    }
    assert(!views(list@).contains(item@)) by {
        if views(list@).contains(item@) {
            let k = choose|k: int| 0 <= k < views(list@).len() && views(list@)[k] == item@;
            assert(list@[k]@ == item@);
        }
    }
    false
}

// ---------------------------------------------------------------------------
// Sign-out
// ---------------------------------------------------------------------------

/// Closes sessions.
pub struct SignOutUseCase<S> {
    session_cookie_service: S,
}

impl<S: SessionCookieService> SignOutUseCase<S> {
    /// The cookie service in use.
    pub closed spec fn cookies(&self) -> S {
        self.session_cookie_service
    }

    pub fn new(session_cookie_service: S) -> (r: SignOutUseCase<S>)
        ensures
            r.cookies() == session_cookie_service,
    {
        SignOutUseCase { session_cookie_service }
    }

    /// The `Set-Cookie` value that removes the session cookie.
    pub fn execute(&self) -> (r: String)
        ensures
            r@ == self.cookies().clear_cookie_spec(),
    {
        self.session_cookie_service.build_clear_auth_cookie()
    }
}

// ---------------------------------------------------------------------------
// Google authorization address
// ---------------------------------------------------------------------------

/// Builds the address that starts the Google sign-in.
pub struct BuildGoogleOAuthUrlUseCase<B> {
    oauth_authorization_url_builder: B,
}

impl<B: OAuthAuthorizationUrlBuilder> BuildGoogleOAuthUrlUseCase<B> {
    /// The address builder in use.
    pub closed spec fn builder(&self) -> B {
        self.oauth_authorization_url_builder
    }

    pub fn new(oauth_authorization_url_builder: B) -> (r: BuildGoogleOAuthUrlUseCase<B>)
        ensures
            r.builder() == oauth_authorization_url_builder,
    {
        BuildGoogleOAuthUrlUseCase { oauth_authorization_url_builder }
    }

    /// The authorization address, with `{backend_url}/auth/callback` as the address
    /// to come back to.
    pub fn execute(&self, backend_url: &str) -> (r: Result<String, DomainError>)
        ensures
            self.builder().authorization_url(callback_uri(backend_url@)) == match r {
                Ok(u) => Ok::<Seq<char>, (DomainErrorKind, Seq<char>)>(u@),
                Err(e) => Err::<Seq<char>, (DomainErrorKind, Seq<char>)>(e@),
            },
    {
        let redirect_uri = callback_uri_for(backend_url);
        self.oauth_authorization_url_builder.build_authorization_url(redirect_uri.as_str())
    }
}

// ---------------------------------------------------------------------------
// Local sign-in
// ---------------------------------------------------------------------------

/// Settings of the local (development) sign-in.
pub struct LocalSignInConfig {
    pub enabled: bool,
    pub email: String,
    pub password: String,
    pub name: String,
    pub picture: String,
}

/// The outcome of a local sign-in: the session cookie to set.
pub struct LocalSignInResult {
    pub auth_cookie: String,
}

/// Signs in the one local user whose credentials the settings hold.
pub struct LocalSignInUseCase<I, S> {
    identity_service: I,
    session_cookie_service: S,
    config: LocalSignInConfig,
}

/// The credentials `email` and `password` are those of the local user: the
/// address, trimmed, equals the configured one up to ASCII case, and the
/// password is the configured one.
pub open spec fn local_credentials_match(
    config: LocalSignInConfig,
    email: Seq<char>,
    password: Seq<char>,
) -> bool {
    ascii_lower_seq(trim_spec(email)) == ascii_lower_seq(config.email@) && password
        == config.password@
}

/// `identity` is the identity of the local user described by `config`.
pub open spec fn local_identity(config: LocalSignInConfig, identity: AuthIdentity) -> bool {
    &&& identity.sub@ == config.email@
    &&& identity.email@ == config.email@
    &&& identity.name == config.name
    &&& identity.picture == config.picture
}

impl<I: IdentityService, S: SessionCookieService> LocalSignInUseCase<I, S> {
    /// The identity service in use.
    pub closed spec fn identities(&self) -> I {
        self.identity_service
    }

    /// The cookie service in use.
    pub closed spec fn cookies(&self) -> S {
        self.session_cookie_service
    }

    /// The settings in use.
    pub closed spec fn settings(&self) -> LocalSignInConfig {
        self.config
    }

    pub fn new(identity_service: I, session_cookie_service: S, config: LocalSignInConfig) -> (r:
        LocalSignInUseCase<I, S>)
        ensures
            r.identities() == identity_service,
            r.cookies() == session_cookie_service,
            r.settings() == config,
    {
        LocalSignInUseCase { identity_service, session_cookie_service, config }
    }

    /// Signs in with `email` and `password`. Refused when local sign-in is
    /// disabled, or when the credentials are not the configured ones; otherwise a
    /// session token is issued for the configured user and its cookie returned.
    pub fn execute(&self, email: &str, password: &str) -> (r: Result<LocalSignInResult, DomainError>)
        ensures
            !self.settings().enabled ==> (r matches Err(e) && e@ == (
                DomainErrorKind::Forbidden,
                "Autenticação local está desabilitada"@,
            )),
            self.settings().enabled && !local_credentials_match(self.settings(), email@, password@)
                ==> (r matches Err(e) && e@ == (
                DomainErrorKind::Unauthorized,
                "Credenciais inválidas"@,
            )),
            self.settings().enabled && local_credentials_match(self.settings(), email@, password@)
                && !valid_email(self.settings().email@) ==> (r matches Err(e) && e
                == DomainError::InvalidEmail(self.settings().email)),
            self.settings().enabled && local_credentials_match(self.settings(), email@, password@)
                && valid_email(self.settings().email@) ==> exists|identity: AuthIdentity|
                #[trigger] local_identity(self.settings(), identity) && match r {
                    Ok(res) => exists|token: Seq<char>|
                        #[trigger] self.identities().issues(identity, token) && res.auth_cookie@
                            == self.cookies().auth_cookie_spec(token),
                    Err(e) => self.identities().may_refuse(identity, e),
                },
            r matches Ok(res) ==> {
                &&& self.settings().enabled
                &&& local_credentials_match(self.settings(), email@, password@)
                &&& exists|identity: AuthIdentity, token: Seq<char>|
                    local_identity(self.settings(), identity) && #[trigger] self.identities().issues(
                        identity,
                        token,
                    ) && res.auth_cookie@ == self.cookies().auth_cookie_spec(token)
            },
    {
        if !self.config.enabled {
            return Err(DomainError::Forbidden(owned("Autenticação local está desabilitada")));
        }
        let trimmed = trim(email);
        let email_matches = eq_ignore_ascii_case(trimmed.as_str(), self.config.email.as_str());
        let password_matches = str_eq(password, self.config.password.as_str());
        if !email_matches || !password_matches {
            return Err(DomainError::Unauthorized(owned("Credenciais inválidas")));
        }
        let email_value = Email::new(self.config.email.clone())?;
        let identity = AuthIdentity {
            sub: email_value.to_string(),
            email: email_value,
            name: self.config.name.clone(),
            picture: self.config.picture.clone(),
        };
        let token = self.identity_service.generate_token(&identity);
        let r = self.finish_with_token(token);
        proof {
            assert(local_identity(self.settings(), identity));
            if r is Ok {
                let t = token->Ok_0;
                assert(self.identities().issues(identity, t@));
            }
        }
        r
    }

    /// The outcome of a local sign-in once the identity service answered `token`:
    /// the session cookie that holds the token, or the service's error unchanged.
    pub fn finish_with_token(&self, token: Result<String, DomainError>) -> (r: Result<
        LocalSignInResult,
        DomainError,
    >)
        ensures
            match token {
                Ok(t) => r matches Ok(res) && res.auth_cookie@ == self.cookies().auth_cookie_spec(
                    t@,
                ),
                Err(e) => r == Err::<LocalSignInResult, DomainError>(e),
            },
    {
        match token {
            Ok(t) => {
                let auth_cookie = self.session_cookie_service.build_auth_cookie(t.as_str());
                Ok(LocalSignInResult { auth_cookie })
            },
            Err(e) => Err(e),
        }
    }
}

// ---------------------------------------------------------------------------
// Google sign-in
// ---------------------------------------------------------------------------

/// The outcome of a Google sign-in: where to send the user, and the session
/// cookie to set.
pub struct AuthorizeGoogleUserResult {
    pub redirect_url: String,
    pub auth_cookie: Option<String>,
}

/// The e-mail domain of `email` as compared with the allowed list: what follows
/// the last `@`, lower-cased.
pub open spec fn email_domain(email: Seq<char>) -> Seq<char> {
    unicode_lowercase(after_last(email, '@'))
}

/// A Google user may sign in: its address is verified (when that is required),
/// and its domain is listed (when a list is given).
pub open spec fn google_user_allowed(
    require_verified_email: bool,
    allowed_domains: Seq<Seq<char>>,
    email_verified: bool,
    email: Seq<char>,
) -> bool {
    &&& (!require_verified_email || email_verified)
    &&& (allowed_domains.len() == 0 || allowed_domains.contains(email_domain(email)))
}

/// Signs in users that Google authenticated, within the configured limits.
pub struct AuthorizeGoogleUserUseCase<P, I, S, R> {
    google_oauth_provider: P,
    identity_service: I,
    session_cookie_service: S,
    require_verified_email: bool,
    allowed_email_domains: Vec<String>,
    user_repository: R,
}

impl<P, I: IdentityService, S: SessionCookieService, R> AuthorizeGoogleUserUseCase<P, I, S, R> {
    /// The identity service in use.
    pub closed spec fn identities(&self) -> I {
        self.identity_service
    }

    /// The cookie service in use.
    pub closed spec fn cookies(&self) -> S {
        self.session_cookie_service
    }

    /// Whether a verified address is required.
    pub closed spec fn requires_verified_email(&self) -> bool {
        self.require_verified_email
    }

    /// The allowed e-mail domains (none listed: every domain).
    pub closed spec fn allowed_domains(&self) -> Seq<Seq<char>> {
        views(self.allowed_email_domains@)
    }

    /// The identity provider in use.
    pub closed spec fn provider(&self) -> P {
        self.google_oauth_provider
    }

    /// The user store in use.
    pub closed spec fn repository(&self) -> R {
        self.user_repository
    }

    pub fn new(
        google_oauth_provider: P,
        identity_service: I,
        session_cookie_service: S,
        require_verified_email: bool,
        allowed_email_domains: Vec<String>,
        user_repository: R,
    ) -> (r: AuthorizeGoogleUserUseCase<P, I, S, R>)
        ensures
            r.identities() == identity_service,
            r.cookies() == session_cookie_service,
            r.requires_verified_email() == require_verified_email,
            r.allowed_domains() == views(allowed_email_domains@),
            r.provider() == google_oauth_provider,
            r.repository() == user_repository,
    {
        AuthorizeGoogleUserUseCase {
            google_oauth_provider,
            identity_service,
            session_cookie_service,
            require_verified_email,
            allowed_email_domains,
            user_repository,
        }
    }

    /// The identity provider in use.
    pub fn google_oauth_provider(&self) -> (r: &P)
        ensures
            *r == self.provider(),
    {
        &self.google_oauth_provider
    }

    /// The user store in use.
    pub fn user_repository(&self) -> (r: &R)
        ensures
            *r == self.repository(),
    {
        &self.user_repository
    }

    /// The address to which Google sends the user back.
    pub fn redirect_uri(&self, backend_url: &str) -> (r: String)
        ensures
            r@ == callback_uri(backend_url@),
    {
        callback_uri_for(backend_url)
    }

    /// The identity of `user`, when it may sign in.
    pub fn ensure_allowed_user(&self, user: GoogleUser) -> (r: Option<AuthIdentity>)
        ensures
            match r {
                Some(identity) => {
                    &&& google_user_allowed(
                        self.requires_verified_email(),
                        self.allowed_domains(),
                        user.email_verified,
                        user.email@,
                    )
                    &&& identity.sub == user.sub
                    &&& identity.email@ == user.email@
                    &&& identity.name == user.name
                    &&& identity.picture == user.picture
                },
                None => !google_user_allowed(
                    self.requires_verified_email(),
                    self.allowed_domains(),
                    user.email_verified,
                    user.email@,
                ),
            },
    {
        if self.require_verified_email && !user.email_verified {
            return None;
        }
        let domain = to_lowercase(after_last_char(user.email.as_str(), '@').as_str());
        let is_domain_allowed = self.allowed_email_domains.len() == 0 || contains_text(
            &self.allowed_email_domains,
            domain.as_str(),
        );
        if !is_domain_allowed {
            return None;
        }
        Some(AuthIdentity { sub: user.sub, email: user.email, name: user.name, picture: user.picture })
    }

    /// Admits `user`: its identity and the user record to store, or an
    /// authorization error when it may not sign in.
    pub fn admit_user(&self, user: GoogleUser) -> (r: Result<(AuthIdentity, User), DomainError>)
        ensures
            match r {
                Ok((identity, stored)) => {
                    &&& google_user_allowed(
                        self.requires_verified_email(),
                        self.allowed_domains(),
                        user.email_verified,
                        user.email@,
                    )
                    &&& identity.sub == user.sub
                    &&& identity.email@ == user.email@
                    &&& identity.name == user.name
                    &&& identity.picture == user.picture
                    &&& stored@.id is None
                    &&& stored@.email == user.email@
                    &&& !stored@.is_admin
                },
                Err(e) => {
                    &&& !google_user_allowed(
                        self.requires_verified_email(),
                        self.allowed_domains(),
                        user.email_verified,
                        user.email@,
                    )
                    &&& e@ == (DomainErrorKind::Unauthorized, "Usuário não autorizado"@)
                },
            },
    {
        match self.ensure_allowed_user(user) {
            Some(identity) => {
                let stored = User::new(identity.email.duplicate());
                Ok((identity, stored))
            },
            None => Err(DomainError::Unauthorized(owned("Usuário não autorizado"))),
        }
    }

    /// Finishes the sign-in of `identity`: a session token, its cookie, and the
    /// front-end address to go to.
    pub fn complete(&self, identity: &AuthIdentity, frontend_url: &str) -> (r: Result<
        AuthorizeGoogleUserResult,
        DomainError,
    >)
        ensures
            match r {
                Ok(res) => {
                    &&& res.redirect_url@ == frontend_url@
                    &&& exists|token: Seq<char>|
                        #[trigger] self.identities().issues(*identity, token) && (res.auth_cookie
                            matches Some(c) && c@ == self.cookies().auth_cookie_spec(token))
                },
                Err(e) => self.identities().may_refuse(*identity, e),
            },
    {
        let token = self.identity_service.generate_token(identity);
        let r = self.complete_with_token(token, frontend_url);
        proof {
            if r is Ok {
                let t = token->Ok_0;
                assert(self.identities().issues(*identity, t@));
            }
        }
        r
    }

    /// The outcome of a Google sign-in once the identity service answered `token`:
    /// the front-end address with the session cookie that holds the token, or the
    /// service's error unchanged.
    pub fn complete_with_token(&self, token: Result<String, DomainError>, frontend_url: &str) -> (r:
        Result<AuthorizeGoogleUserResult, DomainError>)
        ensures
            match token {
                Ok(t) => r matches Ok(res) && res.redirect_url@ == frontend_url@ && (res.auth_cookie
                    matches Some(c) && c@ == self.cookies().auth_cookie_spec(t@)),
                Err(e) => r == Err::<AuthorizeGoogleUserResult, DomainError>(e),
            },
    {
        match token {
            Ok(t) => {
                let auth_cookie = self.session_cookie_service.build_auth_cookie(t.as_str());
                Ok(
                    AuthorizeGoogleUserResult {
                        redirect_url: owned(frontend_url),
                        auth_cookie: Some(auth_cookie),
                    },
                )
            },
            Err(e) => Err(e),
        }
    }
}

// ---------------------------------------------------------------------------
// Profile
// ---------------------------------------------------------------------------

/// What the profile of a signed-in user shows of its stored record.
pub struct ProfileData {
    pub user_id: String,
    pub department_id: String,
    pub is_manager: bool,
    pub is_admin: bool,
}

/// Reads the profile of signed-in users from the user store.
pub struct GetUserProfileUseCase<R> {
    user_repository: R,
}

impl<R> GetUserProfileUseCase<R> {
    /// The user store in use.
    pub closed spec fn repository(&self) -> R {
        self.user_repository
    }

    pub fn new(user_repository: R) -> (r: GetUserProfileUseCase<R>)
        ensures
            r.repository() == user_repository,
    {
        GetUserProfileUseCase { user_repository }
    }

    /// The user store in use.
    pub fn user_repository(&self) -> (r: &R)
        ensures
            *r == self.repository(),
    {
        &self.user_repository
    }

    /// The profile for the stored record `found` (the outcome of looking the user
    /// up by address): not found when there is no record, invalid data when the
    /// record has no identifier.
    pub fn profile_of(found: Option<User>) -> (r: Result<ProfileData, DomainError>)
        ensures
            match found {
                None => r matches Err(e) && e@ == (
                    DomainErrorKind::NotFound,
                    "Usuário não encontrado"@,
                ),
                Some(u) => match u@.id {
                    None => r matches Err(e) && e@ == (
                        DomainErrorKind::InvalidData,
                        "Usuário autenticado sem id"@,
                    ),
                    Some(id) => r matches Ok(p) && p.user_id@ == id && p.department_id@
                        == u@.department_id && p.is_manager == u@.is_manager && p.is_admin
                        == u@.is_admin,
                },
            },
    {
        let user = match found {
            Some(u) => u,
            None => return Err(DomainError::NotFound(owned("Usuário não encontrado"))),
        };
        let user_id = match user.id() {
            Some(id) => owned(id),
            None => return Err(DomainError::InvalidData(owned("Usuário autenticado sem id"))),
        };
        Ok(
            ProfileData {
                user_id,
                department_id: owned(user.department_id()),
                is_manager: user.is_manager(),
                is_admin: user.is_admin(),
            },
        )
    }
}

/// The profile answer: what the session token tells, and what the stored record
/// adds when there is one.
pub struct ProfileResponse {
    pub user_id: Option<String>,
    pub email: String,
    pub name: String,
    pub picture: String,
    pub department_id: Option<String>,
    pub is_manager: Option<bool>,
    pub is_admin: Option<bool>,
}

/// The profile answer for the holder of `claims`, given the outcome of reading its
/// stored profile: a missing record leaves the stored fields out, another error is
/// answered as an error.
pub fn profile_response(claims: AuthClaims, lookup: Result<ProfileData, DomainError>) -> (r: Result<
    ProfileResponse,
    AppError,
>)
    ensures
        match lookup {
            Ok(p) => r matches Ok(resp) && resp.email == claims.email && resp.name == claims.name
                && resp.picture == claims.picture && opt_view(resp.user_id) == Some(p.user_id@)
                && opt_view(resp.department_id) == Some(p.department_id@) && resp.is_manager
                == Some(p.is_manager) && resp.is_admin == Some(p.is_admin),
            Err(e) => if e.kind() == DomainErrorKind::NotFound {
                r matches Ok(resp) && resp.email == claims.email && resp.name == claims.name
                    && resp.picture == claims.picture && resp.user_id is None
                    && resp.department_id is None && resp.is_manager is None
                    && resp.is_admin is None
            } else {
                r matches Err(a) && a@ == app_error_of(e)
            },
        },
{
    match lookup {
        Ok(p) => Ok(
            ProfileResponse {
                user_id: Some(p.user_id),
                email: claims.email,
                name: claims.name,
                picture: claims.picture,
                department_id: Some(p.department_id),
                is_manager: Some(p.is_manager),
                is_admin: Some(p.is_admin),
            },
        ),
        Err(DomainError::NotFound(_)) => Ok(
            ProfileResponse {
                user_id: None,
                email: claims.email,
                name: claims.name,
                picture: claims.picture,
                department_id: None,
                is_manager: None,
                is_admin: None,
            },
        ),
        Err(e) => Err(AppError::from_domain(e)),
    }
}

} // verus!
