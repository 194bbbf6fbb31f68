use rust_ai_ready_stack::auth::{
    callback_uri_for, profile_response, AuthorizeGoogleUserUseCase, BuildGoogleOAuthUrlUseCase,
    GetUserProfileUseCase, LocalSignInConfig, LocalSignInUseCase, ProfileData, SignOutUseCase,
};
use rust_ai_ready_stack::app_error::AppError;
use rust_ai_ready_stack::email::Email;
use rust_ai_ready_stack::entities::{AuthClaims, GoogleUser, User};
use rust_ai_ready_stack::errors::DomainError;
use rust_ai_ready_stack::google::{
    DisabledGoogleOAuthProvider, DisabledOAuthAuthorizationUrlBuilder,
    GoogleOAuthAuthorizationUrlBuilder, GoogleUserResponse,
};
use rust_ai_ready_stack::jwt::JwtIdentityService;
use rust_ai_ready_stack::ports::{IdentityService, OAuthAuthorizationUrlBuilder};
use rust_ai_ready_stack::session_cookie::AxumSessionCookieService;

fn config(enabled: bool) -> LocalSignInConfig {
    LocalSignInConfig {
        enabled,
        email: "admin@localhost".to_string(),
        password: "admin123".to_string(),
        name: "Local User".to_string(),
        picture: "".to_string(),
    }
}

fn local(enabled: bool) -> LocalSignInUseCase<JwtIdentityService, AxumSessionCookieService> {
    LocalSignInUseCase::new(
        JwtIdentityService::new("secret".to_string()),
        AxumSessionCookieService::new("localhost".to_string()),
        config(enabled),
    )
}

#[test]
fn local_sign_in_disabled() {
    match local(false).execute("admin@localhost", "admin123") {
        Err(DomainError::Forbidden(m)) => assert_eq!(m, "Autenticação local está desabilitada"),
        _ => panic!("expected forbidden"),
    }
}

#[test]
fn local_sign_in_wrong_credentials() {
    for (email, password) in [("admin@localhost", "nope"), ("other@localhost", "admin123")] {
        match local(true).execute(email, password) {
            Err(DomainError::Unauthorized(m)) => assert_eq!(m, "Credenciais inválidas"),
            _ => panic!("expected unauthorized"),
        }
    }
}

#[test]
fn local_sign_in_issues_a_session_cookie() {
    let uc = local(true);
    let result = uc.execute("  ADMIN@Localhost ", "admin123").ok().unwrap();
    assert!(result.auth_cookie.starts_with("token="));
    assert!(result.auth_cookie.ends_with("; Path=/; Domain=localhost; HttpOnly; Secure; SameSite=Lax"));
    let token = result.auth_cookie["token=".len()..].split(';').next().unwrap().to_string();
    let claims = JwtIdentityService::new("secret".to_string()).validate_token(&token).ok().unwrap();
    assert_eq!(claims.email, "admin@localhost");
    assert_eq!(claims.name, "Local User");
}

#[test]
fn local_sign_in_with_an_invalid_configured_email() {
    let mut cfg = config(true);
    cfg.email = "not-an-email".to_string();
    let uc = LocalSignInUseCase::new(
        JwtIdentityService::new("secret".to_string()),
        AxumSessionCookieService::new("localhost".to_string()),
        cfg,
    );
    match uc.execute("not-an-email", "admin123") {
        Err(DomainError::InvalidEmail(m)) => assert_eq!(m, "not-an-email"),
        _ => panic!("expected an invalid e-mail"),
    }
}

#[test]
fn sign_out_clears_the_cookie() {
    let uc = SignOutUseCase::new(AxumSessionCookieService::new("example.com".to_string()));
    assert_eq!(
        uc.execute(),
        "token=; Max-Age=0; Path=/; Domain=example.com; HttpOnly; Secure; SameSite=Lax"
    );
}

#[test]
fn callback_uri_is_under_the_backend() {
    assert_eq!(callback_uri_for("http://localhost:5555"), "http://localhost:5555/auth/callback");
}

#[test]
fn google_authorization_url() {
    let uc = BuildGoogleOAuthUrlUseCase::new(GoogleOAuthAuthorizationUrlBuilder::new("abc".to_string()));
    let url = uc.execute("http://localhost:5555").ok().unwrap();
    assert_eq!(
        url,
        "https://accounts.google.com/o/oauth2/v2/auth?client_id=abc&redirect_uri=http%3A%2F%2Flocalhost%3A5555%2Fauth%2Fcallback&response_type=code&scope=openid+email+profile&access_type=offline"
    );
}

#[test]
fn disabled_google_oauth_refuses() {
    match DisabledOAuthAuthorizationUrlBuilder.build_authorization_url("x") {
        Err(DomainError::Forbidden(m)) => assert_eq!(m, "Google OAuth está desabilitado neste ambiente"),
        _ => panic!("expected forbidden"),
    }
    match DisabledGoogleOAuthProvider.fetch_user_by_code("code", "uri") {
        Err(DomainError::Forbidden(m)) => assert_eq!(m, "Google OAuth está desabilitado neste ambiente"),
        _ => panic!("expected forbidden"),
    }
}

fn google_user(email: &str, verified: bool) -> GoogleUser {
    GoogleUser {
        sub: "g-1".to_string(),
        email: Email::new(email.to_string()).ok().unwrap(),
        email_verified: verified,
        name: "Bia".to_string(),
        picture: "p".to_string(),
    }
}

fn authorize(
    require_verified: bool,
    domains: Vec<&str>,
) -> AuthorizeGoogleUserUseCase<(), JwtIdentityService, AxumSessionCookieService, ()> {
    AuthorizeGoogleUserUseCase::new(
        (),
        JwtIdentityService::new("secret".to_string()),
        AxumSessionCookieService::new("localhost".to_string()),
        require_verified,
        domains.into_iter().map(|d| d.to_string()).collect(),
        (),
    )
}

#[test]
fn google_users_within_limits_are_allowed() {
    let uc = authorize(true, vec!["example.com"]);
    let identity = uc.ensure_allowed_user(google_user("bia@Example.COM", true)).unwrap();
    assert_eq!(identity.sub, "g-1");
    assert_eq!(identity.email.as_str(), "bia@Example.COM");
    assert!(authorize(false, vec![]).ensure_allowed_user(google_user("x@any.org", false)).is_some());
}

#[test]
fn google_users_outside_limits_are_refused() {
    assert!(authorize(true, vec![]).ensure_allowed_user(google_user("x@any.org", false)).is_none());
    assert!(authorize(false, vec!["example.com"])
        .ensure_allowed_user(google_user("x@any.org", true))
        .is_none());
    match authorize(true, vec![]).admit_user(google_user("x@any.org", false)) {
        Err(DomainError::Unauthorized(m)) => assert_eq!(m, "Usuário não autorizado"),
        _ => panic!("expected unauthorized"),
    }
}

#[test]
fn google_sign_in_completes_with_a_cookie() {
    let uc = authorize(false, vec![]);
    let (identity, stored) = uc.admit_user(google_user("bia@example.com", true)).ok().unwrap();
    assert_eq!(stored.email().as_str(), "bia@example.com");
    assert!(stored.id().is_none());
    assert!(!stored.is_admin());
    let result = uc.complete(&identity, "http://localhost:3000").ok().unwrap();
    assert_eq!(result.redirect_url, "http://localhost:3000");
    assert!(result.auth_cookie.unwrap().starts_with("token="));
    assert_eq!(uc.redirect_uri("http://b"), "http://b/auth/callback");
}

#[test]
fn google_user_response_into_domain() {
    let ok = GoogleUserResponse {
        sub: "s".to_string(),
        email: "a@b.c".to_string(),
        email_verified: true,
        name: "n".to_string(),
        picture: "p".to_string(),
    };
    let user = ok.into_domain().ok().unwrap();
    assert_eq!(user.email.as_str(), "a@b.c");
    let bad = GoogleUserResponse {
        sub: "s".to_string(),
        email: "nope".to_string(),
        email_verified: true,
        name: "n".to_string(),
        picture: "p".to_string(),
    };
    assert!(matches!(bad.into_domain(), Err(DomainError::InvalidEmail(ref m)) if m == "nope"));
}

#[test]
fn profile_of_stored_users() {
    assert!(matches!(
        GetUserProfileUseCase::<()>::profile_of(None),
        Err(DomainError::NotFound(ref m)) if m == "Usuário não encontrado"
    ));
    let email = Email::new("a@b.c".to_string()).ok().unwrap();
    assert!(matches!(
        GetUserProfileUseCase::<()>::profile_of(Some(User::new(email.duplicate()))),
        Err(DomainError::InvalidData(ref m)) if m == "Usuário autenticado sem id"
    ));
    let user = User::new(email).with_id("42".to_string()).set_admin(true);
    let profile = GetUserProfileUseCase::<()>::profile_of(Some(user)).ok().unwrap();
    assert_eq!(profile.user_id, "42");
    assert!(profile.is_admin);
    assert!(!profile.is_manager);
    assert_eq!(profile.department_id, "");
}

fn claims() -> AuthClaims {
    AuthClaims { email: "a@b.c".to_string(), name: "A".to_string(), picture: "P".to_string() }
}

#[test]
fn profile_answers() {
    let full = profile_response(
        claims(),
        Ok(ProfileData {
            user_id: "1".to_string(),
            department_id: "d".to_string(),
            is_manager: true,
            is_admin: false,
        }),
    )
    .ok()
    .unwrap();
    assert_eq!(full.user_id.as_deref(), Some("1"));
    assert_eq!(full.is_manager, Some(true));
    let missing = profile_response(claims(), Err(DomainError::NotFound("x".to_string()))).ok().unwrap();
    assert_eq!(missing.email, "a@b.c");
    assert!(missing.user_id.is_none() && missing.is_admin.is_none());
    match profile_response(claims(), Err(DomainError::InvalidData("x".to_string()))) {
        Err(AppError::BadRequest(m)) => assert_eq!(m, "Dados inválidos: x"),
        _ => panic!("expected a bad request"),
    }
}

#[test]
fn local_sign_in_passes_the_token_answer_on() {
    let uc = local(true);
    let ok = uc.finish_with_token(Ok("abc.def.ghi".to_string())).ok().unwrap();
    assert_eq!(ok.auth_cookie, "token=abc.def.ghi; Path=/; Domain=localhost; HttpOnly; Secure; SameSite=Lax");
    match uc.finish_with_token(Err(DomainError::Unauthorized("Falha ao gerar token de autenticação".to_string()))) {
        Err(DomainError::Unauthorized(m)) => assert_eq!(m, "Falha ao gerar token de autenticação"),
        _ => panic!("expected the token error"),
    }
    for password in ["ADMIN123", " admin123"] {
        assert!(matches!(uc.execute("admin@localhost", password), Err(DomainError::Unauthorized(ref m)) if m == "Credenciais inválidas"));
    }
}

#[test]
fn google_sign_in_passes_the_token_answer_on() {
    let uc = authorize(false, vec![]);
    let ok = uc.complete_with_token(Ok("t.o.k".to_string()), "http://front").ok().unwrap();
    assert_eq!(ok.redirect_url, "http://front");
    assert_eq!(
        ok.auth_cookie.as_deref(),
        Some("token=t.o.k; Path=/; Domain=localhost; HttpOnly; Secure; SameSite=Lax")
    );
    match uc.complete_with_token(Err(DomainError::Conflict("x".to_string())), "http://front") {
        Err(DomainError::Conflict(m)) => assert_eq!(m, "x"),
        _ => panic!("expected the token error"),
    }
}
