use rust_ai_ready_stack::http::{
    authenticate, env_flag_value, extract_token_cookie, google_oauth_enabled, log_level,
    mongo_tls_settings, parse_allowed_domains, port_from_setting,
};
use rust_ai_ready_stack::jwt::JwtIdentityService;
use rust_ai_ready_stack::ports::{IdentityService, SessionCookieService};
use rust_ai_ready_stack::session_cookie::AxumSessionCookieService;
use rust_ai_ready_stack::app_error::AppError;
use rust_ai_ready_stack::email::Email;
use rust_ai_ready_stack::entities::{AuthClaims, AuthIdentity};
use rust_ai_ready_stack::errors::DomainError;
use rust_ai_ready_stack::http::session_outcome;

#[test]
fn test_log_levels() {
    assert_eq!("INFO", log_level(200));
    assert_eq!("WARN", log_level(400));
    assert_eq!("ERROR", log_level(500));
}

#[test]
fn log_levels_at_the_edges() {
    assert_eq!(log_level(299), "INFO");
    assert_eq!(log_level(302), "INFO");
    assert_eq!(log_level(399), "INFO");
    assert_eq!(log_level(499), "WARN");
    assert_eq!(log_level(599), "ERROR");
    assert_eq!(log_level(100), "DEBUG");
    assert_eq!(log_level(600), "DEBUG");
}

#[test]
fn extract_token_cookie_returns_token_when_present() {
    let header = "theme=dark; token=abc123; session=xyz";
    assert_eq!(extract_token_cookie(header).as_deref(), Some("abc123"));
}

#[test]
fn extract_token_cookie_returns_none_when_absent() {
    let header = "theme=dark; session=xyz";
    assert_eq!(extract_token_cookie(header), None);
}

#[test]
fn extract_token_cookie_edge_cases() {
    assert_eq!(extract_token_cookie("token=a; token=b").as_deref(), Some("a"));
    assert_eq!(extract_token_cookie("  token=abc  ").as_deref(), Some("abc"));
    assert_eq!(extract_token_cookie("token=token=abc").as_deref(), Some("abc"));
    assert_eq!(extract_token_cookie("token=").as_deref(), Some(""));
    assert_eq!(extract_token_cookie("mytoken=abc"), None);
    assert_eq!(extract_token_cookie(""), None);
}

#[test]
fn session_cookie_round_trip() {
    let service = AxumSessionCookieService::new("example.com".to_string());
    let token = "eyJhbGciOiJIUzI1NiJ9.eyJzdWIiOiIxIn0.sig-_x";
    let set_cookie = service.build_auth_cookie(token);
    let pair = set_cookie.split(';').next().unwrap();
    assert_eq!(pair, format!("token={}", token));
    assert_eq!(extract_token_cookie(pair).as_deref(), Some(token));
}

#[test]
fn session_cookie_texts() {
    let service = AxumSessionCookieService::new("localhost".to_string());
    assert_eq!(
        service.build_auth_cookie("abc"),
        "token=abc; Path=/; Domain=localhost; HttpOnly; Secure; SameSite=Lax"
    );
    assert_eq!(
        service.build_clear_auth_cookie(),
        "token=; Max-Age=0; Path=/; Domain=localhost; HttpOnly; Secure; SameSite=Lax"
    );
}

#[test]
fn env_flag_values() {
    assert!(env_flag_value(Some(" TRUE "), false));
    assert!(env_flag_value(Some("1"), false));
    assert!(env_flag_value(Some("Yes"), false));
    assert!(env_flag_value(Some("on"), false));
    assert!(!env_flag_value(Some("off"), true));
    assert!(!env_flag_value(Some(""), true));
    assert!(env_flag_value(None, true));
    assert!(!env_flag_value(None, false));
}

#[test]
fn allowed_domains_are_trimmed_and_lowercased() {
    let domains = parse_allowed_domains(" Example.com ,, corp.ORG,  ");
    assert_eq!(domains, vec!["example.com".to_string(), "corp.org".to_string()]);
    assert!(parse_allowed_domains("").is_empty());
}

#[test]
fn google_oauth_needs_both_settings() {
    assert!(google_oauth_enabled("id", "secret"));
    assert!(!google_oauth_enabled("  ", "secret"));
    assert!(!google_oauth_enabled("id", ""));
}

fn identity() -> AuthIdentity {
    AuthIdentity {
        sub: "user-1".to_string(),
        email: Email::new("ana@example.com".to_string()).ok().unwrap(),
        name: "Ana \"A\" Silva".to_string(),
        picture: "https://img/ana.png".to_string(),
    }
}

#[test]
fn authenticate_accepts_a_session_cookie() {
    let jwt = JwtIdentityService::new("secret".to_string());
    let token = jwt.generate_token(&identity()).ok().unwrap();
    let header = format!("theme=dark; token={}", token);
    let claims = authenticate(&jwt, Some(header.as_str())).ok().unwrap();
    assert_eq!(claims.email, "ana@example.com");
    assert_eq!(claims.name, "Ana \"A\" Silva");
    assert_eq!(claims.picture, "https://img/ana.png");
}

#[test]
fn authenticate_refuses_missing_or_bad_tokens() {
    let jwt = JwtIdentityService::new("secret".to_string());
    for header in [None, Some("theme=dark"), Some("token=not-a-jwt")] {
        match authenticate(&jwt, header) {
            Err(AppError::AuthenticationError(m)) => assert_eq!(m, "Token inválido ou expirado"),
            _ => panic!("expected an authentication error"),
        }
    }
    let other = JwtIdentityService::new("other".to_string());
    let token = other.generate_token(&identity()).ok().unwrap();
    let header = format!("token={}", token);
    assert!(authenticate(&jwt, Some(header.as_str())).is_err());
}

#[test]
fn an_issued_token_survives_the_session_cookie() {
    let jwt = JwtIdentityService::new("secret".to_string());
    let cookies = AxumSessionCookieService::new("example.com".to_string());
    let token = jwt.generate_token(&identity()).ok().unwrap();
    assert!(token
        .chars()
        .all(|c| c.is_ascii_alphanumeric() || c == '-' || c == '_' || c == '.'));
    let set_cookie = cookies.build_auth_cookie(&token);
    let pair = set_cookie.split(';').next().unwrap();
    assert_eq!(extract_token_cookie(pair).as_deref(), Some(token.as_str()));
}

#[test]
fn ports_from_settings() {
    assert_eq!(port_from_setting(None), 5555);
    assert_eq!(port_from_setting(Some("8080")), 8080);
    assert_eq!(port_from_setting(Some("+80")), 80);
    assert_eq!(port_from_setting(Some("0")), 0);
    assert_eq!(port_from_setting(Some("65535")), 65535);
    assert_eq!(port_from_setting(Some("65536")), 5555);
    assert_eq!(port_from_setting(Some("99999999999")), 5555);
    assert_eq!(port_from_setting(Some(" 80")), 5555);
    assert_eq!(port_from_setting(Some("")), 5555);
    assert_eq!(port_from_setting(Some("+")), 5555);
    assert_eq!(port_from_setting(Some("-1")), 5555);
    assert_eq!(port_from_setting(Some("80a")), 5555);
    for text in ["8080", "+80", "65536", " 80", "", "+", "-1", "007"] {
        assert_eq!(port_from_setting(Some(text)), text.parse::<u16>().unwrap_or(5555));
    }
}

#[test]
fn database_tls_settings() {
    assert!(mongo_tls_settings(None, Some("true"), Some("/ca.pem"), None).is_none());
    assert!(mongo_tls_settings(Some("false"), None, None, None).is_none());
    let on = mongo_tls_settings(Some("true"), None, Some(" /ca.pem "), Some("  ")).unwrap();
    assert!(on.allow_invalid_certificates);
    assert_eq!(on.ca_file.as_deref(), Some("/ca.pem"));
    assert_eq!(on.cert_key_file, None);
    let strict = mongo_tls_settings(Some("1"), Some("false"), None, Some("/client.pem")).unwrap();
    assert!(!strict.allow_invalid_certificates);
    assert_eq!(strict.ca_file, None);
    assert_eq!(strict.cert_key_file.as_deref(), Some("/client.pem"));
}

#[test]
fn session_outcomes() {
    let claims = AuthClaims { email: "a@b.c".to_string(), name: "n".to_string(), picture: "p".to_string() };
    assert_eq!(session_outcome(Some(Ok(claims))).ok().unwrap().email, "a@b.c");
    for v in [None, Some(Err(DomainError::Unauthorized("x".to_string())))] {
        match session_outcome(v) {
            Err(AppError::AuthenticationError(m)) => assert_eq!(m, "Token inválido ou expirado"),
            _ => panic!("expected an authentication error"),
        }
    }
}

fn foreign_token(secret: &str, aud: &str, iss: &str) -> String {
    let now = std::time::SystemTime::now()
        .duration_since(std::time::UNIX_EPOCH)
        .unwrap()
        .as_secs();
    let text = format!(
        "{{\"aud\":\"{}\",\"exp\":{},\"iat\":{},\"iss\":\"{}\",\"sub\":\"s\",\"email\":\"a@b.com\",\"name\":\"n\",\"picture\":\"p\"}}",
        aud,
        now + 3600,
        now,
        iss
    );
    let claims: serde_json::Value = serde_json::from_str(&text).unwrap();
    jsonwebtoken::encode(
        &jsonwebtoken::Header::default(),
        &claims,
        &jsonwebtoken::EncodingKey::from_secret(secret.as_bytes()),
    )
    .unwrap()
}

#[test]
fn tokens_for_another_secret_audience_or_issuer_are_refused() {
    let jwt = JwtIdentityService::new("secret".to_string());
    assert!(jwt.validate_token(&foreign_token("secret", "company-compass", "company-compass")).is_ok());
    for token in [
        foreign_token("company-compass", "company-compass", "company-compass"),
        foreign_token("secret", "other", "company-compass"),
        foreign_token("secret", "company-compass", "other"),
    ] {
        match jwt.validate_token(&token) {
            Err(DomainError::Unauthorized(m)) => assert_eq!(m, "Token de autenticação inválido ou expirado"),
            _ => panic!("expected a refused token"),
        }
    }
}

#[test]
fn an_issued_token_comes_back_after_other_cookies_and_from_the_whole_set_cookie() {
    let jwt = JwtIdentityService::new("secret".to_string());
    let cookies = AxumSessionCookieService::new("example.com".to_string());
    let token = jwt.generate_token(&identity()).ok().unwrap();
    let set_cookie = cookies.build_auth_cookie(&token);
    assert_eq!(extract_token_cookie(&set_cookie).as_deref(), Some(token.as_str()));
    let pair = set_cookie.split(';').next().unwrap();
    let header = format!("theme=dark; lang=pt; {}", pair);
    assert_eq!(extract_token_cookie(&header).as_deref(), Some(token.as_str()));
    let odd = "a b~c!";
    assert_eq!(extract_token_cookie(&format!("x=1; token={}", odd)).as_deref(), Some(odd));
}
