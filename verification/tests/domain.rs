use rust_ai_ready_stack::mail::{email_send_error, AuthConfig, SmtpEmailSender, PENDING_EMAIL_TEMPLATE};
use rust_ai_ready_stack::email::{is_valid_email, Email};
use rust_ai_ready_stack::entities::{IngestionResult, ProcessCategory, User};
use rust_ai_ready_stack::errors::DomainError;
use rust_ai_ready_stack::jwt::{claims_from_payload, JwtClaims, JwtIdentityService};
use rust_ai_ready_stack::ports::IdentityService;
use rust_ai_ready_stack::entities::AuthIdentity;
use rust_ai_ready_stack::persistence::{
    created_id, email_filter, ensure_admin, example_not_found, is_duplicate_key_error,
    page_window, saved_user, to_app_error, to_domain_error, UserDocument,
};
use rust_ai_ready_stack::app_error::AppError;
use rust_ai_ready_stack::text::{decimal_text, split_char, trim};

#[test]
fn email_validation() {
    assert!(is_valid_email("admin@localhost"));
    assert!(is_valid_email("a.b@example.com"));
    for bad in ["", "plain", "@x.com", "x@", "a@b@c", "a b@c.d"] {
        assert!(!is_valid_email(bad), "{}", bad);
    }
    assert!(matches!(Email::new("bad".to_string()), Err(DomainError::InvalidEmail(ref m)) if m == "bad"));
    assert_eq!(Email::new("x@y".to_string()).ok().unwrap().as_str(), "x@y");
}

#[test]
fn user_builders() {
    let email = Email::new("u@x.io".to_string()).ok().unwrap();
    let user = User::new(email);
    assert!(user.id().is_none());
    assert!(!user.is_admin());
    assert!(!user.is_manager());
    let user = user.with_id("abc".to_string()).set_admin(true).set_manager(true);
    assert_eq!(user.id(), Some("abc"));
    assert!(user.is_admin());
    assert!(user.is_manager());
    assert_eq!(user.email().as_str(), "u@x.io");
    let user = user.with_department_id("d1".to_string());
    assert_eq!(user.department_id(), "d1");
}

#[test]
fn process_category_labels() {
    for c in [
        ProcessCategory::Commercial,
        ProcessCategory::Support,
        ProcessCategory::Renewal,
        ProcessCategory::Financial,
    ] {
        assert_eq!(ProcessCategory::from_label(c.label()), c);
        assert_eq!(c.label().parse::<ProcessCategory>(), Ok(c));
    }
    assert_eq!(ProcessCategory::from_label("Suporte"), ProcessCategory::Support);
    assert_eq!(ProcessCategory::from_label("suporte"), ProcessCategory::Commercial);
    assert_eq!(ProcessCategory::Renewal.to_string(), "Renovacao");
}

#[test]
fn ingestion_result_message() {
    let r = IngestionResult::new(7);
    assert_eq!(r.total_chunks, 7);
    assert_eq!(r.message, "Documentos indexados com sucesso!");
}

#[test]
fn claims_json_text() {
    let claims = JwtClaims {
        aud: "company-compass".to_string(),
        exp: 1700086400,
        iat: 1700000000,
        iss: "company-compass".to_string(),
        sub: "s\"1\\".to_string(),
        email: "a@b.c".to_string(),
        name: "Zé\n\u{1}".to_string(),
        picture: "".to_string(),
    };
    assert_eq!(
        claims.to_json(),
        "{\"aud\":\"company-compass\",\"exp\":1700086400,\"iat\":1700000000,\"iss\":\"company-compass\",\"sub\":\"s\\\"1\\\\\",\"email\":\"a@b.c\",\"name\":\"Zé\\n\\u0001\",\"picture\":\"\"}"
    );
}

#[test]
fn jwt_claims_to_auth_claims() {
    let claims = JwtClaims {
        aud: "a".to_string(),
        exp: 1,
        iat: 0,
        iss: "i".to_string(),
        sub: "s".to_string(),
        email: "bad".to_string(),
        name: "n".to_string(),
        picture: "p".to_string(),
    };
    assert!(matches!(claims.into_auth_claims(), Err(DomainError::InvalidEmail(_))));
}

#[test]
fn tokens_round_trip() {
    let jwt = JwtIdentityService::new("secret".to_string());
    let identity = AuthIdentity {
        sub: "sub-1".to_string(),
        email: Email::new("c@d.e".to_string()).ok().unwrap(),
        name: "Cê".to_string(),
        picture: "pic".to_string(),
    };
    let token = jwt.generate_token(&identity).ok().unwrap();
    assert_eq!(token.split('.').count(), 3);
    let claims = jwt.validate_token(&token).ok().unwrap();
    assert_eq!(claims.email, "c@d.e");
    assert_eq!(claims.name, "Cê");
    assert_eq!(claims.picture, "pic");
    match jwt.validate_token("garbage") {
        Err(DomainError::Unauthorized(m)) => assert_eq!(m, "Token de autenticação inválido ou expirado"),
        _ => panic!("expected unauthorized"),
    }
}

#[test]
fn claims_read_from_a_payload() {
    let full = "{\"aud\":\"company-compass\",\"exp\":1700086400,\"iat\":1700000000,\"iss\":\"company-compass\",\"sub\":\"s\",\"email\":\"a@b.com\",\"name\":\"N\\u00e9\",\"picture\":\"p\"}";
    let claims = claims_from_payload(full).ok().unwrap();
    assert_eq!(claims.email, "a@b.com");
    assert_eq!(claims.name, "N\u{e9}");
    assert_eq!(claims.picture, "p");
    let missing_iat = "{\"aud\":\"a\",\"exp\":1,\"iss\":\"i\",\"sub\":\"s\",\"email\":\"a@b.com\",\"name\":\"n\",\"picture\":\"p\"}";
    match claims_from_payload(missing_iat) {
        Err(DomainError::Unauthorized(m)) => assert_eq!(m, "Token de autenticação inválido ou expirado"),
        _ => panic!("expected unauthorized"),
    }
    let text_exp = "{\"aud\":\"a\",\"exp\":\"1\",\"iat\":0,\"iss\":\"i\",\"sub\":\"s\",\"email\":\"a@b.com\",\"name\":\"n\",\"picture\":\"p\"}";
    assert!(matches!(claims_from_payload(text_exp), Err(DomainError::Unauthorized(_))));
    let bad_email = "{\"aud\":\"a\",\"exp\":1,\"iat\":0,\"iss\":\"i\",\"sub\":\"s\",\"email\":\"nope\",\"name\":\"n\",\"picture\":\"p\"}";
    match claims_from_payload(bad_email) {
        Err(DomainError::InvalidEmail(m)) => assert_eq!(m, "nope"),
        _ => panic!("expected invalid email"),
    }
}

#[test]
fn text_helpers() {
    assert_eq!(decimal_text(0), "0");
    assert_eq!(decimal_text(1234567890), "1234567890");
    assert_eq!(decimal_text(u64::MAX), u64::MAX.to_string());
    assert_eq!(split_char("a;;b", ';'), vec!["a".to_string(), "".to_string(), "b".to_string()]);
    assert_eq!(trim("\u{3000} x y \u{85}"), "x y");
}

#[test]
fn text_helpers_agree_with_std() {
    for code in 0u32..0x3100 {
        if let Some(c) = char::from_u32(code) {
            let s = format!("{}a{}", c, c);
            assert_eq!(trim(&s), s.trim(), "trim of U+{:04X}", code);
        }
    }
    for s in ["", ";", "a;b", ";a;", "x;;y;"] {
        let expected: Vec<String> = s.split(';').map(|p| p.to_string()).collect();
        assert_eq!(split_char(s, ';'), expected);
    }
    for n in [0u64, 9, 10, 99, 100, 4294967296, u64::MAX - 1] {
        assert_eq!(decimal_text(n), n.to_string());
    }
}

#[test]
fn stored_users() {
    let doc = UserDocument {
        id: Some("65f0".to_string()),
        email: "m@x.y".to_string(),
        is_manager: true,
        is_admin: false,
    };
    let user = doc.into_domain().ok().unwrap();
    assert_eq!(user.id(), Some("65f0"));
    assert!(user.is_manager());
    assert!(matches!(ensure_admin(Some(user)), Err(DomainError::Forbidden(ref m)) if m == "Acesso restrito a administradores"));
    assert!(matches!(ensure_admin(None), Err(DomainError::Unauthorized(_))));
    assert!(matches!(saved_user(None), Err(DomainError::BusinessRuleViolation(_))));
}

#[test]
fn database_errors() {
    assert!(is_duplicate_key_error(Some(11000)));
    assert!(!is_duplicate_key_error(Some(1)));
    assert!(!is_duplicate_key_error(None));
    assert!(matches!(to_domain_error(true), DomainError::Conflict(ref m) if m == "Registro duplicado"));
    assert!(matches!(to_domain_error(false), DomainError::BusinessRuleViolation(_)));
    assert!(matches!(to_app_error(true), AppError::Conflict(_)));
    assert!(matches!(to_app_error(false), AppError::InternalError(_)));
    assert!(matches!(example_not_found("k"), DomainError::NotFound(ref m) if m == "Registro de exemplo não encontrado para key: k"));
    assert!(matches!(created_id(None), Err(DomainError::InvalidData(_))));
}

#[test]
fn listing_windows_and_filters() {
    assert_eq!(page_window(0, 0), (0, 1));
    assert_eq!(page_window(3, 500), (200, 100));
    assert_eq!(page_window(2, 10), (10, 10));
    assert_eq!(email_filter(Some("  a@b ")).as_deref(), Some("a@b"));
    assert_eq!(email_filter(Some("   ")), None);
    assert_eq!(email_filter(None), None);
}

#[test]
fn smtp_sender_keeps_its_account() {
    let sender = SmtpEmailSender::new(AuthConfig {
        email_address: "bot@example.com".to_string(),
        password: "pw".to_string(),
    });
    assert_eq!(sender.auth().email_address, "bot@example.com");
    assert_eq!(sender.auth().password, "pw");
    match email_send_error() {
        DomainError::BusinessRuleViolation(m) => assert_eq!(m, "Falha no envio de e-mail de pendência"),
        _ => panic!("expected a business rule violation"),
    }
    for placeholder in ["__CASE_ID__", "__AUTHOR__", "__MESSAGE__", "__CASE_URL__"] {
        assert!(PENDING_EMAIL_TEMPLATE.contains(placeholder));
    }
}

#[test]
fn claims_text_reads_back_field_by_field() {
    let names = ["plain", "quo\"te\\back", "ctl\u{1}\u{1f}\n\t\r\u{8}\u{c}", "uni é \u{2028} \u{7f} 😀", ""];
    for name in names {
        let claims = JwtClaims {
            aud: "company-compass".to_string(),
            exp: u64::MAX,
            iat: 0,
            iss: name.to_string(),
            sub: name.to_string(),
            email: "a@b.c".to_string(),
            name: name.to_string(),
            picture: name.to_string(),
        };
        let text = claims.to_json();
        let value: serde_json::Value = serde_json::from_str(&text).unwrap();
        assert_eq!(value.as_object().unwrap().len(), 8);
        assert_eq!(value["name"].as_str(), Some(name));
        assert_eq!(value["picture"].as_str(), Some(name));
        assert_eq!(value["exp"].as_u64(), Some(u64::MAX));
        assert_eq!(value["iat"].as_u64(), Some(0));
        let read = claims_from_payload(&text).ok().unwrap();
        assert_eq!(read.name, name);
        assert_eq!(read.email, "a@b.c");
    }
    let jwt = JwtIdentityService::new("k".to_string());
    let identity = AuthIdentity {
        sub: "s".to_string(),
        email: Email::new("x@y.z".to_string()).ok().unwrap(),
        name: names[2].to_string(),
        picture: names[3].to_string(),
    };
    let token = jwt.generate_token(&identity).ok().unwrap();
    let back = jwt.validate_token(&token).ok().unwrap();
    assert_eq!(back.name, names[2]);
    assert_eq!(back.picture, names[3]);
}
