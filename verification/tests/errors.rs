use axum::http::StatusCode;
use rust_ai_ready_stack::app_error::AppError;
use rust_ai_ready_stack::errors::DomainError;
use rust_ai_ready_stack::http::log_level;

fn s(v: &str) -> String {
    v.to_string()
}

#[test]
fn test_error_status_codes() {
    assert_eq!(
        AppError::NotFound("test".into()).status_code(),
        StatusCode::NOT_FOUND.as_u16()
    );
    assert_eq!(
        AppError::ValidationError("test".into()).status_code(),
        StatusCode::BAD_REQUEST.as_u16()
    );
    assert_eq!(
        AppError::AuthenticationError("test".into()).status_code(),
        StatusCode::UNAUTHORIZED.as_u16()
    );
    assert_eq!(
        AppError::AuthorizationError("test".into()).status_code(),
        StatusCode::FORBIDDEN.as_u16()
    );
}

#[test]
fn remaining_error_status_codes() {
    assert_eq!(AppError::Conflict(s("x")).status_code(), 409);
    for e in [
        AppError::OpenAiError(s("x")),
        AppError::VectorDbError(s("x")),
        AppError::InternalError(s("x")),
        AppError::JsonError(s("x")),
        AppError::HttpError(s("x")),
        AppError::BadRequest(s("x")),
    ] {
        assert_eq!(e.status_code(), 400);
    }
}

#[test]
fn app_error_messages() {
    assert_eq!(AppError::OpenAiError(s("a")).to_string(), "Erro ao processar OpenAI: a");
    assert_eq!(AppError::VectorDbError(s("a")).to_string(), "Erro no banco de dados vetorial: a");
    assert_eq!(AppError::NotFound(s("a")).to_string(), "Recurso não encontrado: a");
    assert_eq!(AppError::ValidationError(s("a")).to_string(), "Erro de validação: a");
    assert_eq!(AppError::AuthenticationError(s("a")).to_string(), "Erro de autenticação: a");
    assert_eq!(AppError::AuthorizationError(s("a")).to_string(), "Erro de autorização: a");
    assert_eq!(AppError::InternalError(s("a")).to_string(), "Erro interno do servidor: a");
    assert_eq!(AppError::JsonError(s("a")).to_string(), "Erro ao processar JSON: a");
    assert_eq!(AppError::HttpError(s("a")).to_string(), "Erro ao fazer requisição HTTP: a");
    assert_eq!(AppError::BadRequest(s("a")).to_string(), "Erro de requisição inválida: a");
    assert_eq!(AppError::Conflict(s("a")).to_string(), "Erro de conflito: a");
}

#[test]
fn domain_error_messages() {
    assert_eq!(DomainError::InvalidEmail(s("a")).to_string(), "Email inválido: a");
    assert_eq!(DomainError::InvalidDomain(s("a")).to_string(), "Domínio inválido: a");
    assert_eq!(DomainError::InvalidId(s("a")).to_string(), "ID inválido: a");
    assert_eq!(DomainError::NotFound(s("a")).to_string(), "Recurso não encontrado: a");
    assert_eq!(DomainError::Conflict(s("a")).to_string(), "Conflito: a");
    assert_eq!(DomainError::Unauthorized(s("a")).to_string(), "Não autorizado: a");
    assert_eq!(DomainError::Forbidden(s("a")).to_string(), "Permissão negada: a");
    assert_eq!(DomainError::ValidationError(s("a")).to_string(), "Validação falhou: a");
    assert_eq!(DomainError::BusinessRuleViolation(s("a")).to_string(), "Erro de negócio: a");
    assert_eq!(DomainError::InvalidData(s("a")).to_string(), "Dados inválidos: a");
    assert_eq!(
        DomainError::VectorDbError(s("a")).to_string(),
        "Erro no banco de dados vetorial: a"
    );
}

#[test]
fn domain_errors_become_app_errors() {
    let cases = vec![
        (DomainError::InvalidEmail(s("m")), "Erro de validação: Email inválido: m", 400),
        (DomainError::InvalidDomain(s("m")), "Erro de validação: Domínio inválido: m", 400),
        (DomainError::InvalidId(s("m")), "Erro de validação: ID inválido: m", 400),
        (DomainError::NotFound(s("m")), "Recurso não encontrado: m", 404),
        (DomainError::Conflict(s("m")), "Erro de conflito: m", 409),
        (DomainError::Unauthorized(s("m")), "Erro de autenticação: m", 401),
        (DomainError::Forbidden(s("m")), "Erro de autorização: m", 403),
        (DomainError::ValidationError(s("m")), "Erro de validação: m", 400),
        (
            DomainError::BusinessRuleViolation(s("m")),
            "Erro de requisição inválida: Violação de regra de negócio: m",
            400,
        ),
        (DomainError::InvalidData(s("m")), "Erro de requisição inválida: Dados inválidos: m", 400),
        (DomainError::VectorDbError(s("m")), "Erro no banco de dados vetorial: m", 400),
    ];
    for (domain, text, status) in cases {
        let app = AppError::from_domain(domain);
        assert_eq!(app.to_string(), text);
        assert_eq!(app.status_code(), status);
    }
}

#[test]
fn from_conversion_matches_from_domain() {
    let app: AppError = DomainError::Forbidden(s("no")).into();
    assert!(matches!(app, AppError::AuthorizationError(ref m) if m == "no"));
}

#[test]
fn middleware_does_not_change_app_error_shape() {
    let body = AppError::ValidationError("payload inválido".to_string()).error_response();
    assert_eq!(body.status, 400);
    assert!(body.error.contains("Erro de validação: payload inválido"));
    assert!(!body.timestamp.is_empty());
}

#[test]
fn middleware_preserves_auth_error_json_contract() {
    let body = AppError::AuthenticationError("token ausente".to_string()).error_response();
    assert_eq!(body.status, 401);
    assert!(body.error.contains("Erro de autenticação: token ausente"));
    assert!(!body.timestamp.is_empty());
}

#[test]
fn error_answers_are_logged_as_warnings() {
    for e in [
        AppError::NotFound(s("x")),
        AppError::Conflict(s("x")),
        AppError::AuthenticationError(s("x")),
        AppError::AuthorizationError(s("x")),
        AppError::BadRequest(s("x")),
    ] {
        assert_eq!(log_level(e.status_code()), "WARN");
    }
}
