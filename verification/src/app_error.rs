use vstd::prelude::*;

use crate::clock::now_rfc3339;
use crate::errors::DomainError;
use crate::text::concat2;

verus! {

/// Application errors: what an HTTP answer reports. Each carries a detail.
#[derive(Debug)]
pub enum AppError {
    OpenAiError(String),
    VectorDbError(String),
    NotFound(String),
    ValidationError(String),
    AuthenticationError(String),
    AuthorizationError(String),
    InternalError(String),
    JsonError(String),
    HttpError(String),
    BadRequest(String),
    Conflict(String),
}

/// The HTTP status of a domain error once it is turned into an application error.
pub open spec fn domain_status(e: DomainError) -> u16 {
    match e {
        DomainError::NotFound(_) => 404,
        DomainError::Conflict(_) => 409,
        DomainError::Unauthorized(_) => 401,
        DomainError::Forbidden(_) => 403,
        _ => 400,
    }
}

/// The application error that a domain error becomes.
pub open spec fn app_error_of(e: DomainError) -> (AppErrorKind, Seq<char>) {
    match e {
        DomainError::InvalidEmail(m) => (AppErrorKind::ValidationError, "Email inválido: "@ + m@),
        DomainError::InvalidDomain(m) => (
            AppErrorKind::ValidationError,
            "Domínio inválido: "@ + m@,
        ),
        DomainError::InvalidId(m) => (AppErrorKind::ValidationError, "ID inválido: "@ + m@),
        DomainError::NotFound(m) => (AppErrorKind::NotFound, m@),
        DomainError::Conflict(m) => (AppErrorKind::Conflict, m@),
        DomainError::Unauthorized(m) => (AppErrorKind::AuthenticationError, m@),
        DomainError::Forbidden(m) => (AppErrorKind::AuthorizationError, m@),
        DomainError::ValidationError(m) => (AppErrorKind::ValidationError, m@),
        DomainError::BusinessRuleViolation(m) => (
            AppErrorKind::BadRequest,
            "Violação de regra de negócio: "@ + m@,
        ),
        DomainError::InvalidData(m) => (AppErrorKind::BadRequest, "Dados inválidos: "@ + m@),
        DomainError::VectorDbError(m) => (AppErrorKind::VectorDbError, m@),
    }
}

/// The variant of an application error, without its detail.
#[derive(Debug, Clone, Copy, PartialEq, Eq, Structural)]
pub enum AppErrorKind {
    OpenAiError,
    VectorDbError,
    NotFound,
    ValidationError,
    AuthenticationError,
    AuthorizationError,
    InternalError,
    JsonError,
    HttpError,
    BadRequest,
    Conflict,
}

impl AppErrorKind {
    /// The HTTP status of errors of this kind.
    pub open spec fn status(self) -> u16 {
        match self {
            AppErrorKind::NotFound => 404,
            AppErrorKind::AuthenticationError => 401,
            AppErrorKind::AuthorizationError => 403,
            AppErrorKind::Conflict => 409,
            _ => 400,
        }
    }

    /// The fixed start of the message of errors of this kind.
    pub open spec fn prefix(self) -> Seq<char> {
        match self {
            AppErrorKind::OpenAiError => "Erro ao processar OpenAI: "@,
            AppErrorKind::VectorDbError => "Erro no banco de dados vetorial: "@,
            AppErrorKind::NotFound => "Recurso não encontrado: "@,
            AppErrorKind::ValidationError => "Erro de validação: "@,
            AppErrorKind::AuthenticationError => "Erro de autenticação: "@,
            AppErrorKind::AuthorizationError => "Erro de autorização: "@,
            AppErrorKind::InternalError => "Erro interno do servidor: "@,
            AppErrorKind::JsonError => "Erro ao processar JSON: "@,
            AppErrorKind::HttpError => "Erro ao fazer requisição HTTP: "@,
            AppErrorKind::BadRequest => "Erro de requisição inválida: "@,
            AppErrorKind::Conflict => "Erro de conflito: "@,
        }
    }
}

impl View for AppError {
    /// The variant and the detail.
    type V = (AppErrorKind, Seq<char>);

    open spec fn view(&self) -> (AppErrorKind, Seq<char>) {
        (self.kind(), self.detail())
    }
}

impl AppError {
    /// The variant of the error.
    pub open spec fn kind(self) -> AppErrorKind {
        match self {
            AppError::OpenAiError(_) => AppErrorKind::OpenAiError,
            AppError::VectorDbError(_) => AppErrorKind::VectorDbError,
            AppError::NotFound(_) => AppErrorKind::NotFound,
            AppError::ValidationError(_) => AppErrorKind::ValidationError,
            AppError::AuthenticationError(_) => AppErrorKind::AuthenticationError,
            AppError::AuthorizationError(_) => AppErrorKind::AuthorizationError,
            AppError::InternalError(_) => AppErrorKind::InternalError,
            AppError::JsonError(_) => AppErrorKind::JsonError,
            AppError::HttpError(_) => AppErrorKind::HttpError,
            AppError::BadRequest(_) => AppErrorKind::BadRequest,
            AppError::Conflict(_) => AppErrorKind::Conflict,
        }
    }

    /// The detail carried by the error.
    pub open spec fn detail(self) -> Seq<char> {
        match self {
            AppError::OpenAiError(m) => m@,
            AppError::VectorDbError(m) => m@,
            AppError::NotFound(m) => m@,
            AppError::ValidationError(m) => m@,
            AppError::AuthenticationError(m) => m@,
            AppError::AuthorizationError(m) => m@,
            AppError::InternalError(m) => m@,
            AppError::JsonError(m) => m@,
            AppError::HttpError(m) => m@,
            AppError::BadRequest(m) => m@,
            AppError::Conflict(m) => m@,
        }
    }

    /// The message of the error.
    pub open spec fn text(self) -> Seq<char> {
        self.kind().prefix() + self.detail()
    }

    /// The HTTP status code for this error.
    pub fn status_code(&self) -> (r: u16)
        ensures
            r == self.kind().status(),
    {
        match self {
            AppError::NotFound(_) => 404,
            AppError::AuthenticationError(_) => 401,
            AppError::AuthorizationError(_) => 403,
            AppError::Conflict(_) => 409,
            AppError::ValidationError(_)
            | AppError::OpenAiError(_)
            | AppError::VectorDbError(_)
            | AppError::HttpError(_)
            | AppError::JsonError(_)
            | AppError::InternalError(_)
            | AppError::BadRequest(_) => 400,
        }
    }

    /// The message of the error.
    pub fn to_string(&self) -> (r: String)
        ensures
            r@ == self.text(),
    {
        match self {
            AppError::OpenAiError(m) => concat2("Erro ao processar OpenAI: ", m.as_str()),
            AppError::VectorDbError(m) => concat2("Erro no banco de dados vetorial: ", m.as_str()),
            AppError::NotFound(m) => concat2("Recurso não encontrado: ", m.as_str()),
            AppError::ValidationError(m) => concat2("Erro de validação: ", m.as_str()),
            AppError::AuthenticationError(m) => concat2("Erro de autenticação: ", m.as_str()),
            AppError::AuthorizationError(m) => concat2("Erro de autorização: ", m.as_str()),
            AppError::InternalError(m) => concat2("Erro interno do servidor: ", m.as_str()),
            AppError::JsonError(m) => concat2("Erro ao processar JSON: ", m.as_str()),
            AppError::HttpError(m) => concat2("Erro ao fazer requisição HTTP: ", m.as_str()),
            AppError::BadRequest(m) => concat2("Erro de requisição inválida: ", m.as_str()),
            AppError::Conflict(m) => concat2("Erro de conflito: ", m.as_str()),
        }
    }

    /// The application error for a domain error: the variant that carries its meaning
    /// over to HTTP, and the detail, with a prefix for the kinds that lose theirs.
    pub fn from_domain(error: DomainError) -> (r: AppError)
        ensures
            r@ == app_error_of(error),
    {
        match error {
            DomainError::InvalidEmail(msg) => AppError::ValidationError(
                concat2("Email inválido: ", msg.as_str()),
            ),
            DomainError::InvalidDomain(msg) => AppError::ValidationError(
                concat2("Domínio inválido: ", msg.as_str()),
            ),
            DomainError::InvalidId(msg) => AppError::ValidationError(
                concat2("ID inválido: ", msg.as_str()),
            ),
            DomainError::NotFound(msg) => AppError::NotFound(msg),
            DomainError::Conflict(msg) => AppError::Conflict(msg),
            DomainError::Unauthorized(msg) => AppError::AuthenticationError(msg),
            DomainError::Forbidden(msg) => AppError::AuthorizationError(msg),
            DomainError::ValidationError(msg) => AppError::ValidationError(msg),
            DomainError::BusinessRuleViolation(msg) => AppError::BadRequest(
                concat2("Violação de regra de negócio: ", msg.as_str()),
            ),
            DomainError::InvalidData(msg) => AppError::BadRequest(
                concat2("Dados inválidos: ", msg.as_str()),
            ),
            DomainError::VectorDbError(msg) => AppError::VectorDbError(msg),
        }
    }

    /// The body of the HTTP answer for this error: its message, its status and the
    /// moment at which the answer was built.
    pub fn error_response(&self) -> (r: ErrorResponse)
        ensures
            r.error@ == self.text(),
            r.status == self.kind().status(),
    {
        ErrorResponse { error: self.to_string(), status: self.status_code(), timestamp: now_rfc3339() }
    }
}

impl From<DomainError> for AppError {
    /// See [`AppError::from_domain`], which states what the conversion gives.
    fn from(error: DomainError) -> (r: AppError)
        ensures
            r@ == app_error_of(error),
    {
        AppError::from_domain(error)
    }
}

impl vstd::std_specs::convert::FromSpecImpl<DomainError> for AppError {
    open spec fn obeys_from_spec() -> bool {
        false
    }

    open spec fn from_spec(v: DomainError) -> AppError {
        vstd::pervasive::arbitrary()
    }
}

/// The JSON body of an error answer: `error`, `status` and `timestamp` (RFC 3339).
pub struct ErrorResponse {
    pub error: String,
    pub status: u16,
    pub timestamp: String,
}

/// Every domain error, once an application error, answers with the status that
/// `domain_status` gives it: not-found 404, conflict 409, unauthorized 401,
/// forbidden 403, and 400 for every other kind.
pub proof fn law_domain_error_status(e: DomainError)
    ensures
        app_error_of(e).0.status() == domain_status(e),
{
}

/// Every application error answers with a client-error status (400 to 499).
pub proof fn law_error_status_is_client_error(e: AppError)
    ensures
        400 <= e.kind().status() <= 499,
{
}

} // verus!
