use vstd::prelude::*;

use crate::text::concat2;

verus! {

/// Domain errors: each carries a human-readable detail.
#[derive(Debug)]
pub enum DomainError {
    InvalidEmail(String),
    InvalidDomain(String),
    InvalidId(String),
    NotFound(String),
    Conflict(String),
    Unauthorized(String),
    Forbidden(String),
    ValidationError(String),
    BusinessRuleViolation(String),
    InvalidData(String),
    VectorDbError(String),
}

/// The variant of a domain error, without its detail.
#[derive(Debug, Clone, Copy, PartialEq, Eq, Structural)]
pub enum DomainErrorKind {
    InvalidEmail,
    InvalidDomain,
    InvalidId,
    NotFound,
    Conflict,
    Unauthorized,
    Forbidden,
    ValidationError,
    BusinessRuleViolation,
    InvalidData,
    VectorDbError,
}

impl View for DomainError {
    /// The variant and the detail.
    type V = (DomainErrorKind, Seq<char>);

    open spec fn view(&self) -> (DomainErrorKind, Seq<char>) {
        (self.kind(), self.detail())
    }
}

impl DomainError {
    /// The variant of the error.
    pub open spec fn kind(self) -> DomainErrorKind {
        match self {
            DomainError::InvalidEmail(_) => DomainErrorKind::InvalidEmail,
            DomainError::InvalidDomain(_) => DomainErrorKind::InvalidDomain,
            DomainError::InvalidId(_) => DomainErrorKind::InvalidId,
            DomainError::NotFound(_) => DomainErrorKind::NotFound,
            DomainError::Conflict(_) => DomainErrorKind::Conflict,
            DomainError::Unauthorized(_) => DomainErrorKind::Unauthorized,
            DomainError::Forbidden(_) => DomainErrorKind::Forbidden,
            DomainError::ValidationError(_) => DomainErrorKind::ValidationError,
            DomainError::BusinessRuleViolation(_) => DomainErrorKind::BusinessRuleViolation,
            DomainError::InvalidData(_) => DomainErrorKind::InvalidData,
            DomainError::VectorDbError(_) => DomainErrorKind::VectorDbError,
        }
    }

    /// The detail carried by the error.
    pub open spec fn detail(self) -> Seq<char> {
        match self {
            DomainError::InvalidEmail(m) => m@,
            DomainError::InvalidDomain(m) => m@,
            DomainError::InvalidId(m) => m@,
            DomainError::NotFound(m) => m@,
            DomainError::Conflict(m) => m@,
            DomainError::Unauthorized(m) => m@,
            DomainError::Forbidden(m) => m@,
            DomainError::ValidationError(m) => m@,
            DomainError::BusinessRuleViolation(m) => m@,
            DomainError::InvalidData(m) => m@,
            DomainError::VectorDbError(m) => m@,
        }
    }

    /// The message of the error: a fixed prefix per variant, then the detail.
    pub open spec fn text(self) -> Seq<char> {
        match self {
            DomainError::InvalidEmail(m) => "Email inválido: "@ + m@,
            DomainError::InvalidDomain(m) => "Domínio inválido: "@ + m@,
            DomainError::InvalidId(m) => "ID inválido: "@ + m@,
            DomainError::NotFound(m) => "Recurso não encontrado: "@ + m@,
            DomainError::Conflict(m) => "Conflito: "@ + m@,
            DomainError::Unauthorized(m) => "Não autorizado: "@ + m@,
            DomainError::Forbidden(m) => "Permissão negada: "@ + m@,
            DomainError::ValidationError(m) => "Validação falhou: "@ + m@,
            DomainError::BusinessRuleViolation(m) => "Erro de negócio: "@ + m@,
            DomainError::InvalidData(m) => "Dados inválidos: "@ + m@,
            DomainError::VectorDbError(m) => "Erro no banco de dados vetorial: "@ + m@,
        }
    }

    /// The message of the error.
    pub fn to_string(&self) -> (r: String)
        ensures
            r@ == self.text(),
    {
        match self {
            DomainError::InvalidEmail(m) => concat2("Email inválido: ", m.as_str()),
            DomainError::InvalidDomain(m) => concat2("Domínio inválido: ", m.as_str()),
            DomainError::InvalidId(m) => concat2("ID inválido: ", m.as_str()),
            DomainError::NotFound(m) => concat2("Recurso não encontrado: ", m.as_str()),
            DomainError::Conflict(m) => concat2("Conflito: ", m.as_str()),
            DomainError::Unauthorized(m) => concat2("Não autorizado: ", m.as_str()),
            DomainError::Forbidden(m) => concat2("Permissão negada: ", m.as_str()),
            DomainError::ValidationError(m) => concat2("Validação falhou: ", m.as_str()),
            DomainError::BusinessRuleViolation(m) => concat2("Erro de negócio: ", m.as_str()),
            DomainError::InvalidData(m) => concat2("Dados inválidos: ", m.as_str()),
            DomainError::VectorDbError(m) => concat2(
                "Erro no banco de dados vetorial: ",
                m.as_str(),
            ),
        }
    }

    /// A copy of the error, with the same variant and detail.
    pub fn duplicate(&self) -> (r: DomainError)
        ensures
            r == *self,
    {
        match self {
            DomainError::InvalidEmail(m) => DomainError::InvalidEmail(m.clone()),
            DomainError::InvalidDomain(m) => DomainError::InvalidDomain(m.clone()),
            DomainError::InvalidId(m) => DomainError::InvalidId(m.clone()),
            DomainError::NotFound(m) => DomainError::NotFound(m.clone()),
            DomainError::Conflict(m) => DomainError::Conflict(m.clone()),
            DomainError::Unauthorized(m) => DomainError::Unauthorized(m.clone()),
            DomainError::Forbidden(m) => DomainError::Forbidden(m.clone()),
            DomainError::ValidationError(m) => DomainError::ValidationError(m.clone()),
            DomainError::BusinessRuleViolation(m) => DomainError::BusinessRuleViolation(m.clone()),
            DomainError::InvalidData(m) => DomainError::InvalidData(m.clone()),
            DomainError::VectorDbError(m) => DomainError::VectorDbError(m.clone()),
        }
    }
}

} // verus!
