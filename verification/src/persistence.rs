use vstd::prelude::*;

use crate::app_error::{AppError, AppErrorKind};
use crate::email::{valid_email, Email};
use crate::entities::{opt_str_view, opt_view, User, UserView};
use crate::errors::{DomainError, DomainErrorKind};
use crate::text::{chars_of, concat2, owned, trim, trim_spec};

verus! {

/// A stored user record; `id` is the hexadecimal text of its object identifier.
pub struct UserDocument {
    pub id: Option<String>,
    pub email: String,
    pub is_manager: bool,
    pub is_admin: bool,
}

impl UserDocument {
    /// The user that the record describes, once its address is validated.
    pub fn into_domain(self) -> (r: Result<User, DomainError>)
        ensures
            match r {
                Ok(u) => valid_email(self.email@) && u@ == (UserView {
                    id: opt_view(self.id),
                    email: self.email@,
                    is_admin: self.is_admin,
                    is_manager: self.is_manager,
                    department_id: Seq::empty(),
                }),
                Err(e) => !valid_email(self.email@) && e == DomainError::InvalidEmail(self.email),
            },
    {
        let UserDocument { id, email, is_manager, is_admin } = self;
        let email = Email::new(email)?;
        let mut user = User::new(email).set_admin(is_admin).set_manager(is_manager);
        match id {
            Some(id) => {
                user = user.with_id(id);
            },
            None => {},
        }
        Ok(user)
    }
}

/// The code that the database gives to a write refused for a duplicate key.
pub open spec fn duplicate_key_code() -> i32 {
    11000
}

/// Whether a failed write, whose error code is `write_error_code` (when it has
/// one), was refused for a duplicate key.
pub fn is_duplicate_key_error(write_error_code: Option<i32>) -> (r: bool)
    ensures
        r == (write_error_code == Some(duplicate_key_code())),
{
    match write_error_code {
        Some(code) => code == 11000,
        None => false,
    }
}

/// The domain error for a failed database access: a conflict for a duplicate key,
/// a business-rule violation otherwise.
pub fn to_domain_error(duplicate_key: bool) -> (r: DomainError)
    ensures
        r@ == if duplicate_key {
            (DomainErrorKind::Conflict, "Registro duplicado"@)
        } else {
            (DomainErrorKind::BusinessRuleViolation, "Falha ao acessar persistência de dados"@)
        },
{
    if duplicate_key {
        DomainError::Conflict(owned("Registro duplicado"))
    } else {
        DomainError::BusinessRuleViolation(owned("Falha ao acessar persistência de dados"))
    }
}

/// The application error for a failed database access: a conflict for a
/// duplicate key, an internal error otherwise.
pub fn to_app_error(duplicate_key: bool) -> (r: AppError)
    ensures
        r@ == if duplicate_key {
            (AppErrorKind::Conflict, "Registro duplicado"@)
        } else {
            (AppErrorKind::InternalError, "Falha ao acessar persistência de dados"@)
        },
{
    if duplicate_key {
        AppError::Conflict(owned("Registro duplicado"))
    } else {
        AppError::InternalError(owned("Falha ao acessar persistência de dados"))
    }
}

/// The error for a user identifier that is not a valid object identifier.
pub fn invalid_id_error(id: &str) -> (r: DomainError)
    ensures
        r@ == (DomainErrorKind::InvalidId, id@),
{
    DomainError::InvalidId(owned(id))
}

/// The address filter of a user listing: the given text, trimmed, unless that
/// leaves nothing.
pub fn email_filter(email: Option<&str>) -> (r: Option<String>)
    ensures
        opt_view(r) == match email {
            Some(e) => if trim_spec(e@).len() > 0 {
                Some(trim_spec(e@))
            } else {
                None
            },
            None => None,
        },
{
    match email {
        Some(e) => {
            let t = trim(e);
            if chars_of(t.as_str()).len() > 0 {
                Some(t)
            } else {
                None
            }
        },
        None => None,
    }
}

/// The user found by address, who must be an administrator.
pub fn ensure_admin(found: Option<User>) -> (r: Result<User, DomainError>)
    ensures
        match found {
            None => r matches Err(e) && e@ == (
                DomainErrorKind::Unauthorized,
                "Usuário não encontrado"@,
            ),
            Some(u) => if u@.is_admin {
                r matches Ok(v) && v@ == u@
            } else {
                r matches Err(e) && e@ == (
                    DomainErrorKind::Forbidden,
                    "Acesso restrito a administradores"@,
                )
            },
        },
{
    let user = match found {
        Some(u) => u,
        None => return Err(DomainError::Unauthorized(owned("Usuário não encontrado"))),
    };
    if !user.is_admin() {
        return Err(DomainError::Forbidden(owned("Acesso restrito a administradores")));
    }
    Ok(user)
}

/// The user read back after saving it: it must be found.
pub fn saved_user(found: Option<User>) -> (r: Result<User, DomainError>)
    ensures
        match found {
            None => r matches Err(e) && e@ == (
                DomainErrorKind::BusinessRuleViolation,
                "Erro ao salvar usuário"@,
            ),
            Some(u) => r matches Ok(v) && v@ == u@,
        },
{
    match found {
        Some(u) => Ok(u),
        None => Err(DomainError::BusinessRuleViolation(owned("Erro ao salvar usuário"))),
    }
}

/// The records to skip and the number to return for page `page` of `page_size`
/// records: pages count from 1, and a page holds from 1 to 100 records.
pub fn page_window(page: u64, page_size: u64) -> (r: (u64, u64))
    requires
        ((if page < 1 { 1 } else { page }) - 1) * (if page_size < 1 {
            1
        } else if page_size > 100 {
            100
        } else {
            page_size
        }) <= u64::MAX,
    ensures
        ({
            let p = if page < 1 { 1 } else { page };
            let s = if page_size < 1 {
                1
            } else if page_size > 100 {
                100
            } else {
                page_size
            };
            r.0 == (p - 1) * s && r.1 == s
        }),
{
    let page = if page < 1 {
        1
    } else {
        page
    };
    let page_size = if page_size < 1 {
        1
    } else if page_size > 100 {
        100
    } else {
        page_size
    };
    ((page - 1) * page_size, page_size)
}

/// The identifier of a created record, as text; refused when the database gave
/// none.
pub fn created_id(inserted_id: Option<String>) -> (r: Result<String, DomainError>)
    ensures
        match inserted_id {
            Some(id) => r matches Ok(v) && v == id,
            None => r matches Err(e) && e@ == (
                DomainErrorKind::InvalidData,
                "Falha ao obter id do registro criado"@,
            ),
        },
{
    match inserted_id {
        Some(id) => Ok(id),
        None => Err(DomainError::InvalidData(owned("Falha ao obter id do registro criado"))),
    }
}

/// The error for an update that matched no example record with key `key`.
pub fn example_not_found(key: &str) -> (r: DomainError)
    ensures
        r@ == (DomainErrorKind::NotFound, "Registro de exemplo não encontrado para key: "@ + key@),
{
    DomainError::NotFound(concat2("Registro de exemplo não encontrado para key: ", key))
}

/// Whether an update matched no record.
pub fn nothing_matched(matched_count: u64) -> (r: bool)
    ensures
        r == (matched_count == 0),
{
    matched_count == 0
}

} // verus!
