use vstd::prelude::*;

use crate::email::Email;
use crate::text::{owned, str_eq};

verus! {

// ---------------------------------------------------------------------------
// User
// ---------------------------------------------------------------------------

/// A user of the system.
pub struct User {
    id: Option<String>,
    email: Email,
    is_admin: bool,
    is_manager: bool,
    department_id: String,
}

/// The abstract content of a [`User`].
pub struct UserView {
    pub id: Option<Seq<char>>,
    pub email: Seq<char>,
    pub is_admin: bool,
    pub is_manager: bool,
    pub department_id: Seq<char>,
}

/// The view of an optional string.
pub open spec fn opt_view(o: Option<String>) -> Option<Seq<char>> {
    match o {
        Some(s) => Some(s@),
        None => None,
    }
}

/// The view of an optional string slice.
pub open spec fn opt_str_view(o: Option<&str>) -> Option<Seq<char>> {
    match o {
        Some(s) => Some(s@),
        None => None,
    }
}

impl View for User {
    type V = UserView;

    closed spec fn view(&self) -> UserView {
        UserView {
            id: opt_view(self.id),
            email: self.email@,
            is_admin: self.is_admin,
            is_manager: self.is_manager,
            department_id: self.department_id@,
        }
    }
}

impl User {
    /// A new user with the given address: no identifier yet, not an administrator,
    /// not a manager, and no department.
    pub fn new(email: Email) -> (r: User)
        ensures
            r@ == (UserView {
                id: None,
                email: email@,
                is_admin: false,
                is_manager: false,
                department_id: Seq::empty(),
            }),
    {
        User { id: None, email, is_admin: false, is_manager: false, department_id: String::new() }
    }

    /// The same user with the given identifier.
    pub fn with_id(self, id: String) -> (r: User)
        ensures
            r@ == (UserView { id: Some(id@), ..self@ }),
    {
        let mut u = self;
        u.id = Some(id);
        u
    }

    /// The same user with the given administrator flag.
    pub fn set_admin(self, is_admin: bool) -> (r: User)
        ensures
            r@ == (UserView { is_admin, ..self@ }),
    {
        let mut u = self;
        u.is_admin = is_admin;
        u
    }

    /// The same user with the given manager flag.
    pub fn set_manager(self, is_manager: bool) -> (r: User)
        ensures
            r@ == (UserView { is_manager, ..self@ }),
    {
        let mut u = self;
        u.is_manager = is_manager;
        u
    }

    /// The same user in the given department.
    pub fn with_department_id(self, department_id: String) -> (r: User)
        ensures
            r@ == (UserView { department_id: department_id@, ..self@ }),
    {
        let mut u = self;
        u.department_id = department_id;
        u
    }

    /// The identifier, once the user is stored.
    pub fn id(&self) -> (r: Option<&str>)
        ensures
            opt_str_view(r) == self@.id,
    {
        match &self.id {
            Some(s) => Some(s.as_str()),
            None => None,
        }
    }

    /// The address of the user.
    pub fn email(&self) -> (r: &Email)
        ensures
            r@ == self@.email,
    {
        &self.email
    }

    /// Whether the user is an administrator.
    pub fn is_admin(&self) -> (r: bool)
        ensures
            r == self@.is_admin,
    {
        self.is_admin
    }

    /// Whether the user is a manager.
    pub fn is_manager(&self) -> (r: bool)
        ensures
            r == self@.is_manager,
    {
        self.is_manager
    }

    /// The department of the user (empty when none is known).
    pub fn department_id(&self) -> (r: &str)
        ensures
            r@ == self@.department_id,
    {
        self.department_id.as_str()
    }
}

// ---------------------------------------------------------------------------
// Identities and claims
// ---------------------------------------------------------------------------

/// The identity that a session token is issued for.
pub struct AuthIdentity {
    pub sub: String,
    pub email: Email,
    pub name: String,
    pub picture: String,
}

/// A user as the Google identity provider describes it.
pub struct GoogleUser {
    pub sub: String,
    pub email: Email,
    pub email_verified: bool,
    pub name: String,
    pub picture: String,
}

/// What a valid session token tells about its holder.
#[derive(Clone, Debug)]
pub struct AuthClaims {
    pub email: String,
    pub name: String,
    pub picture: String,
}

impl AuthClaims {
    /// A copy of the claims.
    pub fn duplicate(&self) -> (r: AuthClaims)
        ensures
            r == *self,
    {
        AuthClaims { email: self.email.clone(), name: self.name.clone(), picture: self.picture.clone() }
    }
}

// ---------------------------------------------------------------------------
// Documents
// ---------------------------------------------------------------------------

/// Category of a process, used to route and filter context.
#[derive(Debug, Clone, Copy, PartialEq, Eq, Structural)]
pub enum ProcessCategory {
    Commercial,
    Support,
    Renewal,
    Financial,
}

/// The category named by a label; an unknown label names the commercial one.
pub open spec fn category_of_label(s: Seq<char>) -> ProcessCategory {
    if s == "Comercial"@ {
        ProcessCategory::Commercial
    } else if s == "Suporte"@ {
        ProcessCategory::Support
    } else if s == "Renovacao"@ {
        ProcessCategory::Renewal
    } else if s == "Financeiro"@ {
        ProcessCategory::Financial
    } else {
        ProcessCategory::Commercial
    }
}

impl ProcessCategory {
    /// The label of the category.
    pub open spec fn label_spec(self) -> Seq<char> {
        match self {
            ProcessCategory::Commercial => "Comercial"@,
            ProcessCategory::Support => "Suporte"@,
            ProcessCategory::Renewal => "Renovacao"@,
            ProcessCategory::Financial => "Financeiro"@,
        }
    }

    /// The category named by `value`; an unknown label gives the commercial one.
    pub fn from_label(value: &str) -> (r: ProcessCategory)
        ensures
            r == category_of_label(value@),
    {
        if str_eq(value, "Comercial") {
            ProcessCategory::Commercial
        } else if str_eq(value, "Suporte") {
            ProcessCategory::Support
        } else if str_eq(value, "Renovacao") {
            ProcessCategory::Renewal
        } else if str_eq(value, "Financeiro") {
            ProcessCategory::Financial
        } else {
            ProcessCategory::Commercial
        }
    }

    /// The label of the category (its text form).
    pub fn label(&self) -> (r: &'static str)
        ensures
            r@ == self.label_spec(),
    {
        match self {
            ProcessCategory::Commercial => "Comercial",
            ProcessCategory::Support => "Suporte",
            ProcessCategory::Renewal => "Renovacao",
            ProcessCategory::Financial => "Financeiro",
        }
    }

    /// The label of the category, owned.
    pub fn to_string(&self) -> (r: String)
        ensures
            r@ == self.label_spec(),
    {
        owned(self.label())
    }
}

impl core::str::FromStr for ProcessCategory {
    type Err = ();

    /// Never fails: see [`ProcessCategory::from_label`].
    fn from_str(value: &str) -> (r: Result<ProcessCategory, ()>)
        ensures
            r == Ok::<ProcessCategory, ()>(category_of_label(value@)),
    {
        Ok(ProcessCategory::from_label(value))
    }
}

/// Reading back the label of a category gives the same category.
pub proof fn law_category_label_round_trip(c: ProcessCategory)
    ensures
        category_of_label(c.label_spec()) == c,
{
    reveal_strlit("Comercial");
    reveal_strlit("Suporte");
    reveal_strlit("Renovacao");
    reveal_strlit("Financeiro");
    assert("Suporte"@.len() != "Comercial"@.len());
    assert("Renovacao"@[0] != "Comercial"@[0]);
    assert("Renovacao"@.len() != "Suporte"@.len());
    assert("Financeiro"@.len() != "Comercial"@.len());
    assert("Financeiro"@.len() != "Suporte"@.len());
    assert("Financeiro"@.len() != "Renovacao"@.len());
}

/// A piece of a processed document.
pub struct DocumentChunk {
    pub content: String,
    pub category: ProcessCategory,
    pub source_filename: String,
}

impl DocumentChunk {
    /// A chunk with the given content, category and source file.
    pub fn new(content: String, category: ProcessCategory, source_filename: String) -> (r:
        DocumentChunk)
        ensures
            r.content == content,
            r.category == category,
            r.source_filename == source_filename,
    {
        DocumentChunk { content, category, source_filename }
    }
}

/// The outcome of a successful ingestion.
pub struct IngestionResult {
    pub total_chunks: usize,
    pub message: String,
}

impl IngestionResult {
    /// The result for `total_chunks` stored chunks, with the fixed success message.
    pub fn new(total_chunks: usize) -> (r: IngestionResult)
        ensures
            r.total_chunks == total_chunks,
            r.message@ == "Documentos indexados com sucesso!"@,
    {
        IngestionResult { total_chunks, message: owned("Documentos indexados com sucesso!") }
    }
}

// ---------------------------------------------------------------------------
// Conversations
// ---------------------------------------------------------------------------

/// One message of a conversation. `time` is the RFC 3339 text of when it was
/// recorded.
pub struct ConversationMessage {
    pub sender: String,
    pub content: String,
    pub time: String,
}

/// A conversation: its identifier, its messages in order, and the RFC 3339 text of
/// its last interaction.
pub struct Conversation {
    pub id: String,
    pub messages: Vec<ConversationMessage>,
    pub last_interaction: String,
}

} // verus!
