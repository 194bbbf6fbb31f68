use vstd::prelude::*;

use crate::errors::DomainError;
use crate::text::{char_is_ws, chars_of, count_char, is_ws};

verus! {

/// What the library accepts as an e-mail address: exactly one `@`, with at least
/// one character before it and one after it, and no white space anywhere.
pub open spec fn valid_email(s: Seq<char>) -> bool {
    &&& count_char(s, '@') == 1
    &&& s.len() > 0
    &&& s[0] != '@'
    &&& s.last() != '@'
    &&& forall|i: int| 0 <= i < s.len() ==> !is_ws(#[trigger] s[i])
}

/// An e-mail address that passed validation.
pub struct Email {
    value: String,
}

impl View for Email {
    type V = Seq<char>;

    closed spec fn view(&self) -> Seq<char> {
        self.value@
    }
}

/// Whether `s` is an acceptable e-mail address.
pub fn is_valid_email(s: &str) -> (r: bool)
    ensures
        r == valid_email(s@),
{
    let v = chars_of(s);
    let n = v.len();
    if n == 0 {
        return false;
    }
    let mut ats: usize = 0;
    let mut i: usize = 0;
    while i < n
        invariant
            v@ == s@,
            n == v.len(),
            i <= n,
            ats as nat == count_char(v@.take(i as int), '@'),
            ats <= i,
            forall|j: int| 0 <= j < i ==> !is_ws(#[trigger] v@[j]),
        decreases n - i,
    {
        if char_is_ws(v[i]) {
            return false;
        }
        assert(v@.take(i + 1).drop_last() == v@.take(i as int));
        if v[i] == '@' {
            ats = ats + 1;
        }
        i = i + 1;
    }
    assert(v@.take(n as int) == v@);
    ats == 1 && v[0] != '@' && v[n - 1] != '@'
}

impl Email {
    #[verifier::type_invariant]
    spec fn inv(self) -> bool {
        valid_email(self.value@)
    }

    /// Validates `value` as an e-mail address.
    pub fn new(value: String) -> (r: Result<Email, DomainError>)
        ensures
            match r {
                Ok(e) => valid_email(value@) && e@ == value@,
                Err(err) => !valid_email(value@) && err == DomainError::InvalidEmail(value),
            },
    {
        if is_valid_email(value.as_str()) {
            Ok(Email { value })
        } else {
            Err(DomainError::InvalidEmail(value))
        }
    }

    /// The address as text.
    pub fn as_str(&self) -> (r: &str)
        ensures
            r@ == self@,
            valid_email(self@),
    {
        proof {
            use_type_invariant(self);
        }
        self.value.as_str()
    }

    /// The address as an owned string.
    pub fn to_string(&self) -> (r: String)
        ensures
            r@ == self@,
            valid_email(self@),
    {
        proof {
            use_type_invariant(self);
        }
        self.value.clone()
    }

    /// A copy of the address.
    pub fn duplicate(&self) -> (r: Email)
        ensures
            r@ == self@,
    {
        proof {
            use_type_invariant(self);
        }
        Email { value: self.value.clone() }
    }
}

} // verus!
