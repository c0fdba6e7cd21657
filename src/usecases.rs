//! The decisions of the user and category use cases. The store itself is an
//! outside collaborator: a caller reads or writes it between these steps and
//! hands the records it got back in, so every branch taken here is plain data.

use vstd::prelude::*;

use crate::domain::User;
use crate::error::{DomainError, check_outcome};
use crate::vault::{password_matches, verify_password};

verus! {

/// Whether `c` has the Unicode White_Space property.
pub open spec fn is_white_space(c: char) -> bool {
    ('\u{9}' <= c && c <= '\u{d}') || c == ' ' || c == '\u{85}' || c == '\u{a0}' || c == '\u{1680}'
        || ('\u{2000}' <= c && c <= '\u{200a}') || c == '\u{2028}' || c == '\u{2029}' || c == '\u{202f}'
        || c == '\u{205f}' || c == '\u{3000}'
}

/// A text is blank when nothing is left of it once white space is trimmed.
pub open spec fn blank(s: Seq<char>) -> bool {
    forall|i: int| 0 <= i < s.len() ==> is_white_space(#[trigger] s[i])
}

pub fn is_white_space_char(c: char) -> (r: bool)
    ensures
        r == is_white_space(c),
{
    ('\u{9}' <= c && c <= '\u{d}') || c == ' ' || c == '\u{85}' || c == '\u{a0}' || c == '\u{1680}'
        || ('\u{2000}' <= c && c <= '\u{200a}') || c == '\u{2028}' || c == '\u{2029}' || c == '\u{202f}'
        || c == '\u{205f}' || c == '\u{3000}'
}

/// Whether `s` holds nothing but white space.
pub fn is_blank(s: &str) -> (r: bool)
    ensures
        r == blank(s@),
{
    let len = s.unicode_len();
    let mut i: usize = 0;
    while i < len
        invariant
            i <= len,
            len == s@.len(),
            forall|j: int| 0 <= j < i ==> is_white_space(#[trigger] s@[j]),
        decreases len - i,
    {
        if !is_white_space_char(s.get_char(i)) {
            return false;
        }
        i = i + 1;
    }
    true
}

/// The complaint about a required text field: `message` when it is blank.
pub open spec fn required_field_problem(value: Seq<char>, message: Seq<char>) -> Option<Seq<char>> {
    if blank(value) {
        Some(message)
    } else {
        None
    }
}

/// The outcome of looking a record up: present, or `NotFound`.
pub fn require_found<T>(found: Option<T>) -> (r: Result<T, DomainError>)
    ensures
        match found {
            Some(v) => r == Ok::<T, DomainError>(v),
            None => r == Err::<T, DomainError>(DomainError::NotFound),
        },
{
    match found {
        Some(v) => Ok(v),
        None => Err(DomainError::NotFound),
    }
}

/// Checks a required text field, refusing a blank one with `message`.
fn require_text(value: &str, message: &str) -> (r: Result<(), DomainError>)
    ensures
        check_outcome(r, required_field_problem(value@, message@)),
{
    if is_blank(value) {
        Err(DomainError::Validation(String::from_str(message)))
    } else {
        Ok(())
    }
}

/// The messages a blank field is refused with.
pub open spec fn username_required() -> Seq<char> {
    "username is required"@
}

pub open spec fn password_required() -> Seq<char> {
    "password is required"@
}

pub open spec fn name_required() -> Seq<char> {
    "name is required"@
}

/// Checks a record's name, refusing a blank one with `name is required`.
pub fn require_name(name: &str) -> (r: Result<(), DomainError>)
    ensures
        check_outcome(r, required_field_problem(name@, name_required())),
{
    require_text(name, "name is required")
}

/// The complaint about an account's username and password, if any.
pub open spec fn credentials_problem(username: Seq<char>, password: Seq<char>) -> Option<Seq<char>> {
    if blank(username) {
        Some(username_required())
    } else if blank(password) {
        Some(password_required())
    } else {
        None
    }
}

/// What `login` decides for the record found under the username and the
/// presented password.
pub open spec fn login_verdict(found: Option<User>, password: Seq<char>) -> Result<User, DomainError> {
    match found {
        None => Err(DomainError::Unauthorized),
        Some(u) => if password_matches(password, u.password@) {
            Ok(u)
        } else {
            Err(DomainError::Unauthorized)
        },
    }
}

/// Decisions of the user-account use cases.
#[derive(Debug, Clone, Copy, PartialEq, Eq)]
pub struct UserService;

impl UserService {
    pub fn new() -> (r: Self) {
        UserService
    }

    /// Checks the fields of an account to create or update: both must be
    /// non-blank, the username checked first.
    pub fn check_credentials(&self, username: &str, password: &str) -> (r: Result<(), DomainError>)
        ensures
            check_outcome(r, credentials_problem(username@, password@)),
    {
        require_text(username, "username is required")?;
        require_text(password, "password is required")
    }

    /// Decides a login from the record stored under the presented username
    /// (`None` when there is none) and the presented password. An unknown
    /// user and a wrong password are both `Unauthorized`, so a prober learns
    /// nothing about which accounts exist.
    pub fn login(&self, found: Option<User>, password: &str) -> (r: Result<User, DomainError>)
        ensures
            r == login_verdict(found, password@),
    {
        match found {
            None => Err(DomainError::Unauthorized),
            Some(user) => {
                if verify_password(password, user.password.as_str()) {
                    Ok(user)
                } else {
                    Err(DomainError::Unauthorized)
                }
            },
        }
    }
}

/// Decisions of the category use cases.
#[derive(Debug, Clone, Copy, PartialEq, Eq)]
pub struct CategoryService;

impl CategoryService {
    pub fn new() -> (r: Self) {
        CategoryService
    }

    /// Checks the name of a category to create or rename.
    pub fn check_name(&self, name: &str) -> (r: Result<(), DomainError>)
        ensures
            check_outcome(r, required_field_problem(name@, name_required())),
    {
        require_name(name)
    }
}

/// Decisions of the use cases of the older category catalogue.
#[derive(Debug, Clone, Copy, PartialEq, Eq)]
pub struct CatagoryService;

impl CatagoryService {
    pub fn new() -> (r: Self) {
        CatagoryService
    }

    /// Checks the name of a category to create.
    pub fn check_name(&self, name: &str) -> (r: Result<(), DomainError>)
        ensures
            check_outcome(r, required_field_problem(name@, name_required())),
    {
        require_name(name)
    }
}

} // verus!
