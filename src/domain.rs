//! Domain records handed to and from the persistence layer, and the `Speak`
//! behaviour of a user.

use vstd::prelude::*;

use crate::error::DomainError;

verus! {

/// A stored user account. `password` holds the stored hash, never the
/// plaintext.
#[derive(Debug, Clone, PartialEq, Eq)]
pub struct User {
    pub id: i64,
    pub username: String,
    pub password: String,
    pub active: bool,
}

/// A product category record.
#[derive(Debug, Clone, PartialEq, Eq)]
pub struct Category {
    pub id: i64,
    pub name: String,
    pub active: bool,
}

/// A category record of the older catalogue.
#[derive(Debug, Clone, PartialEq, Eq)]
pub struct Catagory {
    pub id: i64,
    pub name: String,
    pub active: bool,
}

/// The greeting for a name: `Hello <name>`.
pub open spec fn greeting(name: Seq<char>) -> Seq<char> {
    "Hello "@ + name
}

/// Builds the greeting for a name.
pub fn greeting_for(name: &str) -> (r: String)
    ensures
        r@ == greeting(name@),
{
    let mut s = String::from_str("Hello ");
    s.append(name);
    s
}

impl User {
    pub fn greet(&self) -> (r: String)
        ensures
            r@ == greeting(self.username@),
    {
        greeting_for(self.username.as_str())
    }
}

/// Upper-case form of a string, as Unicode case mapping defines it.
pub uninterp spec fn upper_of(s: Seq<char>) -> Seq<char>;

/// Relies on `str::to_uppercase`: the result depends on the characters alone.
#[verifier::external_body]
fn to_upper(s: &str) -> (r: String)
    ensures
        r@ == upper_of(s@),
{
    s.to_uppercase()
}

/// Something that can say a line, and shout it.
pub trait Speak {
    type Err;

    /// What `speak` answers.
    spec fn speech(&self) -> Result<Seq<char>, Self::Err>;

    fn speak(&self) -> (r: Result<String, Self::Err>)
        ensures
            match r {
                Ok(s) => self.speech() == Ok::<Seq<char>, Self::Err>(s@),
                Err(e) => self.speech() == Err::<Seq<char>, Self::Err>(e),
            },
    ;

    /// The spoken line in upper case; a failure to speak is passed on.
    fn shout(&self) -> (r: Result<String, Self::Err>)
        ensures
            match r {
                Ok(s) => self.speech() matches Ok(t) && s@ == upper_of(t),
                Err(e) => self.speech() == Err::<Seq<char>, Self::Err>(e),
            },
    {
        match self.speak() {
            Ok(s) => Ok(to_upper(s.as_str())),
            Err(e) => Err(e),
        }
    }
}

impl Speak for User {
    type Err = DomainError;

    open spec fn speech(&self) -> Result<Seq<char>, DomainError> {
        Ok(greeting(self.username@))
    }

    fn speak(&self) -> (r: Result<String, DomainError>) {
        Ok(greeting_for(self.username.as_str()))
    }
}

} // verus!
