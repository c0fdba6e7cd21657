//! Small value types exercised by the command-line walkthrough: a member
//! record, a job's state and a deployment's state.

use vstd::prelude::*;

use vstd::utf8::encode_utf8;

use crate::domain::{Speak, greeting, greeting_for};

verus! {

/// A member as the walkthrough knows it.
#[derive(Debug, Clone, PartialEq, Eq)]
pub struct User {
    pub id: u32,
    pub name: String,
    pub active: bool,
}

impl User {
    /// A new member starts out active.
    pub fn new(id: u32, name: String) -> (r: Self)
        ensures
            r.id == id,
            r.name@ == name@,
            r.active,
    {
        User { id, name, active: true }
    }

    /// The greeting the walkthrough prints for this member.
    pub fn greet(&self) -> (r: String)
        ensures
            r@ == greeting(self.name@),
    {
        greeting_for(self.name.as_str())
    }
}

impl Speak for User {
    type Err = ();

    open spec fn speech(&self) -> Result<Seq<char>, ()> {
        Ok(greeting(self.name@))
    }

    fn speak(&self) -> (r: Result<String, ()>) {
        Ok(greeting_for(self.name.as_str()))
    }
}

/// The state of a background job.
#[derive(Debug, Clone, PartialEq, Eq)]
pub enum JobState {
    Pending,
    Running,
    Failed(String),
    Success,
}

impl JobState {
    pub open spec fn description(&self) -> Seq<char> {
        match self {
            JobState::Pending => "Pending"@,
            JobState::Running => "Running"@,
            JobState::Failed(err) => "Failed: "@ + err@,
            JobState::Success => "Success"@,
        }
    }

    pub fn describe(&self) -> (r: String)
        ensures
            r@ == self.description(),
    {
        match self {
            JobState::Pending => String::from_str("Pending"),
            JobState::Running => String::from_str("Running"),
            JobState::Failed(err) => {
                let mut s = String::from_str("Failed: ");
                s.append(err.as_str());
                s
            },
            JobState::Success => String::from_str("Success"),
        }
    }
}

/// The state of a deployment.
#[derive(Debug, Clone, PartialEq, Eq)]
pub enum DeploymentState {
    Creating,
    Ready,
    Error(String),
}

impl DeploymentState {
    /// Only a ready deployment can serve traffic.
    pub fn can_serve(&self) -> (r: bool)
        ensures
            r == (self is Ready),
    {
        match self {
            DeploymentState::Ready => true,
            _ => false,
        }
    }

    pub open spec fn text(&self) -> Seq<char> {
        match self {
            DeploymentState::Creating => "creating"@,
            DeploymentState::Ready => "ready"@,
            DeploymentState::Error(e) => "error "@ + e@,
        }
    }

    pub fn message(&self) -> (r: String)
        ensures
            r@ == self.text(),
    {
        match self {
            DeploymentState::Creating => String::from_str("creating"),
            DeploymentState::Ready => String::from_str("ready"),
            DeploymentState::Error(e) => {
                let mut s = String::from_str("error ");
                s.append(e.as_str());
                s
            },
        }
    }
}

/// Length of a string in bytes of its UTF-8 encoding.
pub fn calculate_length(s: &String) -> (r: usize)
    ensures
        r == encode_utf8(s@).len(),
{
    s.as_str().as_bytes().len()
}

/// Appends the walkthrough's suffix to a string.
pub fn change(s: &mut String)
    ensures
        final(s)@ == old(s)@ + " world 3"@,
{
    s.append(" world 3");
}

} // verus!
