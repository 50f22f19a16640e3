//! Identifiers, roles and the user record shared by every component.

use vstd::prelude::*;

verus! {

/// Database identifier of a row.
pub type Id = i32;

/// Role of a caller, ordered by privilege: `Admin` above `User` above `Anonym`.
#[derive(Clone, Copy, Debug, PartialEq, Eq, Structural)]
pub enum UserCode {
    Admin,
    User,
    Anonym,
}

/// A vote on an entry.
#[derive(Clone, Copy, Debug, PartialEq, Eq, Structural)]
pub enum Vote {
    Yes,
    No,
    Neutral,
    Fake,
}

impl Vote {
    /// The number under which the vote is stored.
    pub open spec fn spec_code(self) -> i32 {
        match self {
            Vote::Yes => 0,
            Vote::No => 1,
            Vote::Neutral => 2,
            Vote::Fake => 3,
        }
    }

    /// The number under which the vote is stored.
    #[verifier::when_used_as_spec(spec_code)]
    pub fn code(self) -> (code: i32)
        ensures
            code == self.spec_code(),
    {
        match self {
            Vote::Yes => 0,
            Vote::No => 1,
            Vote::Neutral => 2,
            Vote::Fake => 3,
        }
    }
}

/// A user as the token cache holds it.
#[derive(Debug)]
pub struct User {
    pub id: Id,
    pub code: UserCode,
    pub name: String,
    pub blocked: bool,
}

/// What a [`User`] holds, with the name as text.
pub struct UserView {
    pub id: Id,
    pub code: UserCode,
    pub name: Seq<char>,
    pub blocked: bool,
}

impl View for User {
    type V = UserView;

    open spec fn view(&self) -> UserView {
        UserView { id: self.id, code: self.code, name: self.name@, blocked: self.blocked }
    }
}

impl Clone for User {
    fn clone(&self) -> (copy: Self)
        ensures
            copy@ == self@,
    {
        User { id: self.id, code: self.code, name: self.name.clone(), blocked: self.blocked }
    }
}

impl UserView {
    /// The same user with another blocked flag.
    pub open spec fn with_blocked(self, blocked: bool) -> UserView {
        UserView { blocked, ..self }
    }
}

} // verus!
