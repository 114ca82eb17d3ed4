//! The people the bot talks about: employees and their linked accounts on
//! social networks, as the directory hands them out.

use vstd::prelude::*;

verus! {

/// A date of birth as a year and a day of that year (1 is January 1st).
#[derive(Clone, Copy, Debug, PartialEq, Eq, Structural)]
pub struct BirthDate {
    pub year: i32,
    pub ordinal: u16,
}

/// An employee as the directory knows them.
#[derive(Debug)]
pub struct Employee {
    pub id: i64,
    pub email: String,
    pub name: String,
    pub dob: Option<BirthDate>,
}

impl Employee {
    /// An identical copy.
    pub fn copy(&self) -> (r: Employee)
        ensures
            r == *self,
    {
        Employee { id: self.id, email: self.email.clone(), name: self.name.clone(), dob: self.dob }
    }
}

/// A social network, by its name in the directory.
#[derive(Debug)]
pub struct SomeNetwork(pub String);

/// The directory's name of the chat network the bot runs on.
pub open spec fn slack_network_name() -> Seq<char> {
    "slack"@
}

impl SomeNetwork {
    /// The chat network the bot runs on.
    pub fn slack() -> (r: SomeNetwork)
        ensures
            r.0@ == slack_network_name(),
    {
        SomeNetwork(String::from_str("slack"))
    }

    /// The network with the given name.
    pub fn from_name(name: String) -> (r: SomeNetwork)
        ensures
            r.0 == name,
    {
        SomeNetwork(name)
    }

    /// The network's name.
    pub fn name(&self) -> (r: String)
        ensures
            r@ == self.0@,
    {
        self.0.clone()
    }
}

/// An employee's account on a social network.
#[derive(Debug)]
pub struct SomeAccount {
    pub id: i64,
    pub employee: i64,
    pub network: SomeNetwork,
    /// For networks with several instances (a chat team), which one.
    pub network_instance: Option<String>,
    /// The account's identifier on the network.
    pub subject: Option<String>,
    pub name: Option<String>,
    pub nick: Option<String>,
    pub url: Option<String>,
    pub avatar: Option<String>,
}

/// An identical copy of an optional text.
pub fn copy_text(t: &Option<String>) -> (r: Option<String>)
    ensures
        r == *t,
{
    match t {
        Some(s) => Some(s.clone()),
        None => None,
    }
}

} // verus!
