//! The plain records that pass between the registry's parts.

use crate::version::Version;
use vstd::prelude::*;

verus! {

/// A registered user.
#[derive(Debug, PartialEq, Eq)]
pub struct User {
    pub id: u32,
    pub login: String,
    pub name: Option<String>,
}

impl Default for User {
    /// The user of whom nothing is known: id 0, no login, no name.
    fn default() -> (r: User)
        ensures
            r.id == 0,
            r.login@ == Seq::<char>::empty(),
            r.name is None,
    {
        User { id: 0, login: String::new(), name: None }
    }
}

impl Clone for User {
    fn clone(&self) -> (r: Self)
        ensures
            r.id == self.id,
            r.login@ == self.login@,
            r.name is Some == self.name is Some,
            r.name is Some ==> r.name->0@ == self.name->0@,
    {
        User {
            id: self.id,
            login: self.login.clone(),
            name: match &self.name {
                Some(n) => Some(n.clone()),
                None => None,
            },
        }
    }
}

/// What a publisher says of a new version, before it becomes a record.
#[derive(Debug, PartialEq, Eq)]
pub struct Metadata {
    pub name: String,
    pub vers: Version,
    pub description: Option<String>,
    pub repository: Option<String>,
}

/// A search request: the words to look for and the size of a page.
#[derive(Debug, PartialEq, Eq)]
pub struct Query {
    pub string: String,
    pub limit: Option<usize>,
}

/// One crate in a search result.
#[derive(Debug, PartialEq, Eq)]
pub struct CrateSummary {
    pub name: String,
    pub max_version: Version,
    pub description: Option<String>,
}

/// A search result: the crates of one page, in order, and how many crates
/// matched in all.
#[derive(Debug, PartialEq, Eq)]
pub struct Search {
    pub crates: Vec<CrateSummary>,
    pub total: usize,
}

/// Where the index lives, and where the credential for the source host is
/// kept, if one is configured.
#[derive(Debug, PartialEq, Eq)]
pub struct IndexConfig {
    pub local_path: String,
    pub token_path: Option<String>,
}

} // verus!
