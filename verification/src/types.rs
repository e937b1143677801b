//! The value objects the client returns and the lookup entries it
//! validates against. All of them are plain immutable records; the
//! upstream service delivers them as JSON and the surrounding program
//! decodes them into these shapes before any logic runs.

use vstd::prelude::*;
use vstd::string::StrSliceExecFns;
use vstd::string::StringExecFns;
use crate::text::str_eq;

verus! {

/// One trending repository, as the `repositories` endpoint lists it.
#[derive(Debug, PartialEq, Eq)]
pub struct Repository {
    pub author: String,
    pub name: String,
    pub url: String,
    pub description: String,
    pub language: String,
    pub stars: String,
    pub forks: String,
    pub avatar: String,
    pub current_period_stars: String,
    pub built_by: Vec<Person>,
}

/// A contributor embedded in a repository record.
#[derive(Debug, PartialEq, Eq)]
pub struct Person {
    pub href: String,
    pub avatar: String,
    pub username: String,
}

/// A lookup entry for a programming language; used only to validate the
/// `language` filter, never returned to callers.
#[derive(Debug, PartialEq, Eq)]
pub struct ProgrammingLanguage {
    pub id: String,
    pub name: String,
}

/// A lookup entry for a spoken language; used only to validate the
/// `spoken_lang_code` filter.
#[derive(Debug, PartialEq, Eq)]
pub struct SpokenLanguage {
    pub url_param: String,
    pub name: String,
}

/// One trending developer, as the `developers` endpoint lists it.
#[derive(Debug, PartialEq, Eq)]
pub struct Developer {
    pub username: String,
    pub name: String,
    pub ttype: String,
    pub url: String,
    pub avatar: String,
    pub repo: Repo,
}

/// The featured repository embedded in a developer record.
#[derive(Debug, PartialEq, Eq)]
pub struct Repo {
    pub repo_name: String,
    pub description: String,
}

impl Repository {
    /// Whether the repository's `url` field is the canonical GitHub page
    /// `https://github.com/{author}/{name}` built from its own fields.
    pub fn has_canonical_url(&self) -> (r: bool)
        ensures
            r == (self.url@ == "https://github.com/"@ + self.author@ + "/"@ + self.name@),
    {
        let mut expected = String::from_str("https://github.com/");
        expected.append(self.author.as_str());
        expected.append("/");
        expected.append(self.name.as_str());
        str_eq(self.url.as_str(), expected.as_str())
    }
}

} // verus!
