//! Client-side logic for a GitHub-trending aggregation service: the data
//! types for trending repositories and developers, the validators for the
//! optional filter parameters, and the construction of the query string
//! that the upstream endpoints expect.

pub mod query;
pub mod text;
pub mod types;
pub mod validate;

pub use query::build_developers_query;
pub use query::build_repos_query;
pub use types::Developer;
pub use types::Person;
pub use types::ProgrammingLanguage;
pub use types::Repo;
pub use types::Repository;
pub use types::SpokenLanguage;
pub use validate::check_language_validity;
pub use validate::check_since_validity;
pub use validate::check_spoken_lang_code_validity;
