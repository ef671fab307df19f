//! Configuration of the query macros.

use vstd::prelude::*;

verus! {

/// Configuration of the query macros.
#[derive(Clone, Debug)]
pub struct Config {
    /// The name of the environment variable that holds the connection string,
    /// where it is not the usual one.
    pub database_url_var: Option<String>,
}

/// The name to use where none is configured.
pub open spec fn default_url_var() -> Seq<char> {
    "DATABASE_URL"@
}

impl Config {
    /// The name of the environment variable that holds the connection string.
    pub open spec fn url_var(&self) -> Seq<char> {
        match self.database_url_var {
            Some(name) => name@,
            None => default_url_var(),
        }
    }

    /// The name of the environment variable that holds the connection string:
    /// the configured one, or `DATABASE_URL`.
    pub fn database_url_var(&self) -> (name: &str)
        ensures
            name@ == self.url_var(),
    {
        match &self.database_url_var {
            Some(name) => name.as_str(),
            None => "DATABASE_URL",
        }
    }
}

} // verus!
