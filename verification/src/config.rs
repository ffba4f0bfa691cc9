//! Where the database is found.

use vstd::prelude::*;

verus! {

/// The address of the database, and the namespace and database to use.
#[derive(Debug, Clone)]
pub struct Config {
    pub db_url: String,
    pub db_namespace: String,
    pub db_name: String,
}

impl Default for Config {
    /// A database on this machine, namespace `crm`, database `main`.
    fn default() -> (r: Config)
        ensures
            r.db_url@ == "ws://localhost:8000"@,
            r.db_namespace@ == "crm"@,
            r.db_name@ == "main"@,
    {
        Config {
            db_url: String::from_str("ws://localhost:8000"),
            db_namespace: String::from_str("crm"),
            db_name: String::from_str("main"),
        }
    }
}

} // verus!
