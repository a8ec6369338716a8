//! The configuration of the registration handler: the table it writes to.

use vstd::prelude::*;
use crate::text::option_text;

verus! {

/// The name of the environment variable that selects the table.
pub open spec fn table_variable() -> Seq<char> {
    "USERS_TABLE"@
}

/// The table that is written to when nothing selects another.
pub open spec fn default_table() -> Seq<char> {
    "usersTable"@
}

/// The table selected by a setting: the setting itself where there is one,
/// whatever it holds, and the default table where there is none.
pub open spec fn resolved_table(setting: Option<Seq<char>>) -> Seq<char> {
    match setting {
        Some(name) => name,
        None => default_table(),
    }
}

/// Where the registration handler writes. Resolved once, at startup, and handed
/// to every invocation.
#[derive(Debug, Clone, PartialEq, Eq)]
pub struct Config {
    pub table_name: String,
}

impl Config {
    /// The name of the environment variable whose value is handed to
    /// [`Config::resolve`].
    pub fn variable() -> (name: &'static str)
        ensures
            name@ == table_variable(),
    {
        "USERS_TABLE"
    }

    /// The configuration for a given value of the table variable; `None` stands
    /// for a variable that is not set.
    pub fn resolve(setting: Option<String>) -> (config: Config)
        ensures
            config.table_name@ == resolved_table(option_text(setting)),
    {
        match setting {
            Some(name) => Config { table_name: name },
            None => Config { table_name: "usersTable".to_string() },
        }
    }
}

} // verus!
