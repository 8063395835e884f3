//! The environment a deployment runs in.

use crate::text::{lowercase, same_text, to_lowercase};
use vstd::prelude::*;

verus! {

/// The environments a deployment can run in.
#[derive(Debug, PartialEq, Eq, Structural, Clone, Copy)]
pub enum Environment {
    Local,
    Staging,
    Production,
}

/// The environment that a lower-case name stands for.
pub open spec fn environment_named(name: Seq<char>) -> Option<Environment> {
    if name == "local"@ || name == "development"@ {
        Some(Environment::Local)
    } else if name == "staging"@ {
        Some(Environment::Staging)
    } else if name == "production"@ {
        Some(Environment::Production)
    } else {
        None
    }
}

/// The complaint about a name that stands for no environment.
pub open spec fn complaint(name: Seq<char>) -> Seq<char> {
    name + " is not a valid environment"@
}

impl Environment {
    /// The name of the environment, as configuration files spell it.
    pub fn as_str(&self) -> (name: &'static str)
        ensures
            name@ == match *self {
                Environment::Local => "local"@,
                Environment::Staging => "staging"@,
                Environment::Production => "production"@,
            },
    {
        match self {
            Environment::Local => "local",
            Environment::Staging => "staging",
            Environment::Production => "production",
        }
    }

    /// The environment that a lower-case name stands for.
    pub fn named(name: &str) -> (r: Option<Environment>)
        ensures
            r == environment_named(name@),
    {
        if same_text(name, "local") || same_text(name, "development") {
            Some(Environment::Local)
        } else if same_text(name, "staging") {
            Some(Environment::Staging)
        } else if same_text(name, "production") {
            Some(Environment::Production)
        } else {
            None
        }
    }

    /// Reads an environment from its name, in any letter case. A name that
    /// stands for none comes back in the complaint.
    pub fn try_from(s: String) -> (r: Result<Environment, String>)
        ensures
            match environment_named(lowercase(s@)) {
                Some(environment) => r == Ok::<Environment, String>(environment),
                None => r is Err && r->Err_0@ == complaint(s@),
            },
    {
        let lower = to_lowercase(s.as_str());
        match Environment::named(lower.as_str()) {
            Some(environment) => Ok(environment),
            None => Err(s.concat(" is not a valid environment")),
        }
    }
}

} // verus!
