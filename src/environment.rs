use crate::text::{lower_of, lowercase, same_text};
use vstd::prelude::*;

verus! {

/// The environment the server runs in.
#[derive(Clone, Copy, Debug, PartialEq, Eq, Structural)]
pub enum Environment {
    /// Development.
    Dev,
    /// Production settings on a local machine.
    LocalProd,
    /// Production, on a server.
    Prod,
}

/// The environment a lower-case name stands for.
pub open spec fn environment_named(l: Seq<char>) -> Option<Environment> {
    if l == "development"@ || l == "dev"@ || l == "d"@ {
        Some(Environment::Dev)
    } else if l == "localproduction"@ || l == "localprod"@ || l == "lprod"@ || l == "lp"@ {
        Some(Environment::LocalProd)
    } else if l == "production"@ || l == "prod"@ || l == "p"@ {
        Some(Environment::Prod)
    } else {
        None
    }
}

impl Environment {
    /// The environment that `name` stands for, regardless of case:
    /// `development`, `dev` or `d`; `localproduction`, `localprod`, `lprod`
    /// or `lp`; `production`, `prod` or `p`.
    pub fn from_name(name: &str) -> (r: Option<Environment>)
        ensures
            r == environment_named(lower_of(name@)),
    {
        let l = lowercase(name);
        let l = l.as_str();
        if same_text(l, "development") || same_text(l, "dev") || same_text(l, "d") {
            Some(Environment::Dev)
        } else if same_text(l, "localproduction") || same_text(l, "localprod") || same_text(l, "lprod")
            || same_text(l, "lp") {
            Some(Environment::LocalProd)
        } else if same_text(l, "production") || same_text(l, "prod") || same_text(l, "p") {
            Some(Environment::Prod)
        } else {
            None
        }
    }

    /// The file of settings for the environment.
    pub fn env_file(&self) -> (r: &'static str)
        ensures
            *self == Environment::Dev ==> r@ == ".env.dev"@,
            *self == Environment::LocalProd ==> r@ == ".env.localprod"@,
            *self == Environment::Prod ==> r@ == ".env.prod"@,
    {
        match self {
            Environment::Dev => ".env.dev",
            Environment::LocalProd => ".env.localprod",
            Environment::Prod => ".env.prod",
        }
    }
}

/// How much the server logs, from the most to the least.
#[derive(Clone, Copy, Debug, PartialEq, Eq, Structural)]
pub enum LogLevel {
    Trace,
    Debug,
    Info,
    Warn,
    Error,
}

/// The level a lower-case name stands for.
pub open spec fn level_named(l: Seq<char>) -> Option<LogLevel> {
    if l == "trace"@ {
        Some(LogLevel::Trace)
    } else if l == "debug"@ {
        Some(LogLevel::Debug)
    } else if l == "info"@ {
        Some(LogLevel::Info)
    } else if l == "warn"@ {
        Some(LogLevel::Warn)
    } else if l == "error"@ {
        Some(LogLevel::Error)
    } else {
        None
    }
}

/// The log level that `name` stands for, regardless of case: `trace`,
/// `debug`, `info`, `warn` or `error`.
pub fn parse_log_level(name: &str) -> (r: Option<LogLevel>)
    ensures
        r == level_named(lower_of(name@)),
{
    let l = lowercase(name);
    let l = l.as_str();
    if same_text(l, "trace") {
        Some(LogLevel::Trace)
    } else if same_text(l, "debug") {
        Some(LogLevel::Debug)
    } else if same_text(l, "info") {
        Some(LogLevel::Info)
    } else if same_text(l, "warn") {
        Some(LogLevel::Warn)
    } else if same_text(l, "error") {
        Some(LogLevel::Error)
    } else {
        None
    }
}

} // verus!
