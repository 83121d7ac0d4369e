use vstd::prelude::*;

use crate::scheduler::FlushInterval;

verus! {

/// Logging configuration.
#[derive(Debug, Clone)]
pub struct Log {
    pub level: String,
}

/// Where the HTTP server binds.
#[derive(Debug, Clone)]
pub struct Server {
    pub port: u16,
    pub host: String,
}

/// The analytical store's configuration: which driver, where it lives, and
/// how the write-back batching runs.
#[derive(Debug, Clone)]
pub struct Database {
    pub db_type: DatabaseType,
    pub url: String,
    /// Whether batching is enabled at all; without it the system degrades
    /// to a per-event direct-insert path over the same sink capabilities.
    pub batching: bool,
    /// The flush interval, as a human-readable duration string.
    pub batching_frequency: String,
}

/// Where the geo lookup database lives, if one is configured.
#[derive(Debug, Clone)]
pub struct Maxmind {
    pub path: Option<String>,
}

/// Everything the process reads at startup.
#[derive(Debug, Clone)]
pub struct Settings {
    pub maxmind: Option<Maxmind>,
    pub server: Server,
    pub database: Database,
    pub log: Log,
    pub env: ENV,
}

/// Which analytical store backs the sink.
#[derive(Debug, Clone, Copy, PartialEq, Eq, Structural)]
pub enum DatabaseType {
    ClickHouse,
    TensorBase,
}

/// The deployment environment the process runs in.
#[derive(Debug, Clone, Copy, PartialEq, Eq, Structural)]
pub enum ENV {
    Development,
    Testing,
    Production,
}

/// Which environment a configured name selects; anything unrecognized
/// falls back to Development.
pub open spec fn env_of(name: Seq<char>) -> ENV {
    if name == "Testing"@ {
        ENV::Testing
    } else if name == "Production"@ {
        ENV::Production
    } else {
        ENV::Development
    }
}

impl ENV {
    /// The name this environment prints as.
    pub open spec fn label_spec(&self) -> Seq<char> {
        match self {
            ENV::Development => "Development"@,
            ENV::Testing => "Testing"@,
            ENV::Production => "Production"@,
        }
    }

    /// The name this environment prints as.
    pub fn label(&self) -> (s: String)
        ensures
            s@ == self.label_spec(),
    {
        match self {
            ENV::Development => "Development".to_owned(),
            ENV::Testing => "Testing".to_owned(),
            ENV::Production => "Production".to_owned(),
        }
    }
}

impl From<&str> for ENV {
    fn from(env: &str) -> (r: ENV) {
        let name = env.to_owned();
        if name == "Testing".to_owned() {
            ENV::Testing
        } else if name == "Production".to_owned() {
            ENV::Production
        } else {
            ENV::Development
        }
    }
}

impl vstd::std_specs::convert::FromSpecImpl<&str> for ENV {
    open spec fn obeys_from_spec() -> bool {
        true
    }

    open spec fn from_spec(env: &str) -> ENV {
        env_of(env@)
    }
}

/// The flush interval used where the configuration names none.
pub fn default_duration() -> (d: FlushInterval)
    ensures
        d == (FlushInterval { secs: 5, nanos: 0 }),
{
    FlushInterval { secs: 5, nanos: 0 }
}

} // verus!
