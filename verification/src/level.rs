use vstd::prelude::*;

verus! {

/// The severity of a log record, from the most to the least severe.
#[derive(Clone, Copy, Debug, PartialEq, Eq, Structural)]
pub enum Level {
    Error,
    Warn,
    Info,
    Debug,
    Trace,
}

impl Level {
    /// The name under which a level appears in a log line.
    pub open spec fn name(self) -> Seq<char> {
        match self {
            Level::Error => "ERROR"@,
            Level::Warn => "WARN"@,
            Level::Info => "INFO"@,
            Level::Debug => "DEBUG"@,
            Level::Trace => "TRACE"@,
        }
    }
}

/// Trusted: calls `Level::as_str` of the `log` crate, which `tracing`
/// re-exports. That function indexes a table of upper-case names by the
/// level; the contract claims that the string returned for each level is the
/// one that `Level::name` lists.
#[verifier::external_body]
pub(crate) fn level_name(level: Level) -> (name: &'static str)
    ensures
        name@ == level.name(),
{
    let outside = match level {
        Level::Error => tracing::log::Level::Error,
        Level::Warn => tracing::log::Level::Warn,
        Level::Info => tracing::log::Level::Info,
        Level::Debug => tracing::log::Level::Debug,
        Level::Trace => tracing::log::Level::Trace,
    };
    outside.as_str()
}

} // verus!
