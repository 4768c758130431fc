use vstd::prelude::*;
use crate::dispatch::{SfoLogger, SfoLoggerView};

verus! {

/// Why starting the logger failed.
#[derive(Clone, Copy, Debug, PartialEq, Eq, Structural)]
pub enum LogError {
    /// The level string is not one that the backend understands.
    InvalidLevel,
    /// The log directory or a log file could not be created.
    Output,
    /// A logger is installed already; it stays in place.
    AlreadyInitialized,
}

/// The place of the process-wide logger. It starts empty, takes one dispatch
/// table and keeps it: a later installation is refused.
pub struct LoggerRegistry<S> {
    installed: Option<SfoLogger<S>>,
}

impl<S> View for LoggerRegistry<S> {
    type V = Option<SfoLoggerView<S>>;

    closed spec fn view(&self) -> Option<SfoLoggerView<S>> {
        match self.installed {
            Some(table) => Some(table@),
            None => None,
        }
    }
}

impl<S> LoggerRegistry<S> {
    /// A registry with no logger installed.
    pub fn new() -> (registry: Self)
        ensures
            registry@ is None,
    {
        LoggerRegistry { installed: None }
    }

    /// Whether a logger is installed.
    pub fn is_initialized(&self) -> (initialized: bool)
        ensures
            initialized == self@ is Some,
    {
        self.installed.is_some()
    }

    /// The installed dispatch table, if there is one.
    pub fn logger(&self) -> (installed: Option<&SfoLogger<S>>)
        ensures
            match installed {
                Some(table) => self@ == Some(table@),
                None => self@ is None,
            },
    {
        self.installed.as_ref()
    }

    /// Installs `logger` if none is installed yet. Otherwise the registry
    /// stays as it is and the call fails with `AlreadyInitialized`.
    pub fn install(&mut self, logger: SfoLogger<S>) -> (installed: Result<(), LogError>)
        ensures
            installed is Ok <==> old(self)@ is None,
            installed is Ok ==> final(self)@ == Some(logger@),
            installed is Err ==> final(self)@ == old(self)@,
            installed is Err ==> installed == Err::<(), LogError>(LogError::AlreadyInitialized),
    {
        if self.installed.is_some() {
            Err(LogError::AlreadyInitialized)
        } else {
            self.installed = Some(logger);
            Ok(())
        }
    }
}

} // verus!
