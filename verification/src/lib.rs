//! Configuration and dispatch rules of a process-wide logger.
//!
//! A [`Logger`] collects the options by chained calls and, at
//! [`Logger::start`], works out the settings of every sink, has them opened
//! and installs the resulting [`SfoLogger`] in a [`LoggerRegistry`]. The
//! dispatch table plans where each record goes; [`SfoLogFilter`] keeps
//! excluded targets away from a sink; [`custom_format`] renders a log line.
//! The library opens no file and writes no line itself: whoever drives it
//! carries out what it plans.

pub mod config;
pub mod dispatch;
pub mod filter;
pub mod format;
pub mod level;
pub mod registry;
pub mod sink;
pub mod text;

pub use config::Logger;
pub use dispatch::{SfoLogger, SinkId};
pub use filter::SfoLogFilter;
pub use format::{custom_format, LogRecord};
pub use level::Level;
pub use registry::{LogError, LoggerRegistry};
pub use sink::{FileTarget, SinkConfig};
