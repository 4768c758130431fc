use vstd::prelude::*;
use crate::level::{level_name, Level};
use crate::text::{append_decimal, decimal};

verus! {

/// The pattern of the timestamp that begins a log line: date and time of
/// day, to the second.
pub const TIMESTAMP_FORMAT: &'static str = "%Y-%m-%d %H:%M:%S";

/// A log record, as mathematical values.
pub struct LogRecordView {
    pub level: Level,
    pub target: Seq<char>,
    pub file: Option<Seq<char>>,
    pub line: Option<u32>,
    pub args: Seq<char>,
}

/// What a log line is made of: the record as the call site produced it.
#[derive(Clone, Debug, PartialEq, Eq)]
pub struct LogRecord {
    /// Severity of the record.
    pub level: Level,
    /// The subsystem the record comes from.
    pub target: String,
    /// Source file of the call site, if known.
    pub file: Option<String>,
    /// Line of the call site, if known.
    pub line: Option<u32>,
    /// The message.
    pub args: String,
}

impl View for LogRecord {
    type V = LogRecordView;

    open spec fn view(&self) -> LogRecordView {
        LogRecordView {
            level: self.level,
            target: self.target@,
            file: match self.file {
                Some(path) => Some(path@),
                None => None,
            },
            line: self.line,
            args: self.args@,
        }
    }
}

/// The source file as a log line shows it.
pub open spec fn file_label(file: Option<Seq<char>>) -> Seq<char> {
    match file {
        Some(path) => path,
        None => "<unknown>"@,
    }
}

/// The source line as a log line shows it: 0 where it is unknown.
pub open spec fn line_label(line: Option<u32>) -> Seq<char> {
    match line {
        Some(n) => decimal(n as nat),
        None => decimal(0),
    }
}

/// The thread as a log line shows it: its name, or its id where it has none.
pub open spec fn thread_label(thread_name: Option<Seq<char>>, thread_id: Seq<char>) -> Seq<char> {
    match thread_name {
        Some(name) => name,
        None => thread_id,
    }
}

/// A log line: `timestamp [level] [target:file:line] [thread] - message`.
pub open spec fn log_line(
    timestamp: Seq<char>,
    record: LogRecordView,
    thread_name: Option<Seq<char>>,
    thread_id: Seq<char>,
) -> Seq<char> {
    timestamp + " ["@ + record.level.name() + "] ["@ + record.target + ":"@ + file_label(
        record.file,
    ) + ":"@ + line_label(record.line) + "] ["@ + thread_label(thread_name, thread_id) + "] - "@
        + record.args
}

/// Renders one record as a log line. `timestamp` is the time of the record
/// as text; `thread_id` is shown where the thread has no name.
pub fn custom_format(
    timestamp: &str,
    record: &LogRecord,
    thread_name: Option<&str>,
    thread_id: &str,
) -> (line: String)
    ensures
        line@ == log_line(
            timestamp@,
            record@,
            match thread_name {
                Some(name) => Some(name@),
                None => None,
            },
            thread_id@,
        ),
{
    let mut line = String::new();
    line.append(timestamp);
    line.append(" [");
    line.append(level_name(record.level));
    line.append("] [");
    line.append(record.target.as_str());
    line.append(":");
    match &record.file {
        Some(path) => line.append(path.as_str()),
        None => line.append("<unknown>"),
    }
    line.append(":");
    match record.line {
        Some(n) => append_decimal(&mut line, n),
        None => append_decimal(&mut line, 0),
    }
    line.append("] [");
    match thread_name {
        Some(name) => line.append(name),
        None => line.append(thread_id),
    }
    line.append("] - ");
    line.append(record.args.as_str());
    line
}

} // verus!
