use vstd::prelude::*;
use crate::dispatch::SfoLogger;
use crate::registry::{LogError, LoggerRegistry};
use crate::sink::{FileTarget, FileTargetView, SinkConfig, SinkConfigView};
use crate::text::{append_decimal, decimal};

verus! {

/// Size at which a log file is rotated unless the configuration says otherwise.
pub const DEFAULT_LOG_FILE_SIZE: u64 = 10 * 1024 * 1024;

/// Number of rotated files that are kept unless the configuration says otherwise.
pub const DEFAULT_LOG_FILE_COUNT: usize = 10;

/// A logger configuration, as mathematical values.
pub struct LoggerView {
    pub app_name: Seq<char>,
    pub log_level: Seq<char>,
    pub log_to_file: bool,
    pub log_path: Seq<char>,
    pub log_file_size: u64,
    pub log_file_count: usize,
    pub instance_id: Seq<char>,
    pub output_console: bool,
    pub filter: Seq<Seq<char>>,
    pub module_logs: Seq<(Seq<char>, Seq<char>)>,
}

impl LoggerView {
    /// The target prefixes of the module routes, in their order.
    pub open spec fn module_keys(self) -> Seq<Seq<char>> {
        Seq::new(self.module_logs.len(), |i: int| self.module_logs[i].0)
    }

    /// This configuration with another instance id.
    pub open spec fn with_instance_id(self, instance_id: Seq<char>) -> LoggerView {
        LoggerView { instance_id, ..self }
    }

    /// This configuration with another minimum level.
    pub open spec fn with_log_level(self, log_level: Seq<char>) -> LoggerView {
        LoggerView { log_level, ..self }
    }

    /// This configuration with file output switched on or off.
    pub open spec fn with_log_to_file(self, log_to_file: bool) -> LoggerView {
        LoggerView { log_to_file, ..self }
    }

    /// This configuration with another directory for the log files.
    pub open spec fn with_log_path(self, log_path: Seq<char>) -> LoggerView {
        LoggerView { log_path, ..self }
    }

    /// This configuration with another size at which files are rotated.
    pub open spec fn with_log_file_size(self, log_file_size: u64) -> LoggerView {
        LoggerView { log_file_size, ..self }
    }

    /// This configuration with another number of rotated files to keep.
    pub open spec fn with_log_file_count(self, log_file_count: usize) -> LoggerView {
        LoggerView { log_file_count, ..self }
    }

    /// This configuration with console output switched on or off.
    pub open spec fn with_output_console(self, output_console: bool) -> LoggerView {
        LoggerView { output_console, ..self }
    }

    /// This configuration with one more module route, after those it has.
    pub open spec fn with_module_log(self, module_key: Seq<char>, log_name: Seq<char>) -> LoggerView {
        LoggerView { module_logs: self.module_logs.push((module_key, log_name)), ..self }
    }

    /// This configuration with one more target excluded from the main sink.
    pub open spec fn with_filter(self, filter: Seq<char>) -> LoggerView {
        LoggerView { filter: self.filter.push(filter), ..self }
    }
}

/// Setting an option again replaces what was set before: after two calls of
/// one setter only the value of the second is left, so it alone reaches the
/// sinks when the logger starts.
pub proof fn lemma_last_value_wins(
    logger: LoggerView,
    text1: Seq<char>,
    text2: Seq<char>,
    flag1: bool,
    flag2: bool,
    size1: u64,
    size2: u64,
    count1: usize,
    count2: usize,
)
    ensures
        logger.with_instance_id(text1).with_instance_id(text2) == logger.with_instance_id(text2),
        logger.with_log_level(text1).with_log_level(text2) == logger.with_log_level(text2),
        logger.with_log_to_file(flag1).with_log_to_file(flag2) == logger.with_log_to_file(flag2),
        logger.with_log_path(text1).with_log_path(text2) == logger.with_log_path(text2),
        logger.with_log_file_size(size1).with_log_file_size(size2) == logger.with_log_file_size(
            size2,
        ),
        logger.with_log_file_count(count1).with_log_file_count(count2)
            == logger.with_log_file_count(count2),
        logger.with_output_console(flag1).with_output_console(flag2) == logger.with_output_console(
            flag2,
        ),
{
}

/// Accumulates the configuration of the process-wide logger.
pub struct Logger {
    app_name: String,
    log_level: String,
    log_to_file: bool,
    log_path: String,
    log_file_size: u64,
    log_file_count: usize,
    instance_id: String,
    output_console: bool,
    filter: Vec<String>,
    module_logs: Vec<(String, String)>,
}

impl View for Logger {
    type V = LoggerView;

    closed spec fn view(&self) -> LoggerView {
        LoggerView {
            app_name: self.app_name@,
            log_level: self.log_level@,
            log_to_file: self.log_to_file,
            log_path: self.log_path@,
            log_file_size: self.log_file_size,
            log_file_count: self.log_file_count,
            instance_id: self.instance_id@,
            output_console: self.output_console,
            filter: self.filter.deep_view(),
            module_logs: self.module_logs.deep_view(),
        }
    }
}

/// The base name of a sink's files: the application name, then the instance
/// id and the stream name, each after an underscore and only if not empty.
pub open spec fn base_name(
    app_name: Seq<char>,
    instance_id: Seq<char>,
    log_name: Seq<char>,
) -> Seq<char> {
    let with_instance = if instance_id.len() == 0 {
        app_name
    } else {
        app_name + seq!['_'] + instance_id
    };
    if log_name.len() == 0 {
        with_instance
    } else {
        with_instance + seq!['_'] + log_name
    }
}

/// The settings of the sink that a configuration gives to the stream `log_name`.
pub open spec fn sink_config(
    logger: LoggerView,
    log_name: Seq<char>,
    filters: Seq<Seq<char>>,
) -> SinkConfigView {
    SinkConfigView {
        level: logger.log_level,
        file: if logger.log_to_file {
            Some(
                FileTargetView {
                    directory: logger.log_path,
                    base_name: base_name(logger.app_name, logger.instance_id, log_name),
                    rotate_size: logger.log_file_size,
                    keep_files: logger.log_file_count,
                },
            )
        } else {
            None
        },
        console: logger.output_console,
        filters,
    }
}

/// The configuration that a new logger starts from.
pub open spec fn initial(app_name: Seq<char>, log_path: Seq<char>) -> LoggerView {
    LoggerView {
        app_name,
        log_level: "info"@,
        log_to_file: false,
        log_path,
        log_file_size: DEFAULT_LOG_FILE_SIZE,
        log_file_count: DEFAULT_LOG_FILE_COUNT,
        instance_id: Seq::empty(),
        output_console: true,
        filter: Seq::empty(),
        module_logs: Seq::empty(),
    }
}

/// The settings of the main sink: the main stream, with the configured filters.
pub open spec fn main_config(logger: LoggerView) -> SinkConfigView {
    sink_config(logger, Seq::empty(), logger.filter)
}

/// The settings of the sink of module route `i`: its own stream, unfiltered.
pub open spec fn module_config(logger: LoggerView, i: int) -> SinkConfigView {
    sink_config(logger, logger.module_logs[i].1, Seq::empty())
}

/// The settings of the `k`-th sink that `start` opens: the main sink first,
/// then the sinks of the module routes in their order.
pub open spec fn nth_config(logger: LoggerView, k: int) -> SinkConfigView {
    if k == 0 {
        main_config(logger)
    } else {
        module_config(logger, k - 1)
    }
}

/// `open` may answer `out` when it is asked for a sink with these settings.
/// What `open` answers is its own business, so a contract can only speak of
/// the answers that its postcondition allows.
pub open spec fn opens<S, F: Fn(&SinkConfig) -> Result<S, LogError>>(
    open: F,
    settings: SinkConfigView,
    out: Result<S, LogError>,
) -> bool {
    exists|config: SinkConfig| #[trigger] call_ensures(open, (&config,), out) && config@ == settings
}

/// `open` gave `sinks`, one after the other, when asked for the first sinks
/// of `logger`: the main sink, then those of the module routes in order.
pub open spec fn opened_all<S, F: Fn(&SinkConfig) -> Result<S, LogError>>(
    open: F,
    logger: LoggerView,
    sinks: Seq<S>,
) -> bool {
    forall|k: int|
        0 <= k < sinks.len() ==> opens(open, nth_config(logger, k), Ok(#[trigger] sinks[k]))
}

impl Logger {
    /// A configuration for the application `app_name` that logs at level
    /// `info` to the console only. Files, once switched on, go to `log_path`.
    pub fn new(app_name: &str, log_path: &str) -> (logger: Self)
        ensures
            logger@ == initial(app_name@, log_path@),
    {
        let logger = Logger {
            app_name: app_name.to_owned(),
            log_level: "info".to_owned(),
            log_to_file: false,
            log_path: log_path.to_owned(),
            log_file_size: DEFAULT_LOG_FILE_SIZE,
            log_file_count: DEFAULT_LOG_FILE_COUNT,
            instance_id: String::new(),
            output_console: true,
            filter: Vec::new(),
            module_logs: Vec::new(),
        };
        assert(logger.filter.deep_view() =~= Seq::empty());
        assert(logger.module_logs.deep_view() =~= Seq::empty());
        logger
    }

    /// Sets the instance id, which file names carry after the application name.
    pub fn set_instance_id(self, instance_id: &str) -> (logger: Self)
        ensures
            logger@ == self@.with_instance_id(instance_id@),
    {
        let mut logger = self;
        logger.instance_id = instance_id.to_owned();
        logger
    }

    /// Sets the instance id to the decimal notation of `process_id`.
    pub fn set_process_id_to_instance_id(self, process_id: u32) -> (logger: Self)
        ensures
            logger@ == self@.with_instance_id(decimal(process_id as nat)),
    {
        let mut logger = self;
        let mut instance_id = String::new();
        append_decimal(&mut instance_id, process_id);
        logger.instance_id = instance_id;
        logger
    }

    /// Sets the minimum level, in the backend's notation. It is not checked here.
    pub fn set_log_level(self, level: &str) -> (logger: Self)
        ensures
            logger@ == self@.with_log_level(level@),
    {
        let mut logger = self;
        logger.log_level = level.to_owned();
        logger
    }

    /// Switches file output on or off.
    pub fn set_log_to_file(self, to_file: bool) -> (logger: Self)
        ensures
            logger@ == self@.with_log_to_file(to_file),
    {
        let mut logger = self;
        logger.log_to_file = to_file;
        logger
    }

    /// Sets the directory of the log files.
    pub fn set_log_path(self, path: &str) -> (logger: Self)
        ensures
            logger@ == self@.with_log_path(path@),
    {
        let mut logger = self;
        logger.log_path = path.to_owned();
        logger
    }

    /// Sets the size in bytes at which a log file is rotated.
    pub fn set_log_file_size(self, size: u64) -> (logger: Self)
        ensures
            logger@ == self@.with_log_file_size(size),
    {
        let mut logger = self;
        logger.log_file_size = size;
        logger
    }

    /// Sets the number of rotated files that are kept.
    pub fn set_log_file_count(self, count: usize) -> (logger: Self)
        ensures
            logger@ == self@.with_log_file_count(count),
    {
        let mut logger = self;
        logger.log_file_count = count;
        logger
    }

    /// Switches the copy of every record to standard error on or off.
    pub fn set_output_to_console(self, output_console: bool) -> (logger: Self)
        ensures
            logger@ == self@.with_output_console(output_console),
    {
        let mut logger = self;
        logger.output_console = output_console;
        logger
    }

    /// Adds a module route: records whose target begins with `module_key`
    /// also go to the stream `log_name`. Routes keep the order of the calls.
    pub fn add_module_log(self, module_key: &str, log_name: &str) -> (logger: Self)
        ensures
            logger@ == self@.with_module_log(module_key@, log_name@),
    {
        let mut logger = self;
        let ghost before = logger.module_logs.deep_view();
        logger.module_logs.push((module_key.to_owned(), log_name.to_owned()));
        assert(logger.module_logs.deep_view() =~= before.push((module_key@, log_name@)));
        logger
    }

    /// Excludes the target `filter` from the main sink.
    pub fn add_filter(self, filter: &str) -> (logger: Self)
        ensures
            logger@ == self@.with_filter(filter@),
    {
        let mut logger = self;
        let ghost before = logger.filter.deep_view();
        logger.filter.push(filter.to_owned());
        assert(logger.filter.deep_view() =~= before.push(filter@));
        logger
    }

    /// The settings of the sink for the stream `log_name`, with `filters` as
    /// its excluded targets. The empty name stands for the main stream.
    pub fn new_log(&self, log_name: &str, filters: Vec<String>) -> (sink: SinkConfig)
        ensures
            sink@ == sink_config(self@, log_name@, filters.deep_view()),
    {
        let file = if self.log_to_file {
            let mut name = self.app_name.clone();
            if !self.instance_id.as_str().is_empty() {
                name.append("_");
                name.append(self.instance_id.as_str());
            }
            if !log_name.is_empty() {
                name.append("_");
                name.append(log_name);
            }
            proof {
                reveal_strlit("_");
                assert("_"@ =~= seq!['_']);
            }
            Some(
                FileTarget {
                    directory: self.log_path.clone(),
                    base_name: name,
                    rotate_size: self.log_file_size,
                    keep_files: self.log_file_count,
                },
            )
        } else {
            None
        };
        SinkConfig { level: self.log_level.clone(), file, console: self.output_console, filters }
    }

    /// Opens the sinks and installs the logger. `open` is asked for the main
    /// sink first, then for the sink of each module route in order; the first
    /// failure ends the start with the error that `open` gave, and no further
    /// sink is asked for. The dispatch table of the opened sinks is then
    /// installed in `registry`, which fails with `AlreadyInitialized` where a
    /// logger is installed already. However the start fails, `registry` is
    /// left as it was: nothing is retried and nothing is installed.
    pub fn start<S, F>(self, registry: &mut LoggerRegistry<S>, open: F) -> (started: Result<
        (),
        LogError,
    >) where F: Fn(&SinkConfig) -> Result<S, LogError>
        requires
            forall|config: &SinkConfig| call_requires(open, (config,)),
        ensures
            match started {
                Ok(()) => {
                    &&& old(registry)@ is None
                    &&& final(registry)@ matches Some(table)
                    &&& table.prefixes() == self@.module_keys()
                    &&& opened_all(open, self@, table.sinks())
                },
                Err(error) => {
                    &&& final(registry)@ == old(registry)@
                    &&& exists|sinks: Seq<S>|
                        {
                            &&& sinks.len() <= self@.module_logs.len() + 1
                            &&& #[trigger] opened_all(open, self@, sinks)
                            &&& if sinks.len() <= self@.module_logs.len() {
                                opens(open, nth_config(self@, sinks.len() as int), Err(error))
                            } else {
                                error == LogError::AlreadyInitialized && old(registry)@ is Some
                            }
                        }
                },
            },
    {
        let ghost mut sinks: Seq<S> = Seq::empty();
        let main_settings = self.new_log("", self.filter.clone());
        proof {
            reveal_strlit("");
            assert(""@ =~= Seq::empty());
            assert(main_settings@ == main_config(self@));
        }
        let main_logger = match open(&main_settings) {
            Ok(sink) => sink,
            Err(error) => {
                proof {
                    assert(opens(open, nth_config(self@, 0), Err::<S, LogError>(error)));
                    assert(opened_all(open, self@, sinks));
                }
                return Err(error);
            },
        };
        proof {
            sinks = sinks.push(main_logger);
        }
        let mut module_loggers: Vec<(String, S)> = Vec::new();
        let mut i: usize = 0;
        while i < self.module_logs.len()
            invariant
                0 <= i <= self.module_logs@.len(),
                forall|config: &SinkConfig| call_requires(open, (config,)),
                module_loggers@.len() == i,
                sinks.len() == i + 1,
                sinks[0] == main_logger,
                forall|j: int| 0 <= j < i ==> sinks[j + 1] == (#[trigger] module_loggers@[j]).1,
                forall|j: int|
                    0 <= j < i ==> (#[trigger] module_loggers@[j]).0@ == self@.module_logs[j].0,
                opened_all(open, self@, sinks),
                *registry == *old(registry),
            decreases self.module_logs@.len() - i,
        {
            let unfiltered: Vec<String> = Vec::new();
            assert(unfiltered.deep_view() =~= Seq::empty());
            let settings = self.new_log(self.module_logs[i].1.as_str(), unfiltered);
            assert(settings@ == module_config(self@, i as int));
            match open(&settings) {
                Ok(sink) => {
                    module_loggers.push((self.module_logs[i].0.clone(), sink));
                    proof {
                        sinks = sinks.push(sink);
                    }
                },
                Err(error) => {
                    proof {
                        assert(opens(
                            open,
                            nth_config(self@, sinks.len() as int),
                            Err::<S, LogError>(error),
                        ));
                    }
                    return Err(error);
                },
            }
            i = i + 1;
        }
        let table = SfoLogger::new(main_logger, module_loggers);
        proof {
            assert(sinks =~= table@.sinks());
        }
        registry.install(table)
    }
}

} // verus!
