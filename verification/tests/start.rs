use std::cell::RefCell;

use sfo_log::{FileTarget, LogError, Logger, LoggerRegistry, SfoLogger, SinkConfig, SinkId};

/// Stands for an opened sink: it remembers the settings it was opened with.
#[derive(Debug, PartialEq)]
struct OpenedSink {
    config: SinkConfig,
}

fn open_any(config: &SinkConfig) -> Result<OpenedSink, LogError> {
    Ok(OpenedSink { config: config.clone() })
}

fn sink_of<'a>(table: &'a SfoLogger<OpenedSink>, id: SinkId) -> &'a OpenedSink {
    table.sink(id).expect("the table holds the sink")
}

#[test]
fn start_installs_a_table_of_the_opened_sinks() {
    let mut registry = LoggerRegistry::new();
    let logger = Logger::new("svc", "/logs")
        .set_log_to_file(true)
        .add_filter("noisy")
        .add_module_log("db", "database")
        .add_module_log("net", "network");
    assert_eq!(logger.start(&mut registry, open_any), Ok(()));
    assert!(registry.is_initialized());
    let table = registry.logger().expect("a logger is installed");
    assert_eq!(table.module_count(), 2);
    assert_eq!(table.log("db.pool"), vec![SinkId::Module(0), SinkId::Main]);
    assert_eq!(table.log("net.tcp"), vec![SinkId::Module(1), SinkId::Main]);
    assert_eq!(table.log("other"), vec![SinkId::Main]);
    let file = |base_name: &str| {
        Some(FileTarget {
            directory: "/logs".to_string(),
            base_name: base_name.to_string(),
            rotate_size: 10485760,
            keep_files: 10,
        })
    };
    assert_eq!(
        sink_of(table, SinkId::Main).config,
        SinkConfig {
            level: "info".to_string(),
            file: file("svc"),
            console: true,
            filters: vec!["noisy".to_string()],
        }
    );
    assert_eq!(
        sink_of(table, SinkId::Module(0)).config,
        SinkConfig { level: "info".to_string(), file: file("svc_database"), console: true, filters: vec![] }
    );
    assert_eq!(
        sink_of(table, SinkId::Module(1)).config,
        SinkConfig { level: "info".to_string(), file: file("svc_network"), console: true, filters: vec![] }
    );
}

#[test]
fn start_opens_the_main_sink_first_then_the_module_sinks_in_order() {
    let opened = RefCell::new(Vec::new());
    let mut registry = LoggerRegistry::new();
    let logger = Logger::new("svc", "/logs")
        .set_log_to_file(true)
        .add_module_log("b", "second")
        .add_module_log("a", "first");
    let started = logger.start(&mut registry, |config: &SinkConfig| {
        opened.borrow_mut().push(config.file.as_ref().unwrap().base_name.clone());
        open_any(config)
    });
    assert_eq!(started, Ok(()));
    assert_eq!(*opened.borrow(), vec!["svc", "svc_second", "svc_first"]);
}

#[test]
fn module_sinks_are_opened_without_the_filters_of_the_main_sink() {
    let seen = RefCell::new(Vec::new());
    let mut registry = LoggerRegistry::new();
    let logger = Logger::new("svc", "/logs")
        .add_filter("noisy")
        .add_filter("chatty")
        .add_module_log("db", "database");
    let started = logger.start(&mut registry, |config: &SinkConfig| {
        seen.borrow_mut().push(config.filters.clone());
        open_any(config)
    });
    assert_eq!(started, Ok(()));
    assert_eq!(
        *seen.borrow(),
        vec![vec!["noisy".to_string(), "chatty".to_string()], Vec::<String>::new()]
    );
}

#[test]
fn last_value_of_a_setter_is_in_effect_at_start() {
    let seen = RefCell::new(Vec::new());
    let mut registry = LoggerRegistry::new();
    let logger = Logger::new("svc", "/logs")
        .set_log_level("debug")
        .set_output_to_console(true)
        .add_module_log("db", "database")
        .set_log_level("error")
        .set_output_to_console(false);
    let started = logger.start(&mut registry, |config: &SinkConfig| {
        seen.borrow_mut().push((config.level.clone(), config.console));
        open_any(config)
    });
    assert_eq!(started, Ok(()));
    assert_eq!(*seen.borrow(), vec![("error".to_string(), false), ("error".to_string(), false)]);
}

#[test]
fn invalid_level_fails_the_start_and_installs_nothing() {
    let mut registry: LoggerRegistry<OpenedSink> = LoggerRegistry::new();
    let logger = Logger::new("svc", "/logs").set_log_level("loud").add_module_log("db", "database");
    let started = logger.start(&mut registry, |config: &SinkConfig| {
        if config.level == "loud" {
            Err(LogError::InvalidLevel)
        } else {
            open_any(config)
        }
    });
    assert_eq!(started, Err(LogError::InvalidLevel));
    assert!(!registry.is_initialized());
    assert!(registry.logger().is_none());
}

#[test]
fn failure_to_create_a_file_fails_the_start_and_installs_nothing() {
    let mut registry: LoggerRegistry<OpenedSink> = LoggerRegistry::new();
    let logger = Logger::new("svc", "/read-only").set_log_to_file(true);
    let started = logger.start(&mut registry, |_config: &SinkConfig| Err(LogError::Output));
    assert_eq!(started, Err(LogError::Output));
    assert!(!registry.is_initialized());
}

#[test]
fn first_sink_that_fails_ends_the_start() {
    let asked = RefCell::new(Vec::new());
    let mut registry: LoggerRegistry<OpenedSink> = LoggerRegistry::new();
    let logger = Logger::new("svc", "/logs")
        .set_log_to_file(true)
        .add_module_log("a", "one")
        .add_module_log("b", "two")
        .add_module_log("c", "three");
    let started = logger.start(&mut registry, |config: &SinkConfig| {
        let name = config.file.as_ref().unwrap().base_name.clone();
        asked.borrow_mut().push(name.clone());
        if name == "svc_two" {
            Err(LogError::Output)
        } else {
            open_any(config)
        }
    });
    assert_eq!(started, Err(LogError::Output));
    assert_eq!(*asked.borrow(), vec!["svc", "svc_one", "svc_two"]);
    assert!(!registry.is_initialized());
}

#[test]
fn second_start_fails_and_the_first_logger_stays_installed() {
    let mut registry = LoggerRegistry::new();
    let first = Logger::new("first", "/logs").set_log_to_file(true).add_module_log("db", "database");
    assert_eq!(first.start(&mut registry, open_any), Ok(()));
    let second = Logger::new("second", "/logs").set_log_to_file(true);
    assert_eq!(second.start(&mut registry, open_any), Err(LogError::AlreadyInitialized));
    let table = registry.logger().expect("the first logger is still installed");
    assert_eq!(table.module_count(), 1);
    assert_eq!(sink_of(table, SinkId::Main).config.file.as_ref().unwrap().base_name, "first");
    assert_eq!(table.log("db.pool"), vec![SinkId::Module(0), SinkId::Main]);
}

#[test]
fn second_start_opens_its_sinks_before_it_is_refused() {
    let asked = RefCell::new(0u32);
    let mut registry = LoggerRegistry::new();
    assert_eq!(Logger::new("first", "/logs").start(&mut registry, open_any), Ok(()));
    let second = Logger::new("second", "/logs").add_module_log("db", "database");
    let started = second.start(&mut registry, |config: &SinkConfig| {
        *asked.borrow_mut() += 1;
        open_any(config)
    });
    assert_eq!(started, Err(LogError::AlreadyInitialized));
    assert_eq!(*asked.borrow(), 2);
}

#[test]
fn sink_failure_is_reported_before_the_installed_logger_is_noticed() {
    let mut registry = LoggerRegistry::new();
    assert_eq!(Logger::new("first", "/logs").start(&mut registry, open_any), Ok(()));
    let second = Logger::new("second", "/logs").set_log_level("loud");
    let started =
        second.start(&mut registry, |_config: &SinkConfig| Err::<OpenedSink, _>(LogError::InvalidLevel));
    assert_eq!(started, Err(LogError::InvalidLevel));
    assert!(registry.is_initialized());
}

#[test]
fn registry_takes_one_table_and_refuses_the_next() {
    let mut registry: LoggerRegistry<u8> = LoggerRegistry::new();
    assert!(!registry.is_initialized());
    assert!(registry.logger().is_none());
    assert_eq!(registry.install(SfoLogger::new(1, vec![])), Ok(()));
    assert!(registry.is_initialized());
    assert_eq!(
        registry.install(SfoLogger::new(2, vec![("db".to_string(), 3)])),
        Err(LogError::AlreadyInitialized)
    );
    let table = registry.logger().expect("the first table stays");
    assert_eq!(table.sink(SinkId::Main), Some(&1));
    assert_eq!(table.module_count(), 0);
}

#[test]
fn module_route_cannot_admit_what_the_main_sink_rejects() {
    // Each sink accepts the severities up to its own threshold; the module
    // sink is the more permissive one.
    struct Threshold {
        max_severity: u8,
        received: RefCell<Vec<String>>,
    }
    let table = SfoLogger::new(
        Threshold { max_severity: 2, received: RefCell::new(vec![]) },
        vec![("db".to_string(), Threshold { max_severity: 5, received: RefCell::new(vec![]) })],
    );
    for (severity, message) in [(1u8, "error"), (2, "warn"), (3, "info"), (5, "trace")] {
        if table.enabled(|sink: &Threshold| severity <= sink.max_severity) {
            for id in table.log("db.pool") {
                table.sink(id).unwrap().received.borrow_mut().push(message.to_string());
            }
        }
    }
    let main = table.sink(SinkId::Main).unwrap();
    let module = table.sink(SinkId::Module(0)).unwrap();
    assert_eq!(*main.received.borrow(), vec!["error", "warn"]);
    assert_eq!(*module.received.borrow(), vec!["error", "warn"]);
}
