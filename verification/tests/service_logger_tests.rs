use service_logger::console_logger::{
    console_stream_for, ConsoleLogger, ConsoleLoggerConfig, ConsoleStream,
};
use service_logger::file_logger::{
    FileLogger, FileLoggerBackgroundService, FileLoggerConfig, FileLoggerMessage, WriterStep,
};
use service_logger::registry::{ActiveSink, LoggerError, SinkRegistry};
use service_logger::{
    format_log, LogRecord, ServiceLogger, ServiceLoggerEnv, ServiceLoggerKind, Severity,
};

fn record(level: Severity, message: &str) -> LogRecord {
    LogRecord {
        level,
        message: message.to_string(),
    }
}

/// An in-memory stand-in for the two on-disk files, driven by the steps the
/// background service decides.
struct SimFiles {
    active: Vec<String>,
    backup: Option<Vec<String>>,
    synced: usize,
    rotations: usize,
}

impl SimFiles {
    fn new() -> Self {
        SimFiles {
            active: Vec::new(),
            backup: None,
            synced: 0,
            rotations: 0,
        }
    }

    fn apply(&mut self, step: WriterStep) {
        match step {
            WriterStep::Flush => {
                self.synced = self.active.len();
            }
            WriterStep::Write { rotate, line } => {
                if rotate {
                    self.backup = Some(std::mem::take(&mut self.active));
                    self.synced = 0;
                    self.rotations += 1;
                }
                self.active.push(line);
            }
        }
    }
}

fn file_sink_parts(
    max_line_count: usize,
    channel_capacity: usize,
) -> (SinkRegistry, FileLoggerBackgroundService) {
    let mut registry = SinkRegistry::new();
    let config = FileLoggerConfig {
        max_log_level: Severity::Info,
        path: "app.log".to_string(),
        max_line_count,
        channel_capacity,
    };
    let service = FileLogger::init(config, &mut registry).unwrap();
    (registry, service)
}

fn drain(service: &FileLoggerBackgroundService) -> Vec<FileLoggerMessage> {
    let mut messages = Vec::new();
    while let Some(message) = service.receive() {
        messages.push(message);
    }
    messages
}

#[test]
fn console_enabled_matches_severity_order() {
    let sink = ConsoleLogger {
        max_log_level: Severity::Info,
    };
    assert!(sink.enabled(Severity::Error));
    assert!(sink.enabled(Severity::Warn));
    assert!(sink.enabled(Severity::Info));
    assert!(!sink.enabled(Severity::Debug));
    assert!(!sink.enabled(Severity::Trace));

    let strict = ConsoleLogger {
        max_log_level: Severity::Error,
    };
    assert!(strict.enabled(Severity::Error));
    assert!(!strict.enabled(Severity::Warn));

    let verbose = ConsoleLogger {
        max_log_level: Severity::Trace,
    };
    assert!(verbose.enabled(Severity::Trace));
    assert!(verbose.enabled(Severity::Error));
}

#[test]
fn file_sink_enabled_matches_severity_order() {
    let (registry, _service) = file_sink_parts(100, 16);
    assert!(registry.enabled(Severity::Error));
    assert!(registry.enabled(Severity::Warn));
    assert!(registry.enabled(Severity::Info));
    assert!(!registry.enabled(Severity::Debug));
    assert!(!registry.enabled(Severity::Trace));
    match &registry.active {
        Some(ActiveSink::File(sink)) => {
            assert!(sink.enabled(Severity::Info));
            assert!(!sink.enabled(Severity::Debug));
        }
        _ => panic!("file sink expected"),
    }
}

#[test]
fn console_stream_choice_by_severity() {
    assert_eq!(console_stream_for(Severity::Error), ConsoleStream::Stderr);
    assert_eq!(console_stream_for(Severity::Warn), ConsoleStream::Stdout);
    assert_eq!(console_stream_for(Severity::Info), ConsoleStream::Stdout);
    assert_eq!(console_stream_for(Severity::Debug), ConsoleStream::Stdout);
    assert_eq!(console_stream_for(Severity::Trace), ConsoleStream::Stdout);
}

#[test]
fn format_log_appends_exactly_one_terminator() {
    let line = format_log(&record(Severity::Info, "hello world"));
    assert_eq!(line, "hello world\n");
    let empty = format_log(&record(Severity::Warn, ""));
    assert_eq!(empty, "\n");
}

#[test]
fn round_trip_within_threshold_keeps_order() {
    let (_registry, mut service) = file_sink_parts(10, 16);
    let mut sim = SimFiles::new();
    let lines = ["first", "second", "third"];
    for text in lines {
        let step = service.handle(FileLoggerMessage::Line(format!("{}\n", text)));
        sim.apply(step);
    }
    assert_eq!(sim.rotations, 0);
    assert!(sim.backup.is_none());
    assert_eq!(sim.active, vec!["first\n", "second\n", "third\n"]);
    assert_eq!(service.log_message_count, 3);
}

#[test]
fn rotation_happens_one_line_past_threshold() {
    let threshold = 2;
    let (_registry, mut service) = file_sink_parts(threshold, 16);
    let mut sim = SimFiles::new();
    for i in 1..=threshold + 2 {
        let step = service.handle(FileLoggerMessage::Line(format!("line {}\n", i)));
        if i <= threshold + 1 {
            // the overshoot line still lands in the old file: no rotation yet
            assert!(matches!(step, WriterStep::Write { rotate: false, .. }));
        } else {
            assert!(matches!(step, WriterStep::Write { rotate: true, .. }));
        }
        sim.apply(step);
    }
    assert_eq!(sim.rotations, 1);
    assert_eq!(
        sim.backup,
        Some(vec![
            "line 1\n".to_string(),
            "line 2\n".to_string(),
            "line 3\n".to_string(),
        ])
    );
    assert_eq!(sim.active, vec!["line 4\n"]);
    assert_eq!(service.log_message_count, 1);
}

#[test]
fn backpressure_drops_excess_messages_without_failing_caller() {
    let (registry, service) = file_sink_parts(100, 2);
    for i in 0..5 {
        // never blocks and never fails the caller, even beyond capacity
        registry.log(&record(Severity::Info, &format!("burst {}", i)));
    }
    drop(registry);
    let messages = drain(&service);
    let delivered = messages
        .iter()
        .filter(|m| matches!(m, FileLoggerMessage::Line(_)))
        .count();
    assert_eq!(delivered, 2);
    assert!(delivered < 5);
}

#[test]
fn flush_request_makes_enqueued_lines_durable() {
    let (registry, mut service) = file_sink_parts(100, 16);
    registry.log(&record(Severity::Info, "one"));
    registry.log(&record(Severity::Info, "two"));
    registry.flush();
    drop(registry);
    let mut sim = SimFiles::new();
    for message in drain(&service) {
        let count_before = service.log_message_count;
        let is_flush = matches!(message, FileLoggerMessage::Flush);
        let step = service.handle(message);
        if is_flush {
            assert!(matches!(step, WriterStep::Flush));
            assert_eq!(service.log_message_count, count_before);
        }
        sim.apply(step);
    }
    assert_eq!(sim.active, vec!["one\n", "two\n"]);
    assert_eq!(sim.synced, 2);
    assert_eq!(sim.rotations, 0);
}

#[test]
fn disabled_events_are_not_enqueued() {
    let (registry, service) = file_sink_parts(100, 16);
    registry.log(&record(Severity::Debug, "too chatty"));
    registry.log(&record(Severity::Trace, "even chattier"));
    registry.log(&record(Severity::Error, "kept"));
    drop(registry);
    let messages = drain(&service);
    assert_eq!(messages.len(), 1);
    assert!(matches!(&messages[0], FileLoggerMessage::Line(l) if l == "kept\n"));
}

#[test]
fn second_registration_fails_and_keeps_first_sink() {
    let mut registry = SinkRegistry::new();
    assert!(ServiceLogger::init_console(&mut registry).is_ok());
    assert_eq!(
        ServiceLogger::init_console(&mut registry),
        Err(LoggerError::AlreadyInitialized)
    );
    let again = ServiceLogger::init_file("app.log".to_string(), None, &mut registry);
    assert!(matches!(again, Err(LoggerError::AlreadyInitialized)));
    // the first sink is still installed and fully functional
    assert!(matches!(&registry.active, Some(ActiveSink::Console(_))));
    assert!(registry.enabled(Severity::Info));
    assert!(!registry.enabled(Severity::Debug));
    registry.log(&record(Severity::Info, "still routed"));
    registry.flush();
}

#[test]
fn disconnected_channel_never_fails_the_caller() {
    let (registry, service) = file_sink_parts(100, 16);
    drop(service);
    // the consumer is gone: the line and the flush are dropped with a
    // diagnostic, and the calls still return normally
    registry.log(&record(Severity::Error, "nobody listens"));
    registry.flush();
}

#[test]
fn config_defaults_match_documented_values() {
    let console = ConsoleLoggerConfig::new();
    assert_eq!(console.max_log_level, Severity::Info);
    assert_eq!(ConsoleLoggerConfig::default().max_log_level, Severity::Info);
    let file = FileLoggerConfig::new("app.log".to_string());
    assert_eq!(file.max_log_level, Severity::Info);
    assert_eq!(file.path, "app.log");
    assert_eq!(file.max_line_count, 100000);
    assert_eq!(file.channel_capacity, 4096);
}

#[test]
fn install_follows_environment_decisions() {
    let mut registry = SinkRegistry::new();
    let console_env = ServiceLoggerEnv {
        log_path: None,
        max_line_count: None,
        log_kind: ServiceLoggerKind::ConsoleLogger,
    };
    assert!(matches!(console_env.install(&mut registry), Ok(None)));
    assert!(matches!(&registry.active, Some(ActiveSink::Console(_))));

    let mut second = SinkRegistry::new();
    let missing_path = ServiceLoggerEnv {
        log_path: None,
        max_line_count: Some(50),
        log_kind: ServiceLoggerKind::FileLogger,
    };
    assert!(matches!(
        missing_path.install(&mut second),
        Err(LoggerError::MissingLogPath)
    ));
    assert!(second.active.is_none());

    let file_env = ServiceLoggerEnv {
        log_path: Some("app.log".to_string()),
        max_line_count: None,
        log_kind: ServiceLoggerKind::FileLogger,
    };
    match file_env.install(&mut second) {
        Ok(Some(service)) => {
            assert_eq!(service.log_message_count, 0);
            assert_eq!(service.max_count, 100000);
            assert_eq!(service.file_path, "app.log");
        }
        _ => panic!("a file sink with its background service was expected"),
    }
}
