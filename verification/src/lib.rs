//! Process-wide log sinks: an immediate console sink and an asynchronous,
//! size-bounded, self-rotating file sink.
//!
//! Producers format a log event into a single terminated line and either
//! write it straight to a standard stream (console sink) or enqueue it on a
//! bounded channel for a background rotation writer (file sink).
use vstd::prelude::*;
use vstd::string::StringExecFns;

pub mod console_logger;
pub mod file_logger;
pub mod registry;

use crate::console_logger::{ConsoleLogger, ConsoleLoggerConfig};
use crate::file_logger::{FileLogger, FileLoggerBackgroundService, FileLoggerConfig};
use crate::registry::{ActiveSink, LoggerError, SinkRegistry};

verus! {

/// Severity of a log event, ordered by importance: a lower rank is more
/// important (`Error` < `Warn` < `Info` < `Debug` < `Trace`).
#[derive(Clone, Copy, PartialEq, Eq, Structural, Debug)]
pub enum Severity {
    Error,
    Warn,
    Info,
    Debug,
    Trace,
}

/// Numeric rank of a severity; smaller means more important.
pub open spec fn severity_rank(s: Severity) -> int {
    match s {
        Severity::Error => 1,
        Severity::Warn => 2,
        Severity::Info => 3,
        Severity::Debug => 4,
        Severity::Trace => 5,
    }
}

impl Severity {
    /// Executable counterpart of `severity_rank`.
    pub fn rank(self) -> (r: u32)
        ensures
            r == severity_rank(self),
    {
        match self {
            Severity::Error => 1,
            Severity::Warn => 2,
            Severity::Info => 3,
            Severity::Debug => 4,
            Severity::Trace => 5,
        }
    }

    /// True iff `self` is at least as important as `other`
    /// (ranks compare in the same direction).
    pub fn at_most(self, other: Severity) -> (r: bool)
        ensures
            r == (severity_rank(self) <= severity_rank(other)),
    {
        self.rank() <= other.rank()
    }
}

/// One log event as the sinks see it: a severity and the rendered message
/// text (without a trailing line terminator).
pub struct LogRecord {
    pub level: Severity,
    pub message: String,
}

/// Which kind of sink the service logger is configured to use.
#[derive(Clone, Copy, PartialEq, Eq, Structural, Debug)]
pub enum ServiceLoggerKind {
    ConsoleLogger,
    FileLogger,
}

/// Entry points that pick, build and install a sink.
pub struct ServiceLogger {}

/// The configuration the hosting process gathers from its environment:
/// which sink to use, and for the file sink its path and rotation threshold.
pub struct ServiceLoggerEnv {
    pub log_path: Option<String>,
    pub max_line_count: Option<usize>,
    pub log_kind: ServiceLoggerKind,
}

impl ServiceLoggerEnv {
    /// The decision core of configuring from the environment: chooses the
    /// sink kind, rejects a file configuration without a path, fills in the
    /// default rotation threshold, and installs the sink. On success with a
    /// file sink the consumer half is returned for the hosting writer thread.
    pub fn install(self, registry: &mut SinkRegistry) -> (r: Result<
        Option<FileLoggerBackgroundService>,
        LoggerError,
    >)
        requires
            self.max_line_count matches Some(m) ==> m < usize::MAX,
        ensures
            self.log_kind == ServiceLoggerKind::ConsoleLogger ==> {
                &&& (r.is_ok() <==> old(registry).active is None)
                &&& (r matches Ok(svc) ==> svc is None)
                &&& (r.is_ok() ==> (final(registry).active matches Some(ActiveSink::Console(c))
                    && c.max_log_level == Severity::Info))
                &&& (r is Err ==> *final(registry) == *old(registry) && r == Err::<
                    Option<FileLoggerBackgroundService>,
                    LoggerError,
                >(LoggerError::AlreadyInitialized))
            },
            (self.log_kind == ServiceLoggerKind::FileLogger && self.log_path is None) ==> r
                == Err::<Option<FileLoggerBackgroundService>, LoggerError>(
                LoggerError::MissingLogPath,
            ) && *final(registry) == *old(registry),
            self.log_kind == ServiceLoggerKind::FileLogger ==> (self.log_path matches Some(path)
                ==> {
                &&& (r.is_ok() <==> old(registry).active is None)
                &&& (r matches Ok(svc) ==> (svc matches Some(service)
                    && service.log_message_count == 0 && service.max_count == (
                match self.max_line_count {
                    Some(m) => m as int,
                    None => 100000int,
                }) && service.file_path == path))
                &&& (r.is_ok() ==> (final(registry).active matches Some(ActiveSink::File(sink))
                    && sink.max_log_level == Severity::Info))
                &&& (r is Err ==> *final(registry) == *old(registry) && r == Err::<
                    Option<FileLoggerBackgroundService>,
                    LoggerError,
                >(LoggerError::AlreadyInitialized))
            }),
    {
        match self.log_kind {
            ServiceLoggerKind::ConsoleLogger => {
                match ServiceLogger::init_console(registry) {
                    Ok(()) => Ok(None),
                    Err(e) => Err(e),
                }
            },
            ServiceLoggerKind::FileLogger => {
                match self.log_path {
                    None => Err(LoggerError::MissingLogPath),
                    Some(path) => {
                        match ServiceLogger::init_file(path, self.max_line_count, registry) {
                            Ok(service) => Ok(Some(service)),
                            Err(e) => Err(e),
                        }
                    },
                }
            },
        }
    }
}

impl ServiceLogger {
    /// Installs a console sink with the default configuration.
    pub fn init_console(registry: &mut SinkRegistry) -> (r: Result<(), LoggerError>)
        ensures
            r.is_ok() <==> old(registry).active is None,
            r.is_ok() ==> (final(registry).active matches Some(ActiveSink::Console(c))
                && c.max_log_level == Severity::Info),
            r is Err ==> *final(registry) == *old(registry) && r == Err::<(), LoggerError>(
                LoggerError::AlreadyInitialized,
            ),
    {
        ConsoleLogger::init(ConsoleLoggerConfig::new(), registry)
    }

    /// Installs a file sink for the given path, rotating after the given
    /// line count (100000 when unspecified), and returns the consumer half
    /// for the hosting writer thread.
    pub fn init_file(
        path: String,
        max_line_count: Option<usize>,
        registry: &mut SinkRegistry,
    ) -> (r: Result<FileLoggerBackgroundService, LoggerError>)
        requires
            max_line_count matches Some(m) ==> m < usize::MAX,
        ensures
            r.is_ok() <==> old(registry).active is None,
            r matches Ok(svc) ==> {
                &&& svc.wf()
                &&& svc.log_message_count == 0
                &&& svc.max_count == (match max_line_count {
                    Some(m) => m as int,
                    None => 100000int,
                })
                &&& svc.file_path == path
                &&& (final(registry).active matches Some(ActiveSink::File(sink))
                    && sink.max_log_level == Severity::Info)
            },
            r is Err ==> *final(registry) == *old(registry) && r == Err::<
                FileLoggerBackgroundService,
                LoggerError,
            >(LoggerError::AlreadyInitialized),
    {
        let max: usize = match max_line_count {
            Some(m) => m,
            None => 100000,
        };
        let config = FileLoggerConfig {
            max_log_level: Severity::Info,
            path,
            max_line_count: max,
            channel_capacity: 4096,
        };
        FileLogger::init(config, registry)
    }
}

/// Renders one log event to a single line: the message followed by exactly
/// one line terminator.
pub fn format_log(record: &LogRecord) -> (r: String)
    ensures
        r@ == record.message@.push('\n'),
{
    let mut line = record.message.clone();
    line.append("\n");
    proof {
        reveal_strlit("\n");
        assert(line@ =~= record.message@.push('\n'));
    }
    line
}

} // verus!
