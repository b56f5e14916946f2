//! Synchronous console sink: enabled events are formatted and written
//! immediately to standard output, or to standard error for the most severe
//! events. No buffering, no rotation.
use vstd::prelude::*;
use crate::registry::{ActiveSink, LoggerError, SinkRegistry};
use crate::{format_log, severity_rank, LogRecord, Severity};

verus! {

/// Configuration of the console sink: the least important severity it
/// still accepts.
pub struct ConsoleLoggerConfig {
    pub max_log_level: Severity,
}

impl ConsoleLoggerConfig {
    /// The default configuration: accept events up to `Info`.
    pub fn new() -> (c: Self)
        ensures
            c.max_log_level == Severity::Info,
    {
        Self { max_log_level: Severity::Info }
    }
}

impl Default for ConsoleLoggerConfig {
    fn default() -> (c: Self)
        ensures
            c.max_log_level == Severity::Info,
    {
        Self::new()
    }
}

/// The immediate console sink.
pub struct ConsoleLogger {
    pub max_log_level: Severity,
}

/// Which standard stream a console line is written to.
#[derive(Clone, Copy, PartialEq, Eq, Structural, Debug)]
pub enum ConsoleStream {
    Stdout,
    Stderr,
}

/// Chooses the stream for an event: the error stream for `Error` (nothing is
/// more severe), the standard output stream for everything else.
pub fn console_stream_for(severity: Severity) -> (s: ConsoleStream)
    ensures
        (s == ConsoleStream::Stderr) <==> severity_rank(severity) <= severity_rank(
            Severity::Error,
        ),
        (s == ConsoleStream::Stdout) <==> severity_rank(severity) > severity_rank(
            Severity::Error,
        ),
{
    if severity.at_most(Severity::Error) {
        ConsoleStream::Stderr
    } else {
        ConsoleStream::Stdout
    }
}

impl ConsoleLogger {
    /// Builds the console sink from its configuration and installs it in the
    /// registration slot. Succeeds if and only if no sink is active yet; a
    /// failed registration leaves the slot untouched.
    pub fn init(config: ConsoleLoggerConfig, registry: &mut SinkRegistry) -> (r: Result<
        (),
        LoggerError,
    >)
        ensures
            r.is_ok() <==> old(registry).active is None,
            r.is_ok() ==> (final(registry).active matches Some(ActiveSink::Console(c))
                && c.max_log_level == config.max_log_level),
            r is Err ==> *final(registry) == *old(registry) && r == Err::<(), LoggerError>(
                LoggerError::AlreadyInitialized,
            ),
    {
        let logger = ConsoleLogger { max_log_level: config.max_log_level };
        registry.register(ActiveSink::Console(logger))
    }

    /// True iff the sink accepts events of this severity: exactly when the
    /// severity is at least as important as the configured maximum.
    pub fn enabled(&self, severity: Severity) -> (r: bool)
        ensures
            r == (severity_rank(severity) <= severity_rank(self.max_log_level)),
    {
        severity.at_most(self.max_log_level)
    }

    /// If the event is enabled, formats it and writes the line synchronously
    /// to the stream `console_stream_for` picks. Immediate, unbuffered I/O;
    /// nothing is queued and nothing rotates.
    pub fn log(&self, record: &LogRecord) {
        if self.enabled(record.level) {
            let line = format_log(record);
            match console_stream_for(record.level) {
                ConsoleStream::Stderr => write_stderr(line.as_str()),
                ConsoleStream::Stdout => write_stdout(line.as_str()),
            }
        }
    }

    /// No-op: the console streams are written unbuffered by design.
    pub fn flush(&self) {
    }
}

/// Relies on `std::io::Write::write_all` on the standard output handle:
/// writes the whole string to standard output. Best effort; an I/O error is
/// ignored, as console logging has no failure path back to the caller.
#[verifier::external_body]
pub(crate) fn write_stdout(s: &str) {
    let _ = std::io::Write::write_all(&mut std::io::stdout(), s.as_bytes());
}

/// Relies on `std::io::Write::write_all` on the standard error handle:
/// writes the whole string to standard error. Best effort; an I/O error is
/// ignored.
#[verifier::external_body]
pub(crate) fn write_stderr(s: &str) {
    let _ = std::io::Write::write_all(&mut std::io::stderr(), s.as_bytes());
}

} // verus!
