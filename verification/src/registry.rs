//! The process-wide registration slot: a single-assignment, set-once
//! read-many slot holding the active sink. Registering a second sink fails
//! cleanly with an already-initialized error and leaves the first sink
//! untouched. The hosting process owns one instance of this slot and routes
//! leveled log calls through it.
use vstd::prelude::*;
use crate::console_logger::ConsoleLogger;
use crate::file_logger::FileLogger;
use crate::{severity_rank, LogRecord, Severity};

verus! {

/// The failures of the logging facade that are surfaced to the caller.
#[derive(Clone, Copy, PartialEq, Eq, Structural, Debug)]
pub enum LoggerError {
    /// A sink is already active; registration of a second one is refused.
    AlreadyInitialized,
    /// A file sink was requested without a path to log to.
    MissingLogPath,
}

/// The sink installed as the process-wide receiver of log events.
pub enum ActiveSink {
    Console(ConsoleLogger),
    File(FileLogger),
}

impl ActiveSink {
    /// The severity filter of whichever sink is installed.
    pub open spec fn spec_max_level(self) -> Severity {
        match self {
            ActiveSink::Console(c) => c.max_log_level,
            ActiveSink::File(f) => f.max_log_level,
        }
    }

    /// True iff the installed sink accepts events of this severity.
    pub fn enabled(&self, severity: Severity) -> (r: bool)
        ensures
            r == (severity_rank(severity) <= severity_rank(self.spec_max_level())),
    {
        match self {
            ActiveSink::Console(c) => c.enabled(severity),
            ActiveSink::File(f) => f.enabled(severity),
        }
    }

    /// Routes one event to the installed sink.
    pub fn log(&self, record: &LogRecord) {
        match self {
            ActiveSink::Console(c) => c.log(record),
            ActiveSink::File(f) => f.log(record),
        }
    }

    /// Routes a flush request to the installed sink.
    pub fn flush(&self) {
        match self {
            ActiveSink::Console(c) => c.flush(),
            ActiveSink::File(f) => f.flush(),
        }
    }
}

/// What registering a sink does to the slot: an empty slot takes the sink
/// and reports success; an occupied slot is left exactly as it is and the
/// attempt fails as already initialized.
pub open spec fn register_transition(active: Option<ActiveSink>, sink: ActiveSink) -> (
    Option<ActiveSink>,
    Result<(), LoggerError>,
) {
    match active {
        None => (Some(sink), Ok(())),
        Some(_) => (active, Err(LoggerError::AlreadyInitialized)),
    }
}

/// The single-assignment registration slot.
pub struct SinkRegistry {
    pub active: Option<ActiveSink>,
}

impl SinkRegistry {
    /// A fresh slot with no active sink.
    pub fn new() -> (r: Self)
        ensures
            r.active is None,
    {
        SinkRegistry { active: None }
    }

    /// True iff a sink is already active.
    pub fn is_initialized(&self) -> (r: bool)
        ensures
            r == (self.active is Some),
    {
        match &self.active {
            Some(_) => true,
            None => false,
        }
    }

    /// Installs a sink if and only if none is active yet; a second
    /// registration fails with `AlreadyInitialized` and changes nothing.
    pub fn register(&mut self, sink: ActiveSink) -> (r: Result<(), LoggerError>)
        ensures
            (final(self).active, r) == register_transition(old(self).active, sink),
            r.is_ok() <==> old(self).active is None,
            r.is_ok() ==> final(self).active == Some(sink),
            r is Err ==> *final(self) == *old(self) && r == Err::<(), LoggerError>(
                LoggerError::AlreadyInitialized,
            ),
    {
        match &self.active {
            None => {
                self.active = Some(sink);
                Ok(())
            },
            Some(_) => Err(LoggerError::AlreadyInitialized),
        }
    }

    /// True iff the active sink, if any, accepts events of this severity;
    /// with no sink installed nothing is accepted.
    pub fn enabled(&self, severity: Severity) -> (r: bool)
        ensures
            self.active is None ==> r == false,
            self.active matches Some(sink) ==> r == (severity_rank(severity) <= severity_rank(
                sink.spec_max_level(),
            )),
    {
        match &self.active {
            None => false,
            Some(sink) => sink.enabled(severity),
        }
    }

    /// Routes one event to the active sink; without one the event is
    /// discarded.
    pub fn log(&self, record: &LogRecord) {
        match &self.active {
            None => {
            },
            Some(sink) => sink.log(record),
        }
    }

    /// Routes a flush request to the active sink.
    pub fn flush(&self) {
        match &self.active {
            None => {
            },
            Some(sink) => sink.flush(),
        }
    }
}

/// Law: once a first sink is registered in an empty slot, registering any
/// second sink fails with the already-initialized error, and the slot still
/// holds the first sink, fully intact.
pub proof fn lemma_second_registration_rejected(first: ActiveSink, second: ActiveSink)
    ensures
        ({
            let (slot1, r1) = register_transition(None, first);
            let (slot2, r2) = register_transition(slot1, second);
            &&& r1 == Ok::<(), LoggerError>(())
            &&& slot1 == Some(first)
            &&& r2 == Err::<(), LoggerError>(LoggerError::AlreadyInitialized)
            &&& slot2 == Some(first)
        }),
{
}

} // verus!
