//! Asynchronous, size-bounded, self-rotating file sink.
//!
//! The producer half (`FileLogger`) formats enabled events and enqueues them
//! non-blockingly on a bounded channel; on a full channel the line is dropped
//! and reported, never retried. The consumer half
//! (`FileLoggerBackgroundService`) is the single owner of the rotation state:
//! it turns each received message into one `WriterStep` that the hosting
//! writer thread performs on the log file, and it counts lines and decides
//! when the file rotates. The effect of those steps on the two on-disk files
//! is captured by the `FileModel`/`WriterModel` specification and proved of
//! `handle`.
use vstd::prelude::*;
use crate::console_logger::write_stderr;
use crate::registry::{ActiveSink, LoggerError, SinkRegistry};
use crate::{format_log, severity_rank, LogRecord, Severity};

verus! {

/// One unit of transfer across the delivery channel: a formatted line, or an
/// explicit flush request.
pub enum FileLoggerMessage {
    Line(String),
    Flush,
}

/// Mathematical image of a `FileLoggerMessage`: the line as a character
/// sequence, or a flush request.
pub enum MessageModel {
    Line(Seq<char>),
    Flush,
}

impl View for FileLoggerMessage {
    type V = MessageModel;

    open spec fn view(&self) -> MessageModel {
        match self {
            FileLoggerMessage::Line(s) => MessageModel::Line(s@),
            FileLoggerMessage::Flush => MessageModel::Flush,
        }
    }
}

/// Model of the sink's persisted state: the lines of the active log file,
/// the lines of the single `.old` backup if a rotation has happened, how many
/// of the active lines are guaranteed durable (flushed through the buffered
/// handle), and how often the file has rotated.
#[verifier::ext_equal]
pub struct FileModel {
    pub active: Seq<Seq<char>>,
    pub backup: Option<Seq<Seq<char>>>,
    pub synced: nat,
    pub rotations: nat,
}

/// Model of the whole rotation writer: lines written to the active file since
/// the last rotation, the rotation threshold, and the file state.
#[verifier::ext_equal]
pub struct WriterModel {
    pub count: nat,
    pub max: nat,
    pub files: FileModel,
}

/// The writer as constructed: a freshly truncated active file, no backup,
/// nothing written yet.
pub open spec fn writer_init(max: nat) -> WriterModel {
    WriterModel {
        count: 0,
        max,
        files: FileModel { active: Seq::empty(), backup: None, synced: 0, rotations: 0 },
    }
}

/// One transition of the rotation writer. A flush request makes every active
/// line durable and resets nothing. A line first rotates the file when the
/// count strictly exceeds the threshold — so exactly one line past the
/// threshold still lands in the old file — and then appends the line to the
/// (possibly fresh) active file.
pub open spec fn writer_step(s: WriterModel, m: MessageModel) -> WriterModel {
    match m {
        MessageModel::Flush => WriterModel {
            count: s.count,
            max: s.max,
            files: FileModel {
                active: s.files.active,
                backup: s.files.backup,
                synced: s.files.active.len(),
                rotations: s.files.rotations,
            },
        },
        MessageModel::Line(l) => if s.count > s.max {
            WriterModel {
                count: 1,
                max: s.max,
                files: FileModel {
                    active: seq![l],
                    backup: Some(s.files.active),
                    synced: 0,
                    rotations: s.files.rotations + 1,
                },
            }
        } else {
            WriterModel {
                count: s.count + 1,
                max: s.max,
                files: FileModel {
                    active: s.files.active.push(l),
                    backup: s.files.backup,
                    synced: s.files.synced,
                    rotations: s.files.rotations,
                },
            }
        },
    }
}

/// The writer run over a whole sequence of messages, first to last.
pub open spec fn writer_run(s: WriterModel, msgs: Seq<MessageModel>) -> WriterModel
    decreases msgs.len(),
{
    if msgs.len() == 0 {
        s
    } else {
        writer_run(writer_step(s, msgs[0]), msgs.drop_first())
    }
}

/// What the hosting writer thread must do to the log file for one message:
/// flush the buffered handle, or — after rotating first if `rotate` — append
/// one line.
pub enum WriterStep {
    Flush,
    Write { rotate: bool, line: String },
}

/// The effect of performing one `WriterStep` on the persisted files:
/// flushing makes all active lines durable; rotation moves the active lines
/// to the backup and truncates; a write appends the line undurably.
pub open spec fn apply_step(f: FileModel, step: WriterStep) -> FileModel {
    match step {
        WriterStep::Flush => FileModel {
            active: f.active,
            backup: f.backup,
            synced: f.active.len(),
            rotations: f.rotations,
        },
        WriterStep::Write { rotate, line } => if rotate {
            FileModel {
                active: seq![line@],
                backup: Some(f.active),
                synced: 0,
                rotations: f.rotations + 1,
            }
        } else {
            FileModel {
                active: f.active.push(line@),
                backup: f.backup,
                synced: f.synced,
                rotations: f.rotations,
            }
        },
    }
}

/// The given lines, each wrapped as a line message.
pub open spec fn line_messages(lines: Seq<Seq<char>>) -> Seq<MessageModel> {
    lines.map_values(|l: Seq<char>| MessageModel::Line(l))
}

/// Running the writer over a concatenation of two message sequences is
/// running it over the first and then over the second.
pub proof fn lemma_writer_run_append(s: WriterModel, a: Seq<MessageModel>, b: Seq<MessageModel>)
    ensures
        writer_run(s, a + b) == writer_run(writer_run(s, a), b),
    decreases a.len(),
{
    if a.len() == 0 {
        assert(a + b =~= b);
    } else {
        assert((a + b).drop_first() =~= a.drop_first() + b);
        assert((a + b)[0] == a[0]);
        lemma_writer_run_append(writer_step(s, a[0]), a.drop_first(), b);
    }
}

/// Running the writer over a single message is one step.
pub proof fn lemma_writer_run_one(s: WriterModel, m: MessageModel)
    ensures
        writer_run(s, seq![m]) == writer_step(s, m),
{
    let msgs = seq![m];
    assert(msgs[0] == m);
    let t = writer_step(s, m);
    assert(msgs.drop_first().len() == 0);
    assert(writer_run(t, msgs.drop_first()) == t);
    assert(writer_run(s, msgs) == writer_run(writer_step(s, msgs[0]), msgs.drop_first()));
}

/// As long as the line count stays within the threshold plus the one-line
/// overshoot, a run of line messages rotates nothing: it appends the lines
/// to the active file in order and only advances the count.
pub proof fn lemma_lines_without_rotation(s: WriterModel, lines: Seq<Seq<char>>)
    requires
        s.count == s.files.active.len(),
        s.count + lines.len() <= s.max + 1,
    ensures
        ({
            let t = writer_run(s, line_messages(lines));
            &&& t.count == s.count + lines.len()
            &&& t.max == s.max
            &&& t.files.active == s.files.active + lines
            &&& t.files.backup == s.files.backup
            &&& t.files.synced == s.files.synced
            &&& t.files.rotations == s.files.rotations
        }),
    decreases lines.len(),
{
    if lines.len() == 0 {
        assert(line_messages(lines).len() == 0);
        assert(s.files.active + lines =~= s.files.active);
    } else {
        let first = lines[0];
        let rest = lines.drop_first();
        let s1 = writer_step(s, MessageModel::Line(first));
        assert(s1.files.active.len() == s1.count);
        lemma_lines_without_rotation(s1, rest);
        assert(line_messages(lines)[0] == MessageModel::Line(first));
        assert(line_messages(lines).drop_first() =~= line_messages(rest));
        assert(s.files.active.push(first) + rest =~= s.files.active + lines);
    }
}

/// Law: from a fresh writer, any number of lines up to the threshold plus
/// the accepted one-line overshoot lands in the active file, exactly those
/// lines in call order, with no rotation and no backup.
pub proof fn lemma_file_round_trip(max: nat, lines: Seq<Seq<char>>)
    requires
        lines.len() <= max + 1,
    ensures
        ({
            let t = writer_run(writer_init(max), line_messages(lines));
            &&& t.files.active == lines
            &&& t.files.backup is None
            &&& t.files.rotations == 0
            &&& t.count == lines.len()
        }),
{
    lemma_lines_without_rotation(writer_init(max), lines);
    assert(Seq::<Seq<char>>::empty() + lines =~= lines);
}

/// Law: with threshold `max`, the writer admits the one-line overshoot and
/// rotates exactly once when the next line arrives: of `max + 2` lines from
/// a fresh writer, the backup file holds the first `max + 1` in order and
/// the active file holds exactly the line that triggered the rotation.
pub proof fn lemma_rotation_boundary(max: nat, lines: Seq<Seq<char>>)
    requires
        lines.len() == max + 2,
    ensures
        ({
            let t = writer_run(writer_init(max), line_messages(lines));
            &&& t.files.rotations == 1
            &&& t.files.backup == Some(lines.take(max as int + 1))
            &&& t.files.active == seq![lines.last()]
            &&& t.files.synced == 0
            &&& t.count == 1
        }),
{
    let prefix = lines.take(max as int + 1);
    let trigger_line = lines.last();
    let s0 = writer_init(max);
    lemma_lines_without_rotation(s0, prefix);
    assert(Seq::<Seq<char>>::empty() + prefix =~= prefix);
    let mid = writer_run(s0, line_messages(prefix));
    assert(line_messages(lines) =~= line_messages(prefix) + line_messages(seq![trigger_line]));
    lemma_writer_run_append(s0, line_messages(prefix), line_messages(seq![trigger_line]));
    assert(line_messages(seq![trigger_line]) =~= seq![MessageModel::Line(trigger_line)]);
    lemma_writer_run_one(mid, MessageModel::Line(trigger_line));
    assert(mid.count > mid.max);
}

/// Law: a flush request at the end of any run makes every line previously
/// enqueued to the active file durable, and changes no content.
pub proof fn lemma_flush_makes_lines_durable(s: WriterModel, msgs: Seq<MessageModel>)
    ensures
        ({
            let t = writer_run(s, msgs.push(MessageModel::Flush));
            &&& t.files.synced == t.files.active.len()
            &&& t.files.active == writer_run(s, msgs).files.active
            &&& t.files.backup == writer_run(s, msgs).files.backup
        }),
{
    assert(msgs.push(MessageModel::Flush) =~= msgs + seq![MessageModel::Flush]);
    lemma_writer_run_append(s, msgs, seq![MessageModel::Flush]);
    let mid = writer_run(s, msgs);
    lemma_writer_run_one(mid, MessageModel::Flush);
}

/// The consumer half of the file sink: the receive end of the delivery
/// channel and the rotation state. Owned by exactly one writer thread; the
/// file handle itself is held by the code hosting that thread, which performs
/// the `WriterStep`s this service decides.
pub struct FileLoggerBackgroundService {
    pub log_rx: crossbeam::channel::Receiver<FileLoggerMessage>,
    pub log_message_count: usize,
    pub max_count: usize,
    pub file_path: String,
}

impl FileLoggerBackgroundService {
    /// The line counter can always be advanced without overflow.
    pub open spec fn wf(self) -> bool {
        self.max_count < usize::MAX
    }

    /// The service paired with a file state, as a writer model.
    pub open spec fn model(self, files: FileModel) -> WriterModel {
        WriterModel { count: self.log_message_count as nat, max: self.max_count as nat, files }
    }

    /// Blocks this thread until the next control message arrives; `None` once
    /// every producer handle is gone and the channel is drained.
    pub fn receive(&self) -> (m: Option<FileLoggerMessage>) {
        recv_message(&self.log_rx)
    }

    /// The core decision of the rotation writer: advances the rotation state
    /// by one message and returns the file operation to perform. A line
    /// rotates first iff the count strictly exceeds the threshold; a flush
    /// request changes no state. Whatever file state the writer is at, the
    /// step's effect is exactly one `writer_step` of the model.
    pub fn handle(&mut self, msg: FileLoggerMessage) -> (step: WriterStep)
        requires
            old(self).wf(),
        ensures
            final(self).wf(),
            final(self).max_count == old(self).max_count,
            final(self).file_path == old(self).file_path,
            final(self).log_rx == old(self).log_rx,
            forall|f: FileModel|
                writer_step(old(self).model(f), msg@) == final(self).model(
                    #[trigger] apply_step(f, step),
                ),
            msg@ matches MessageModel::Flush ==> step == WriterStep::Flush
                && final(self).log_message_count == old(self).log_message_count,
            msg@ matches MessageModel::Line(l) ==> {
                &&& step matches WriterStep::Write { rotate, line }
                &&& rotate == (old(self).log_message_count > old(self).max_count)
                &&& line@ == l
                &&& final(self).log_message_count == if old(self).log_message_count > old(
                    self,
                ).max_count {
                    1int
                } else {
                    old(self).log_message_count + 1
                }
            },
    {
        match msg {
            FileLoggerMessage::Flush => WriterStep::Flush,
            FileLoggerMessage::Line(line) => {
                let rotate = self.log_message_count > self.max_count;
                if rotate {
                    self.log_message_count = 1;
                } else {
                    self.log_message_count = self.log_message_count + 1;
                }
                WriterStep::Write { rotate, line }
            },
        }
    }
}

/// Why a non-blocking enqueue onto the delivery channel failed: the channel
/// was at capacity, or the consumer is gone.
#[derive(Clone, Copy, PartialEq, Eq, Structural, Debug)]
pub enum SendFailure {
    Full,
    Disconnected,
}

/// The producer half of the file sink: the send end of the delivery channel
/// and the severity filter. Never touches the file itself.
pub struct FileLogger {
    pub max_log_level: Severity,
    pub log_tx: crossbeam::channel::Sender<FileLoggerMessage>,
}

impl FileLogger {
    /// Builds the whole file sink: the bounded delivery channel, the
    /// producer half — which it installs in the registration slot — and the
    /// consumer half, returned for the hosting writer thread to run against
    /// the log file at `config.path`. Succeeds if and only if no sink is
    /// active yet; a failed registration changes nothing.
    pub fn init(config: FileLoggerConfig, registry: &mut SinkRegistry) -> (r: Result<
        FileLoggerBackgroundService,
        LoggerError,
    >)
        requires
            config.max_line_count < usize::MAX,
            config.channel_capacity <= 0x2000_0000,
        ensures
            r.is_ok() <==> old(registry).active is None,
            r matches Ok(svc) ==> {
                &&& svc.wf()
                &&& svc.log_message_count == 0
                &&& svc.max_count == config.max_line_count
                &&& svc.file_path == config.path
                &&& (final(registry).active matches Some(ActiveSink::File(sink))
                    && sink.max_log_level == config.max_log_level)
            },
            r is Err ==> *final(registry) == *old(registry) && r == Err::<
                FileLoggerBackgroundService,
                LoggerError,
            >(LoggerError::AlreadyInitialized),
    {
        if registry.is_initialized() {
            return Err(LoggerError::AlreadyInitialized);
        }
        let (tx, rx) = channel_bounded(config.channel_capacity);
        let logger = FileLogger { max_log_level: config.max_log_level, log_tx: tx };
        let _ = registry.register(ActiveSink::File(logger));
        Ok(
            FileLoggerBackgroundService {
                log_rx: rx,
                log_message_count: 0,
                max_count: config.max_line_count,
                file_path: config.path,
            },
        )
    }

    /// True iff the sink accepts events of this severity: exactly when the
    /// severity is at least as important as the configured maximum.
    pub fn enabled(&self, severity: Severity) -> (r: bool)
        ensures
            r == (severity_rank(severity) <= severity_rank(self.max_log_level)),
    {
        severity.at_most(self.max_log_level)
    }

    /// If the event is enabled, formats it and attempts a non-blocking
    /// enqueue of the line. On failure the line is dropped and a diagnostic
    /// goes to the error stream; the caller is never blocked or failed.
    pub fn log(&self, record: &LogRecord) {
        if self.enabled(record.level) {
            let line = format_log(record);
            match try_send_message(&self.log_tx, FileLoggerMessage::Line(line)) {
                Ok(()) => {
                },
                Err(failure) => report_drop(failure),
            }
        }
    }

    /// Attempts a non-blocking enqueue of a flush request: fire and forget.
    /// Same failure handling as `log`.
    pub fn flush(&self) {
        match try_send_message(&self.log_tx, FileLoggerMessage::Flush) {
            Ok(()) => {
            },
            Err(failure) => report_drop(failure),
        }
    }
}

/// Best-effort diagnostic on the error stream when a message had to be
/// dropped; the originating log call still succeeds from the caller's point
/// of view.
fn report_drop(failure: SendFailure) {
    match failure {
        SendFailure::Full => write_stderr("log channel full; message dropped\n"),
        SendFailure::Disconnected => write_stderr("log channel disconnected; message dropped\n"),
    }
}

/// Configuration of the file sink: severity filter, target path of the
/// active log file, lines per file before rotation, and the capacity of the
/// delivery channel.
pub struct FileLoggerConfig {
    pub max_log_level: Severity,
    pub path: String,
    pub max_line_count: usize,
    pub channel_capacity: usize,
}

impl FileLoggerConfig {
    /// The default configuration for a path: accept up to `Info`, rotate
    /// after 100000 lines, a few thousand channel slots.
    pub fn new(path: String) -> (c: Self)
        ensures
            c.max_log_level == Severity::Info,
            c.path == path,
            c.max_line_count == 100000,
            c.channel_capacity == 4096,
    {
        Self { max_log_level: Severity::Info, path, max_line_count: 100000, channel_capacity: 4096 }
    }
}

#[verifier::external_type_specification]
#[verifier::external_body]
#[verifier::reject_recursive_types(T)]
pub struct ExSender<T>(crossbeam::channel::Sender<T>);

#[verifier::external_type_specification]
#[verifier::external_body]
#[verifier::reject_recursive_types(T)]
pub struct ExReceiver<T>(crossbeam::channel::Receiver<T>);

/// Relies on `crossbeam::channel::bounded`: creates a bounded
/// multi-producer/single-consumer channel pair of the given capacity. It
/// panics only when the capacity is too large to initialize (the slot stamps
/// compute `(cap + 1).next_power_of_two() * 2`), which the bound below keeps
/// well in range on any target.
#[verifier::external_body]
fn channel_bounded(cap: usize) -> (r: (
    crossbeam::channel::Sender<FileLoggerMessage>,
    crossbeam::channel::Receiver<FileLoggerMessage>,
))
    requires
        cap <= 0x2000_0000,
{
    crossbeam::channel::bounded(cap)
}

/// Relies on `crossbeam::channel::Sender::try_send`: either enqueues the
/// message immediately or returns an error — without ever blocking — when
/// the channel is full or the receiver is gone. The message itself is carried
/// back inside crossbeam's error and dropped here: drop-on-full is this
/// sink's policy.
#[verifier::external_body]
fn try_send_message(
    tx: &crossbeam::channel::Sender<FileLoggerMessage>,
    msg: FileLoggerMessage,
) -> (r: Result<(), SendFailure>) {
    match tx.try_send(msg) {
        Ok(()) => Ok(()),
        Err(crossbeam::channel::TrySendError::Full(_)) => Err(SendFailure::Full),
        Err(crossbeam::channel::TrySendError::Disconnected(_)) => Err(SendFailure::Disconnected),
    }
}

/// Relies on `crossbeam::channel::Receiver::recv`: blocks the calling thread
/// until a message arrives, and fails only when the channel is empty and all
/// senders have been dropped.
#[verifier::external_body]
fn recv_message(rx: &crossbeam::channel::Receiver<FileLoggerMessage>) -> (m: Option<
    FileLoggerMessage,
>) {
    match rx.recv() {
        Ok(msg) => Some(msg),
        Err(_) => None,
    }
}

} // verus!
