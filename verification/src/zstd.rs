//! The zstd adapter: one run of `zstd` on one input, with live progress.
//!
//! The adapter decides; its caller acts. Each step names the one thing to do
//! next, and the caller answers with what came of it. While `zstd` runs, its
//! diagnostic stream is read chunk by chunk and every line of it is reported.

use crate::backend::Backend;
use crate::error::{outcome_view, ErrorDetail, ErrorKind, ErrorView};
use crate::event::{event_views, CompressionEvent, EventView};
use crate::naming::{artifact_path, make_artifact_path};
use crate::process::{exit_code_text, push_exit_code, ExitReport, Invocation, InvocationView};
use crate::progress::{
    after_bytes, after_end, events_of_bytes, line_event, ProgressTracker, ProgressView,
};
use crate::text::{joined, texts};
use crate::timestamp::{get_timestamp, is_timestamp, lemma_epoch_is_timestamp};
use vstd::prelude::*;

verus! {

/// How far a run has come.
#[derive(Clone, Copy, Debug, PartialEq, Eq, Structural)]
pub enum ZstdPhase {
    /// Asked whether the input exists.
    CheckingInput,
    /// Asked whether the output directory exists.
    CheckingOutput,
    /// Asked to start the process.
    Spawning,
    /// Asked for the next chunk of the diagnostic stream.
    Reading,
    /// Asked to read the standard output to its end.
    Draining,
    /// Asked to wait for the process to end.
    Waiting,
    /// The result has been handed out.
    Finished,
}

/// What the caller is asked to do next.
#[derive(Debug, PartialEq, Eq)]
pub enum ZstdCommand {
    /// Find out whether this path exists.
    CheckExists(String),
    /// Start this command with both of its output streams piped.
    Spawn(Invocation),
    /// Read the next chunk of the diagnostic stream.
    ReadStderr,
    /// Read the standard output to its end and discard it.
    DrainStdout,
    /// Wait for the process to end.
    Wait,
    /// Nothing more: the run has ended with this result.
    Done(Result<(), ErrorDetail>),
}

/// What the contracts say of a `ZstdCommand`.
pub enum ZstdCommandView {
    CheckExists(Seq<char>),
    Spawn(InvocationView),
    ReadStderr,
    DrainStdout,
    Wait,
    Done(Result<(), ErrorView>),
}

impl View for ZstdCommand {
    type V = ZstdCommandView;

    open spec fn view(&self) -> ZstdCommandView {
        match self {
            ZstdCommand::CheckExists(path) => ZstdCommandView::CheckExists(path@),
            ZstdCommand::Spawn(invocation) => ZstdCommandView::Spawn(invocation@),
            ZstdCommand::ReadStderr => ZstdCommandView::ReadStderr,
            ZstdCommand::DrainStdout => ZstdCommandView::DrainStdout,
            ZstdCommand::Wait => ZstdCommandView::Wait,
            ZstdCommand::Done(result) => ZstdCommandView::Done(outcome_view(*result)),
        }
    }
}

/// What came of the last command.
#[derive(Debug, PartialEq, Eq)]
pub enum ZstdReply {
    /// Whether the path exists.
    Exists(bool),
    /// The process could not be started: whether because the executable was
    /// not found, and the reason in words.
    SpawnFailed { not_found: bool, reason: String },
    /// The process runs; whether each of its two streams was captured.
    Spawned { stderr: bool, stdout: bool },
    /// The next chunk of the diagnostic stream; empty at its end.
    Read(Vec<u8>),
    /// Reading failed: whether the read was merely interrupted, and the
    /// reason in words.
    ReadFailed { interrupted: bool, reason: String },
    /// The standard output has been read to its end.
    Drained,
    /// Waiting failed; the reason.
    WaitFailed(String),
    /// The process has ended.
    Exited(ExitReport),
}

/// One step of a run: the events to deliver, in order, and what to do next.
#[derive(Debug, PartialEq, Eq)]
pub struct ZstdStep {
    pub events: Vec<CompressionEvent>,
    pub command: ZstdCommand,
}

/// What the contracts say of a `ZstdStep`.
pub struct ZstdStepView {
    pub events: Seq<EventView>,
    pub command: ZstdCommandView,
}

impl View for ZstdStep {
    type V = ZstdStepView;

    open spec fn view(&self) -> ZstdStepView {
        ZstdStepView { events: event_views(self.events@), command: self.command@ }
    }
}

/// One run of `zstd`.
pub struct ZstdRun {
    flags: Vec<String>,
    input_path: String,
    output_path: String,
    phase: ZstdPhase,
    tracker: ProgressTracker,
}

/// What the contracts say of a `ZstdRun`.
pub struct ZstdRunView {
    pub flags: Seq<Seq<char>>,
    pub input_path: Seq<char>,
    pub output_path: Seq<char>,
    pub phase: ZstdPhase,
    pub progress: ProgressView,
}

impl View for ZstdRun {
    type V = ZstdRunView;

    closed spec fn view(&self) -> ZstdRunView {
        ZstdRunView {
            flags: texts(self.flags@),
            input_path: self.input_path@,
            output_path: self.output_path@,
            phase: self.phase,
            progress: self.tracker@,
        }
    }
}

/// The arguments of `zstd`: progress on, overwrite on, the caller's flags as
/// they are, the input, and the output after `-o`.
pub open spec fn zstd_args(
    flags: Seq<Seq<char>>,
    input_path: Seq<char>,
    artifact: Seq<char>,
) -> Seq<Seq<char>> {
    seq!["--progress"@, "-f"@] + flags + seq![input_path, "-o"@, artifact]
}

/// The command that compresses `input_path` into `artifact`.
pub open spec fn zstd_command(
    flags: Seq<Seq<char>>,
    input_path: Seq<char>,
    artifact: Seq<char>,
) -> InvocationView {
    InvocationView { program: "zstd"@, args: zstd_args(flags, input_path, artifact) }
}

/// The command that compresses `input_path` into `artifact` with the
/// caller's `flags`, each passed on as it is.
pub fn make_zstd_command(flags: &Vec<String>, input_path: &str, artifact: String) -> (r:
    Invocation)
    ensures
        r@ == zstd_command(texts(flags@), input_path@, artifact@),
{
    let mut args: Vec<String> = Vec::new();
    args.push("--progress".to_owned());
    args.push("-f".to_owned());
    let mut i: usize = 0;
    while i < flags.len()
        invariant
            i <= flags.len(),
            texts(args@) == seq!["--progress"@, "-f"@] + texts(flags@).take(i as int),
        decreases flags.len() - i,
    {
        let ghost before = texts(args@);
        args.push(flags[i].clone());
        assert(texts(args@) =~= before.push(flags@[i as int]@));
        i += 1;
    }
    assert(texts(flags@).take(i as int) =~= texts(flags@));
    let ghost before = texts(args@);
    args.push(input_path.to_owned());
    args.push("-o".to_owned());
    args.push(artifact);
    assert(texts(args@) =~= before + seq![input_path@, "-o"@, artifact@]);
    Invocation { program: "zstd".to_owned(), args }
}

/// The command of a run. None for an input path without a final component.
pub open spec fn zstd_invocation(s: ZstdRunView, timestamp: Seq<char>) -> Option<InvocationView> {
    match artifact_path(s.input_path, s.output_path, timestamp, Backend::Zstd.extension_text()) {
        Some(artifact) => Some(zstd_command(s.flags, s.input_path, artifact)),
        None => None,
    }
}

/// The run `s` in the phase `phase`.
pub open spec fn in_phase(s: ZstdRunView, phase: ZstdPhase) -> ZstdRunView {
    ZstdRunView { phase, ..s }
}

/// A step without events.
pub open spec fn quiet(command: ZstdCommandView) -> ZstdStepView {
    ZstdStepView { events: Seq::empty(), command }
}

/// The end of the run `s` in a failure of class `kind`.
pub open spec fn failed(s: ZstdRunView, kind: ErrorKind, message: Seq<char>) -> (
    ZstdRunView,
    ZstdStepView,
) {
    (
        in_phase(s, ZstdPhase::Finished),
        quiet(ZstdCommandView::Done(Err(ErrorView { kind, message }))),
    )
}

/// The events of the end of the stream: that of the line that was still
/// open, if it is reported.
pub open spec fn events_at_end(p: ProgressView) -> Seq<EventView> {
    match line_event(p.pending) {
        Some(e) => seq![e],
        None => Seq::empty(),
    }
}

/// The message of a run that ended with the exit code `code`: the code and
/// all that was reported of the diagnostic stream.
pub open spec fn exit_failure_message(code: Option<i32>, log: Seq<char>) -> Seq<char> {
    "zstd exited with status "@ + exit_code_text(code) + "\n\nstderr:\n"@ + log
}

/// What the run `s` does when `reply` comes in: the run afterwards and the
/// step it takes. None if `reply` does not answer the command that `s` gave
/// last. `timestamp` is the time at which the artifact is named, when it is.
pub open spec fn zstd_next(s: ZstdRunView, reply: ZstdReply, timestamp: Seq<char>) -> Option<
    (ZstdRunView, ZstdStepView),
> {
    match (s.phase, reply) {
        (ZstdPhase::CheckingInput, ZstdReply::Exists(found)) => Some(
            if found {
                (
                    in_phase(s, ZstdPhase::CheckingOutput),
                    quiet(ZstdCommandView::CheckExists(s.output_path)),
                )
            } else {
                failed(s, ErrorKind::InvalidInput, "Input file does not exist: "@ + s.input_path)
            },
        ),
        (ZstdPhase::CheckingOutput, ZstdReply::Exists(found)) => Some(
            if !found {
                failed(
                    s,
                    ErrorKind::InvalidOutput,
                    "Output folder does not exist: "@ + s.output_path,
                )
            } else {
                match zstd_invocation(s, timestamp) {
                    Some(invocation) => (
                        in_phase(s, ZstdPhase::Spawning),
                        quiet(ZstdCommandView::Spawn(invocation)),
                    ),
                    None => failed(s, ErrorKind::InvalidInput, "Invalid input file name"@),
                }
            },
        ),
        (ZstdPhase::Spawning, ZstdReply::SpawnFailed { not_found, reason }) => Some(
            if not_found {
                failed(
                    s,
                    ErrorKind::BackendNotFound,
                    "zstd command not found. Please install zstd and ensure it is in your PATH."@,
                )
            } else {
                failed(s, ErrorKind::BackendInvocationFailed, "Failed to start zstd: "@ + reason@)
            },
        ),
        (ZstdPhase::Spawning, ZstdReply::Spawned { stderr, stdout }) => Some(
            if !stderr {
                failed(s, ErrorKind::BackendInvocationFailed, "Failed to capture stderr"@)
            } else if !stdout {
                failed(s, ErrorKind::BackendInvocationFailed, "Failed to capture stdout"@)
            } else {
                (in_phase(s, ZstdPhase::Reading), quiet(ZstdCommandView::ReadStderr))
            },
        ),
        (ZstdPhase::Reading, ZstdReply::Read(bytes)) => Some(
            if bytes@.len() == 0 {
                (
                    ZstdRunView {
                        phase: ZstdPhase::Draining,
                        progress: after_end(s.progress),
                        ..s
                    },
                    ZstdStepView {
                        events: events_at_end(s.progress),
                        command: ZstdCommandView::DrainStdout,
                    },
                )
            } else {
                (
                    ZstdRunView { progress: after_bytes(s.progress, bytes@), ..s },
                    ZstdStepView {
                        events: events_of_bytes(s.progress, bytes@),
                        command: ZstdCommandView::ReadStderr,
                    },
                )
            },
        ),
        (ZstdPhase::Reading, ZstdReply::ReadFailed { interrupted, reason }) => Some(
            if interrupted {
                (s, quiet(ZstdCommandView::ReadStderr))
            } else {
                failed(s, ErrorKind::BackendInvocationFailed, "Error reading stderr: "@ + reason@)
            },
        ),
        (ZstdPhase::Draining, ZstdReply::Drained) => Some(
            (in_phase(s, ZstdPhase::Waiting), quiet(ZstdCommandView::Wait)),
        ),
        (ZstdPhase::Waiting, ZstdReply::WaitFailed(reason)) => Some(
            failed(s, ErrorKind::BackendInvocationFailed, reason@),
        ),
        (ZstdPhase::Waiting, ZstdReply::Exited(report)) => Some(
            if report.success {
                (in_phase(s, ZstdPhase::Finished), quiet(ZstdCommandView::Done(Ok(()))))
            } else {
                failed(
                    s,
                    ErrorKind::BackendExitFailure,
                    exit_failure_message(report.code, s.progress.log),
                )
            },
        ),
        _ => None,
    }
}

/// Whether the run went from `before` to `after` and returned `r` as
/// `expected` says.
pub open spec fn took_step(
    expected: Option<(ZstdRunView, ZstdStepView)>,
    before: ZstdRunView,
    after: ZstdRunView,
    r: Option<ZstdStep>,
) -> bool {
    match expected {
        Some((s, step)) => r matches Some(got) && got@ == step && after == s,
        None => r is None && after == before,
    }
}

/// The start of a run: nothing is known yet, and the first thing to find
/// out is whether the input exists.
pub open spec fn zstd_start(
    flags: Seq<Seq<char>>,
    input_path: Seq<char>,
    output_path: Seq<char>,
) -> (ZstdRunView, ZstdStepView) {
    (
        ZstdRunView {
            flags,
            input_path,
            output_path,
            phase: ZstdPhase::CheckingInput,
            progress: ProgressView { pending: Seq::empty(), log: Seq::empty() },
        },
        quiet(ZstdCommandView::CheckExists(input_path)),
    )
}

/// Begins a run of `zstd` with the caller's `flags` on `input_path`, to
/// write into the directory `output_path`.
pub fn run(flags: Vec<String>, input_path: String, output_path: String) -> (r: (ZstdRun, ZstdStep))
    ensures
        (r.0@, r.1@) == zstd_start(texts(flags@), input_path@, output_path@),
{
    let step = quiet_step(ZstdCommand::CheckExists(input_path.clone()));
    let run = ZstdRun {
        flags,
        input_path,
        output_path,
        phase: ZstdPhase::CheckingInput,
        tracker: ProgressTracker::new(),
    };
    (run, step)
}

/// A step without events.
fn quiet_step(command: ZstdCommand) -> (r: ZstdStep)
    ensures
        r@ == quiet(command@),
{
    let step = ZstdStep { events: Vec::new(), command };
    assert(step@.events =~= Seq::<EventView>::empty());
    step
}

impl ZstdRun {
    /// How far the run has come.
    pub fn phase(&self) -> (r: ZstdPhase)
        ensures
            r == self@.phase,
    {
        self.phase
    }

    /// Ends the run in a failure.
    fn fail(&mut self, kind: ErrorKind, message: String) -> (r: ZstdStep)
        ensures
            (final(self)@, r@) == failed(old(self)@, kind, message@),
    {
        self.phase = ZstdPhase::Finished;
        quiet_step(ZstdCommand::Done(Err(ErrorDetail::new(kind, message))))
    }

    /// The command of the run, for an artifact named at the time
    /// `timestamp`.
    fn invocation(&self, timestamp: &str) -> (r: Option<Invocation>)
        ensures
            match r {
                Some(invocation) => zstd_invocation(self@, timestamp@) == Some(invocation@),
                None => zstd_invocation(self@, timestamp@) is None,
            },
    {
        let artifact = match make_artifact_path(
            self.input_path.as_str(),
            self.output_path.as_str(),
            timestamp,
            Backend::Zstd.extension(),
        ) {
            Some(artifact) => artifact,
            None => {
                return None;
            },
        };
        Some(make_zstd_command(&self.flags, self.input_path.as_str(), artifact))
    }

    /// Takes in the answer to the last command and decides the next step,
    /// naming the artifact at the time `timestamp` where it is named.
    /// Returns none, and leaves the run as it was, if `reply` does not
    /// answer the last command.
    pub fn advance_at(&mut self, reply: ZstdReply, timestamp: &str) -> (r: Option<ZstdStep>)
        ensures
            took_step(zstd_next(old(self)@, reply, timestamp@), old(self)@, final(self)@, r),
    {
        match (self.phase, reply) {
            (ZstdPhase::CheckingInput, ZstdReply::Exists(found)) => {
                if found {
                    self.phase = ZstdPhase::CheckingOutput;
                    Some(quiet_step(ZstdCommand::CheckExists(self.output_path.clone())))
                } else {
                    let message = joined("Input file does not exist: ", self.input_path.as_str());
                    Some(self.fail(ErrorKind::InvalidInput, message))
                }
            },
            (ZstdPhase::CheckingOutput, ZstdReply::Exists(found)) => {
                if !found {
                    let message = joined(
                        "Output folder does not exist: ",
                        self.output_path.as_str(),
                    );
                    Some(self.fail(ErrorKind::InvalidOutput, message))
                } else {
                    match self.invocation(timestamp) {
                        Some(invocation) => {
                            self.phase = ZstdPhase::Spawning;
                            Some(quiet_step(ZstdCommand::Spawn(invocation)))
                        },
                        None => Some(
                            self.fail(
                                ErrorKind::InvalidInput,
                                "Invalid input file name".to_owned(),
                            ),
                        ),
                    }
                }
            },
            (ZstdPhase::Spawning, ZstdReply::SpawnFailed { not_found, reason }) => {
                if not_found {
                    let message =
                        "zstd command not found. Please install zstd and ensure it is in your PATH.";
                    Some(self.fail(ErrorKind::BackendNotFound, message.to_owned()))
                } else {
                    let message = joined("Failed to start zstd: ", reason.as_str());
                    Some(self.fail(ErrorKind::BackendInvocationFailed, message))
                }
            },
            (ZstdPhase::Spawning, ZstdReply::Spawned { stderr, stdout }) => {
                if !stderr {
                    Some(
                        self.fail(
                            ErrorKind::BackendInvocationFailed,
                            "Failed to capture stderr".to_owned(),
                        ),
                    )
                } else if !stdout {
                    Some(
                        self.fail(
                            ErrorKind::BackendInvocationFailed,
                            "Failed to capture stdout".to_owned(),
                        ),
                    )
                } else {
                    self.phase = ZstdPhase::Reading;
                    Some(quiet_step(ZstdCommand::ReadStderr))
                }
            },
            (ZstdPhase::Reading, ZstdReply::Read(bytes)) => {
                if bytes.len() == 0 {
                    let mut events: Vec<CompressionEvent> = Vec::new();
                    match self.tracker.finish() {
                        Some(e) => {
                            events.push(e);
                        },
                        None => {},
                    }
                    self.phase = ZstdPhase::Draining;
                    let step = ZstdStep { events, command: ZstdCommand::DrainStdout };
                    assert(step@.events =~= events_at_end(old(self)@.progress));
                    Some(step)
                } else {
                    let events = self.tracker.feed(bytes.as_slice());
                    Some(ZstdStep { events, command: ZstdCommand::ReadStderr })
                }
            },
            (ZstdPhase::Reading, ZstdReply::ReadFailed { interrupted, reason }) => {
                if interrupted {
                    Some(quiet_step(ZstdCommand::ReadStderr))
                } else {
                    let message = joined("Error reading stderr: ", reason.as_str());
                    Some(self.fail(ErrorKind::BackendInvocationFailed, message))
                }
            },
            (ZstdPhase::Draining, ZstdReply::Drained) => {
                self.phase = ZstdPhase::Waiting;
                Some(quiet_step(ZstdCommand::Wait))
            },
            (ZstdPhase::Waiting, ZstdReply::WaitFailed(reason)) => Some(
                self.fail(ErrorKind::BackendInvocationFailed, reason),
            ),
            (ZstdPhase::Waiting, ZstdReply::Exited(report)) => {
                if report.success {
                    self.phase = ZstdPhase::Finished;
                    Some(quiet_step(ZstdCommand::Done(Ok(()))))
                } else {
                    let mut message = "zstd exited with status ".to_owned();
                    push_exit_code(&mut message, report.code);
                    message.append("\n\nstderr:\n");
                    message.append(self.tracker.log());
                    Some(self.fail(ErrorKind::BackendExitFailure, message))
                }
            },
            _ => None,
        }
    }

    /// Takes in the answer to the last command and decides the next step.
    /// Where the step names the artifact, it reads the clock for the time.
    /// Returns none, and leaves the run as it was, if `reply` does not
    /// answer the last command.
    pub fn advance(&mut self, reply: ZstdReply) -> (r: Option<ZstdStep>)
        ensures
            exists|timestamp: Seq<char>|
                is_timestamp(timestamp) && took_step(
                    #[trigger] zstd_next(old(self)@, reply, timestamp),
                    old(self)@,
                    final(self)@,
                    r,
                ),
    {
        let names_artifact = match (self.phase, &reply) {
            (ZstdPhase::CheckingOutput, ZstdReply::Exists(true)) => true,
            _ => false,
        };
        if names_artifact {
            let timestamp = get_timestamp();
            self.advance_at(reply, timestamp.as_str())
        } else {
            proof {
                lemma_epoch_is_timestamp();
                assert(zstd_next(old(self)@, reply, ""@) == zstd_next(
                    old(self)@,
                    reply,
                    "19700101_000000"@,
                ));
            }
            self.advance_at(reply, "")
        }
    }
}

} // verus!
