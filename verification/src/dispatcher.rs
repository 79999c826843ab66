//! The dispatcher: one request from validation to its terminal event.
//!
//! The dispatcher decides; its caller acts. Each step holds the events to
//! deliver, in order, and names the one thing to do next: probe a path, pack
//! the input, run a backend, remove the intermediate archive, or stop. The
//! caller answers with what came of it.

use crate::backend::{normalize_algorithm, normalized_algorithm, Backend};
use crate::error::{
    copy_outcome, detail_view, outcome_view, ErrorDetail, ErrorKind, ErrorView,
};
use crate::event::{
    error_event, event_views, status_event, success_event, CompressionEvent, EventView,
};
use crate::percent::Percentage;
use crate::text::{copy_strings, joined, texts};
use vstd::prelude::*;

verus! {

/// How far a request has come.
#[derive(Clone, Copy, Debug, PartialEq, Eq, Structural)]
pub enum DispatchPhase {
    /// Asked whether the input exists.
    CheckingInput,
    /// Asked whether the output path is a directory.
    CheckingOutput,
    /// Asked whether the input is a directory.
    ProbingInput,
    /// Asked to pack the input directory.
    Packing,
    /// Asked to run the backend.
    Compressing,
    /// Asked to remove the intermediate archive.
    Cleaning,
    /// The result has been handed out.
    Finished,
}

/// What the caller is asked to do next.
#[derive(Debug, PartialEq, Eq)]
pub enum Command {
    /// Find out whether this path exists.
    CheckExists(String),
    /// Find out whether this path is a directory.
    CheckIsDir(String),
    /// Pack this directory into its intermediate archive.
    Pack(String),
    /// Run this backend with these flags on this input, to write into this
    /// directory.
    Compress { backend: Backend, flags: Vec<String>, input_path: String, output_path: String },
    /// Remove this file, the intermediate archive.
    RemoveFile(String),
    /// Nothing more: the request has ended with this result.
    Done(Result<(), ErrorDetail>),
}

/// What the contracts say of a `Command`.
pub enum CommandView {
    CheckExists(Seq<char>),
    CheckIsDir(Seq<char>),
    Pack(Seq<char>),
    Compress {
        backend: Backend,
        flags: Seq<Seq<char>>,
        input_path: Seq<char>,
        output_path: Seq<char>,
    },
    RemoveFile(Seq<char>),
    Done(Result<(), ErrorView>),
}

impl View for Command {
    type V = CommandView;

    open spec fn view(&self) -> CommandView {
        match self {
            Command::CheckExists(path) => CommandView::CheckExists(path@),
            Command::CheckIsDir(path) => CommandView::CheckIsDir(path@),
            Command::Pack(path) => CommandView::Pack(path@),
            Command::Compress { backend, flags, input_path, output_path } => CommandView::Compress {
                backend: *backend,
                flags: texts(flags@),
                input_path: input_path@,
                output_path: output_path@,
            },
            Command::RemoveFile(path) => CommandView::RemoveFile(path@),
            Command::Done(result) => CommandView::Done(outcome_view(*result)),
        }
    }
}

/// What came of the last command.
#[derive(Debug, PartialEq, Eq)]
pub enum Reply {
    /// Whether the path exists.
    Exists(bool),
    /// Whether the path is a directory.
    IsDir(bool),
    /// The path of the intermediate archive, or why there is none.
    Packed(Result<String, ErrorDetail>),
    /// How the backend fared.
    Compressed(Result<(), ErrorDetail>),
    /// Whether the file is gone; if not, the reason.
    Removed(Result<(), String>),
}

/// One step of a request: the events to deliver, in order, a warning to
/// record if there is one, and what to do next.
#[derive(Debug, PartialEq, Eq)]
pub struct Step {
    pub events: Vec<CompressionEvent>,
    /// Set when the intermediate archive could not be removed. It changes
    /// nothing in the result of the request.
    pub warning: Option<ErrorDetail>,
    pub command: Command,
}

/// What the contracts say of a `Step`.
pub struct StepView {
    pub events: Seq<EventView>,
    pub warning: Option<ErrorView>,
    pub command: CommandView,
}

impl View for Step {
    type V = StepView;

    open spec fn view(&self) -> StepView {
        StepView {
            events: event_views(self.events@),
            warning: detail_view(self.warning),
            command: self.command@,
        }
    }
}

/// One request on its way.
pub struct Dispatch {
    algorithm: String,
    flags: Vec<String>,
    input_path: String,
    output_path: String,
    phase: DispatchPhase,
    archive: Option<String>,
    outcome: Option<Result<(), ErrorDetail>>,
}

/// What the contracts say of a `Dispatch`.
pub struct DispatchView {
    /// The normalized name of the algorithm.
    pub algorithm: Seq<char>,
    pub flags: Seq<Seq<char>>,
    pub input_path: Seq<char>,
    pub output_path: Seq<char>,
    pub phase: DispatchPhase,
    /// The intermediate archive, once it has been made.
    pub archive: Option<Seq<char>>,
    /// How the backend step ended, while the archive is being removed.
    pub outcome: Option<Result<(), ErrorView>>,
}

impl View for Dispatch {
    type V = DispatchView;

    closed spec fn view(&self) -> DispatchView {
        DispatchView {
            algorithm: self.algorithm@,
            flags: texts(self.flags@),
            input_path: self.input_path@,
            output_path: self.output_path@,
            phase: self.phase,
            archive: match self.archive {
                Some(path) => Some(path@),
                None => None,
            },
            outcome: match self.outcome {
                Some(r) => Some(outcome_view(r)),
                None => None,
            },
        }
    }
}

/// The first event of a request whose paths are in order.
pub open spec fn starting_event(algorithm: Seq<char>) -> EventView {
    status_event(algorithm, "Starting "@ + algorithm + " compression..."@, Some("0"@))
}

/// The event that announces the packing of a directory.
pub open spec fn packing_event(algorithm: Seq<char>) -> EventView {
    status_event(algorithm, "Input is a directory. Creating intermediate tar..."@, None)
}

/// The event that says that a file needs no packing.
pub open spec fn passing_event(algorithm: Seq<char>) -> EventView {
    status_event(algorithm, "Input is a file. Skipping tar..."@, None)
}

/// The terminal event of a request that ended with `outcome`.
pub open spec fn terminal_event(algorithm: Seq<char>, outcome: Result<(), ErrorView>) -> EventView {
    match outcome {
        Ok(_) => success_event(algorithm),
        Err(e) => error_event(algorithm, e.message),
    }
}

/// The failure of a request whose input does not exist.
pub open spec fn missing_input(input_path: Seq<char>) -> ErrorView {
    ErrorView {
        kind: ErrorKind::InvalidInput,
        message: "Input file does not exist: "@ + input_path,
    }
}

/// The failure of a request whose output path is no directory.
pub open spec fn missing_output(output_path: Seq<char>) -> ErrorView {
    ErrorView {
        kind: ErrorKind::InvalidOutput,
        message: "Output folder does not exist or is not a directory: "@ + output_path,
    }
}

/// The failure of a request for an algorithm that no backend goes by.
pub open spec fn unknown_algorithm(algorithm: Seq<char>) -> ErrorView {
    ErrorView {
        kind: ErrorKind::UnknownAlgorithm,
        message: "Unknown algorithm '"@ + algorithm + "'"@,
    }
}

/// The failure of a request whose input could not be packed: the packer's
/// message, word for word.
pub open spec fn packing_failed(cause: ErrorView) -> ErrorView {
    ErrorView { kind: ErrorKind::PackingFailed, message: cause.message }
}

/// The warning for an intermediate archive that could not be removed.
pub open spec fn cleanup_warning(path: Seq<char>, reason: Seq<char>) -> ErrorView {
    ErrorView {
        kind: ErrorKind::CleanupWarning,
        message: "Warning: failed to remove intermediate tar "@ + path + ": "@ + reason,
    }
}

/// The request `s` in the phase `phase`.
pub open spec fn in_phase(s: DispatchView, phase: DispatchPhase) -> DispatchView {
    DispatchView { phase, ..s }
}

/// The last step of the request `s`, which ends with `outcome`: the
/// terminal event after `events`, and the result.
pub open spec fn finished(
    s: DispatchView,
    events: Seq<EventView>,
    warning: Option<ErrorView>,
    outcome: Result<(), ErrorView>,
) -> (DispatchView, StepView) {
    (
        DispatchView { phase: DispatchPhase::Finished, outcome: None, ..s },
        StepView {
            events: events.push(terminal_event(s.algorithm, outcome)),
            warning,
            command: CommandView::Done(outcome),
        },
    )
}

/// The step of the request `s` once the input to compress is known to be
/// `input_path`: the backend runs on it, if a backend goes by the name of the
/// algorithm. If none does, the request fails, after the intermediate archive
/// has been removed if there is one.
pub open spec fn select_backend(s: DispatchView, events: Seq<EventView>, input_path: Seq<char>) -> (
    DispatchView,
    StepView,
) {
    match Backend::named(s.algorithm) {
        Some(backend) => (
            in_phase(s, DispatchPhase::Compressing),
            StepView {
                events,
                warning: None,
                command: CommandView::Compress {
                    backend,
                    flags: s.flags,
                    input_path,
                    output_path: s.output_path,
                },
            },
        ),
        None => match s.archive {
            Some(archive) => (
                DispatchView {
                    phase: DispatchPhase::Cleaning,
                    outcome: Some(Err(unknown_algorithm(s.algorithm))),
                    ..s
                },
                StepView { events, warning: None, command: CommandView::RemoveFile(archive) },
            ),
            None => finished(s, events, None, Err(unknown_algorithm(s.algorithm))),
        },
    }
}

/// What the request `s` does when `reply` comes in: the request afterwards
/// and the step it takes. None if `reply` does not answer the command that
/// `s` gave last.
pub open spec fn dispatch_next(s: DispatchView, reply: Reply) -> Option<(DispatchView, StepView)> {
    match (s.phase, reply) {
        (DispatchPhase::CheckingInput, Reply::Exists(found)) => Some(
            if found {
                (
                    in_phase(s, DispatchPhase::CheckingOutput),
                    StepView {
                        events: Seq::empty(),
                        warning: None,
                        command: CommandView::CheckIsDir(s.output_path),
                    },
                )
            } else {
                finished(s, Seq::empty(), None, Err(missing_input(s.input_path)))
            },
        ),
        (DispatchPhase::CheckingOutput, Reply::IsDir(is_dir)) => Some(
            if is_dir {
                (
                    in_phase(s, DispatchPhase::ProbingInput),
                    StepView {
                        events: seq![starting_event(s.algorithm)],
                        warning: None,
                        command: CommandView::CheckIsDir(s.input_path),
                    },
                )
            } else {
                finished(s, Seq::empty(), None, Err(missing_output(s.output_path)))
            },
        ),
        (DispatchPhase::ProbingInput, Reply::IsDir(is_dir)) => Some(
            if is_dir {
                (
                    in_phase(s, DispatchPhase::Packing),
                    StepView {
                        events: seq![packing_event(s.algorithm)],
                        warning: None,
                        command: CommandView::Pack(s.input_path),
                    },
                )
            } else {
                select_backend(s, seq![passing_event(s.algorithm)], s.input_path)
            },
        ),
        (DispatchPhase::Packing, Reply::Packed(packed)) => Some(
            match packed {
                Ok(archive) => select_backend(
                    DispatchView { archive: Some(archive@), ..s },
                    Seq::empty(),
                    archive@,
                ),
                Err(cause) => finished(s, Seq::empty(), None, Err(packing_failed(cause@))),
            },
        ),
        (DispatchPhase::Compressing, Reply::Compressed(result)) => Some(
            match s.archive {
                Some(archive) => (
                    DispatchView {
                        phase: DispatchPhase::Cleaning,
                        outcome: Some(outcome_view(result)),
                        ..s
                    },
                    StepView {
                        events: Seq::empty(),
                        warning: None,
                        command: CommandView::RemoveFile(archive),
                    },
                ),
                None => finished(s, Seq::empty(), None, outcome_view(result)),
            },
        ),
        (DispatchPhase::Cleaning, Reply::Removed(removed)) => match (s.archive, s.outcome) {
            (Some(archive), Some(outcome)) => Some(
                finished(
                    s,
                    Seq::empty(),
                    match removed {
                        Ok(_) => None,
                        Err(reason) => Some(cleanup_warning(archive, reason@)),
                    },
                    outcome,
                ),
            ),
            _ => None,
        },
        _ => None,
    }
}

/// The start of a request: the algorithm is normalized, and the first thing
/// to find out is whether the input exists.
pub open spec fn dispatch_start(
    algorithm: Option<Seq<char>>,
    flags: Seq<Seq<char>>,
    input_path: Seq<char>,
    output_path: Seq<char>,
) -> (DispatchView, StepView) {
    (
        DispatchView {
            algorithm: normalized_algorithm(algorithm),
            flags,
            input_path,
            output_path,
            phase: DispatchPhase::CheckingInput,
            archive: None,
            outcome: None,
        },
        StepView {
            events: Seq::empty(),
            warning: None,
            command: CommandView::CheckExists(input_path),
        },
    )
}

/// Whether the request went from `before` to `after` and returned `r` as
/// `expected` says.
pub open spec fn took_step(
    expected: Option<(DispatchView, StepView)>,
    before: DispatchView,
    after: DispatchView,
    r: Option<Step>,
) -> bool {
    match expected {
        Some((s, step)) => r matches Some(got) && got@ == step && after == s,
        None => r is None && after == before,
    }
}

/// Begins the request to compress `input_path` into the directory
/// `output_path` with `algorithm`, or with the default if none is named, and
/// the caller's `flags`.
pub fn dispatch(
    algorithm: Option<String>,
    flags: Vec<String>,
    input_path: String,
    output_path: String,
) -> (r: (Dispatch, Step))
    ensures
        (r.0@, r.1@) == dispatch_start(
            match algorithm {
                Some(name) => Some(name@),
                None => None,
            },
            texts(flags@),
            input_path@,
            output_path@,
        ),
{
    let step = plain_step(no_events(), Command::CheckExists(input_path.clone()));
    let request = Dispatch {
        algorithm: normalize_algorithm(&algorithm),
        flags,
        input_path,
        output_path,
        phase: DispatchPhase::CheckingInput,
        archive: None,
        outcome: None,
    };
    (request, step)
}

/// A step with the events `events` and no warning.
fn plain_step(events: Vec<CompressionEvent>, command: Command) -> (r: Step)
    ensures
        r@ == (StepView { events: event_views(events@), warning: None, command: command@ }),
{
    Step { events, warning: None, command }
}

/// No events.
fn no_events() -> (r: Vec<CompressionEvent>)
    ensures
        event_views(r@) == Seq::<EventView>::empty(),
{
    Vec::new()
}

/// The one event `e`.
fn one_event(e: CompressionEvent) -> (r: Vec<CompressionEvent>)
    ensures
        event_views(r@) == seq![e@],
{
    let mut r: Vec<CompressionEvent> = Vec::new();
    r.push(e);
    r
}

impl Dispatch {
    /// How far the request has come.
    pub fn phase(&self) -> (r: DispatchPhase)
        ensures
            r == self@.phase,
    {
        self.phase
    }

    /// The normalized name of the algorithm of the request.
    pub fn algorithm(&self) -> (r: &str)
        ensures
            r@ == self@.algorithm,
    {
        self.algorithm.as_str()
    }

    /// Ends the request with `outcome`, after `events`.
    fn finish(
        &mut self,
        events: Vec<CompressionEvent>,
        warning: Option<ErrorDetail>,
        outcome: Result<(), ErrorDetail>,
    ) -> (r: Step)
        ensures
            (final(self)@, r@) == finished(
                old(self)@,
                event_views(events@),
                detail_view(warning),
                outcome_view(outcome),
            ),
    {
        let mut events = events;
        let ghost before = event_views(events@);
        let last = match &outcome {
            Ok(_) => CompressionEvent::success(self.algorithm.as_str()),
            Err(e) => CompressionEvent::error(self.algorithm.as_str(), e.message.clone()),
        };
        events.push(last);
        assert(event_views(events@) =~= before.push(last@));
        self.phase = DispatchPhase::Finished;
        self.outcome = None;
        Step { events, warning, command: Command::Done(outcome) }
    }

    /// The failure of a request for an algorithm that no backend goes by.
    fn unknown(&self) -> (r: ErrorDetail)
        ensures
            r@ == unknown_algorithm(self@.algorithm),
    {
        let mut message = joined("Unknown algorithm '", self.algorithm.as_str());
        message.append("'");
        ErrorDetail::new(ErrorKind::UnknownAlgorithm, message)
    }

    /// Decides the step once the input to compress is known.
    fn select(&mut self, events: Vec<CompressionEvent>, input_path: String) -> (r: Step)
        ensures
            (final(self)@, r@) == select_backend(old(self)@, event_views(events@), input_path@),
    {
        match Backend::from_name(self.algorithm.as_str()) {
            Some(backend) => {
                self.phase = DispatchPhase::Compressing;
                plain_step(
                    events,
                    Command::Compress {
                        backend,
                        flags: copy_strings(&self.flags),
                        input_path,
                        output_path: self.output_path.clone(),
                    },
                )
            },
            None => {
                let failure = self.unknown();
                let archive = match &self.archive {
                    Some(path) => Some(path.clone()),
                    None => None,
                };
                match archive {
                    Some(path) => {
                        self.phase = DispatchPhase::Cleaning;
                        self.outcome = Some(Err(failure));
                        plain_step(events, Command::RemoveFile(path))
                    },
                    None => self.finish(events, None, Err(failure)),
                }
            },
        }
    }

    /// Takes in the answer to the last command and decides the next step.
    /// Returns none, and leaves the request as it was, if `reply` does not
    /// answer the last command.
    pub fn advance(&mut self, reply: Reply) -> (r: Option<Step>)
        ensures
            took_step(dispatch_next(old(self)@, reply), old(self)@, final(self)@, r),
    {
        match (self.phase, reply) {
            (DispatchPhase::CheckingInput, Reply::Exists(found)) => {
                if found {
                    self.phase = DispatchPhase::CheckingOutput;
                    Some(plain_step(no_events(), Command::CheckIsDir(self.output_path.clone())))
                } else {
                    let message = joined("Input file does not exist: ", self.input_path.as_str());
                    let failure = ErrorDetail::new(ErrorKind::InvalidInput, message);
                    Some(self.finish(no_events(), None, Err(failure)))
                }
            },
            (DispatchPhase::CheckingOutput, Reply::IsDir(is_dir)) => {
                if is_dir {
                    let mut message = joined("Starting ", self.algorithm.as_str());
                    message.append(" compression...");
                    let event = CompressionEvent::status(
                        self.algorithm.as_str(),
                        message,
                        Some(Percentage::zero()),
                    );
                    self.phase = DispatchPhase::ProbingInput;
                    Some(plain_step(one_event(event), Command::CheckIsDir(self.input_path.clone())))
                } else {
                    let message = joined(
                        "Output folder does not exist or is not a directory: ",
                        self.output_path.as_str(),
                    );
                    let failure = ErrorDetail::new(ErrorKind::InvalidOutput, message);
                    Some(self.finish(no_events(), None, Err(failure)))
                }
            },
            (DispatchPhase::ProbingInput, Reply::IsDir(is_dir)) => {
                if is_dir {
                    let event = CompressionEvent::status(
                        self.algorithm.as_str(),
                        "Input is a directory. Creating intermediate tar...".to_owned(),
                        None,
                    );
                    self.phase = DispatchPhase::Packing;
                    Some(plain_step(one_event(event), Command::Pack(self.input_path.clone())))
                } else {
                    let event = CompressionEvent::status(
                        self.algorithm.as_str(),
                        "Input is a file. Skipping tar...".to_owned(),
                        None,
                    );
                    let input_path = self.input_path.clone();
                    Some(self.select(one_event(event), input_path))
                }
            },
            (DispatchPhase::Packing, Reply::Packed(packed)) => {
                match packed {
                    Ok(archive) => {
                        self.archive = Some(archive.clone());
                        Some(self.select(no_events(), archive))
                    },
                    Err(cause) => {
                        let failure = ErrorDetail::new(ErrorKind::PackingFailed, cause.message);
                        Some(self.finish(no_events(), None, Err(failure)))
                    },
                }
            },
            (DispatchPhase::Compressing, Reply::Compressed(result)) => {
                let archive = match &self.archive {
                    Some(path) => Some(path.clone()),
                    None => None,
                };
                match archive {
                    Some(path) => {
                        self.phase = DispatchPhase::Cleaning;
                        self.outcome = Some(result);
                        Some(plain_step(no_events(), Command::RemoveFile(path)))
                    },
                    None => Some(self.finish(no_events(), None, result)),
                }
            },
            (DispatchPhase::Cleaning, Reply::Removed(removed)) => {
                let archive = match &self.archive {
                    Some(path) => Some(path.clone()),
                    None => None,
                };
                let outcome = match &self.outcome {
                    Some(r) => Some(copy_outcome(r)),
                    None => None,
                };
                match (archive, outcome) {
                    (Some(path), Some(outcome)) => {
                        let warning = match removed {
                            Ok(_) => None,
                            Err(reason) => {
                                let mut w = joined(
                                    "Warning: failed to remove intermediate tar ",
                                    path.as_str(),
                                );
                                w.append(": ");
                                w.append(reason.as_str());
                                Some(ErrorDetail::new(ErrorKind::CleanupWarning, w))
                            },
                        };
                        Some(self.finish(no_events(), warning, outcome))
                    },
                    _ => None,
                }
            },
            _ => None,
        }
    }
}

} // verus!
