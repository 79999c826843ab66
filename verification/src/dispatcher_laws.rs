//! What holds of every request, whatever the caller answers.
//!
//! A run is a request together with the answers it was given, in order. The
//! laws speak of the commands and the events of a run.

use crate::backend::{normalized_algorithm, Backend};
use crate::dispatcher::{
    cleanup_warning, dispatch_next, dispatch_start, missing_input, missing_output,
    packing_event, packing_failed, passing_event, starting_event, terminal_event,
    unknown_algorithm, CommandView, DispatchPhase, DispatchView, Reply,
};
use crate::error::{outcome_view, ErrorView};
use crate::event::{error_event, EventType, EventView};
use vstd::prelude::*;

verus! {

/// What a caller asks for.
pub struct Request {
    pub algorithm: Option<Seq<char>>,
    pub flags: Seq<Seq<char>>,
    pub input_path: Seq<char>,
    pub output_path: Seq<char>,
}

/// A run so far: where the request stands, and all the commands, events and
/// warnings it has given, in order.
pub struct Trace {
    pub state: DispatchView,
    pub commands: Seq<CommandView>,
    pub events: Seq<EventView>,
    pub warnings: Seq<ErrorView>,
}

/// The warning of a step, as a list.
pub open spec fn warning_list(warning: Option<ErrorView>) -> Seq<ErrorView> {
    match warning {
        Some(w) => seq![w],
        None => Seq::empty(),
    }
}

/// The run of the request `q` to which `replies` were given, one after the
/// other. None if one of them did not answer the command before it.
pub open spec fn trace(q: Request, replies: Seq<Reply>) -> Option<Trace>
    decreases replies.len(),
{
    if replies.len() == 0 {
        let (state, step) = dispatch_start(q.algorithm, q.flags, q.input_path, q.output_path);
        Some(
            Trace {
                state,
                commands: seq![step.command],
                events: step.events,
                warnings: warning_list(step.warning),
            },
        )
    } else {
        match trace(q, replies.drop_last()) {
            Some(t) => match dispatch_next(t.state, replies.last()) {
                Some((state, step)) => Some(
                    Trace {
                        state,
                        commands: t.commands.push(step.command),
                        events: t.events + step.events,
                        warnings: t.warnings + warning_list(step.warning),
                    },
                ),
                None => None,
            },
            None => None,
        }
    }
}

/// The three probes of a request whose paths are in order.
pub open spec fn probes(q: Request) -> Seq<CommandView> {
    seq![
        CommandView::CheckExists(q.input_path),
        CommandView::CheckIsDir(q.output_path),
        CommandView::CheckIsDir(q.input_path),
    ]
}

/// The command that runs `backend` for the request `q` on `input_path`.
pub open spec fn compress(q: Request, backend: Backend, input_path: Seq<char>) -> CommandView {
    CommandView::Compress { backend, flags: q.flags, input_path, output_path: q.output_path }
}

/// The normalized name of the algorithm of the request `q`.
pub open spec fn algorithm_of(q: Request) -> Seq<char> {
    normalized_algorithm(q.algorithm)
}

/// The backend of the request `q`, if one goes by the name of its algorithm.
pub open spec fn backend_of(q: Request) -> Option<Backend> {
    Backend::named(algorithm_of(q))
}

/// The answers say that the input is a directory. The answer with the number
/// `k` answers the command with the number `k`, and the third command asks
/// what the input is.
pub open spec fn input_is_directory(replies: Seq<Reply>) -> bool {
    replies.len() > 2 && replies[2] == Reply::IsDir(true)
}

/// The answers do not say that the input is a directory: they say that it is
/// none, or the question has not been answered.
pub open spec fn input_is_no_directory(replies: Seq<Reply>) -> bool {
    replies.len() > 2 ==> replies[2] == Reply::IsDir(false)
}

/// The path of the archive that the packer reported.
pub open spec fn packed_path(reply: Reply) -> Option<Seq<char>> {
    match reply {
        Reply::Packed(Ok(path)) => Some(path@),
        _ => None,
    }
}

/// The commands and events of a run that has not ended, by the phase it
/// is in.
pub open spec fn open_shape(q: Request, replies: Seq<Reply>, t: Trace) -> bool {
    let a = algorithm_of(q);
    match t.state.phase {
        DispatchPhase::CheckingInput => {
            &&& replies.len() == 0
            &&& t.commands == seq![CommandView::CheckExists(q.input_path)]
            &&& t.events == Seq::<EventView>::empty()
            &&& t.state.archive is None
        },
        DispatchPhase::CheckingOutput => {
            &&& replies.len() == 1
            &&& replies[0] matches Reply::Exists(true)
            &&& t.commands == probes(q).take(2)
            &&& t.events == Seq::<EventView>::empty()
            &&& t.state.archive is None
        },
        DispatchPhase::ProbingInput => {
            &&& replies.len() == 2
            &&& replies[0] matches Reply::Exists(true)
            &&& replies[1] matches Reply::IsDir(true)
            &&& t.commands == probes(q)
            &&& t.events == seq![starting_event(a)]
            &&& t.state.archive is None
        },
        DispatchPhase::Packing => {
            &&& replies.len() == 3
            &&& replies[0] matches Reply::Exists(true)
            &&& replies[1] matches Reply::IsDir(true)
            &&& replies[2] matches Reply::IsDir(true)
            &&& t.commands == probes(q).push(CommandView::Pack(q.input_path))
            &&& t.events == seq![starting_event(a), packing_event(a)]
            &&& t.state.archive is None
        },
        DispatchPhase::Compressing => {
            &&& replies.len() >= 3
            &&& replies[0] matches Reply::Exists(true)
            &&& replies[1] matches Reply::IsDir(true)
            &&& backend_of(q) matches Some(backend)
            &&& match t.state.archive {
                None => {
                    &&& replies.len() == 3
                    &&& replies[2] matches Reply::IsDir(false)
                    &&& t.commands == probes(q).push(compress(q, backend, q.input_path))
                    &&& t.events == seq![starting_event(a), passing_event(a)]
                },
                Some(archive) => {
                    &&& replies.len() == 4
                    &&& replies[2] matches Reply::IsDir(true)
                    &&& packed_path(replies[3]) == Some(archive)
                    &&& t.commands == probes(q).push(CommandView::Pack(q.input_path)).push(
                        compress(q, backend, archive),
                    )
                    &&& t.events == seq![starting_event(a), packing_event(a)]
                },
            }
        },
        DispatchPhase::Cleaning => {
            &&& replies.len() >= 4
            &&& replies[0] matches Reply::Exists(true)
            &&& replies[1] matches Reply::IsDir(true)
            &&& replies[2] matches Reply::IsDir(true)
            &&& t.state.archive matches Some(archive)
            &&& t.state.outcome matches Some(outcome)
            &&& packed_path(replies[3]) == Some(archive)
            &&& t.events == seq![starting_event(a), packing_event(a)]
            &&& match backend_of(q) {
                Some(backend) => {
                    &&& replies.len() == 5
                    &&& replies[4] matches Reply::Compressed(result)
                    &&& outcome == outcome_view(result)
                    &&& t.commands == probes(q).push(CommandView::Pack(q.input_path)).push(
                        compress(q, backend, archive),
                    ).push(CommandView::RemoveFile(archive))
                },
                None => {
                    &&& replies.len() == 4
                    &&& outcome == Err::<(), ErrorView>(unknown_algorithm(a))
                    &&& t.commands == probes(q).push(CommandView::Pack(q.input_path)).push(
                        CommandView::RemoveFile(archive),
                    )
                },
            }
        },
        DispatchPhase::Finished => false,
    }
}

/// The seven ways in which a request ends.
pub enum Ending {
    /// The input does not exist.
    MissingInput,
    /// The output path is no directory.
    MissingOutput,
    /// The input is a file, and no backend goes by the name of the algorithm.
    FileUnknownAlgorithm,
    /// The input is a file, and the backend has run on it.
    FileCompressed,
    /// The input is a directory that could not be packed.
    PackingFailed,
    /// The input is a directory; the backend has run on its archive, and the
    /// archive was then to be removed.
    ArchiveCompressed,
    /// The input is a directory that was packed, and no backend goes by the
    /// name of the algorithm; the archive was then to be removed.
    ArchiveUnknownAlgorithm,
}

/// The result of a run that ended as `ending` says.
pub open spec fn result_of(q: Request, replies: Seq<Reply>, ending: Ending) -> Result<
    (),
    ErrorView,
> {
    match ending {
        Ending::MissingInput => Err(missing_input(q.input_path)),
        Ending::MissingOutput => Err(missing_output(q.output_path)),
        Ending::FileUnknownAlgorithm => Err(unknown_algorithm(algorithm_of(q))),
        Ending::FileCompressed => match replies[3] {
            Reply::Compressed(result) => outcome_view(result),
            _ => Ok(()),
        },
        Ending::PackingFailed => match replies[3] {
            Reply::Packed(Err(cause)) => Err(packing_failed(cause@)),
            _ => Ok(()),
        },
        Ending::ArchiveCompressed => match replies[4] {
            Reply::Compressed(result) => outcome_view(result),
            _ => Ok(()),
        },
        Ending::ArchiveUnknownAlgorithm => Err(unknown_algorithm(algorithm_of(q))),
    }
}

/// The answers that lead to the ending `ending`.
pub open spec fn replies_of(q: Request, replies: Seq<Reply>, ending: Ending) -> bool {
    match ending {
        Ending::MissingInput => {
            &&& replies.len() == 1
            &&& replies[0] matches Reply::Exists(false)
        },
        Ending::MissingOutput => {
            &&& replies.len() == 2
            &&& replies[0] matches Reply::Exists(true)
            &&& replies[1] matches Reply::IsDir(false)
        },
        Ending::FileUnknownAlgorithm => {
            &&& replies.len() == 3
            &&& replies[0] matches Reply::Exists(true)
            &&& replies[1] matches Reply::IsDir(true)
            &&& replies[2] matches Reply::IsDir(false)
            &&& backend_of(q) is None
        },
        Ending::FileCompressed => {
            &&& replies.len() == 4
            &&& replies[0] matches Reply::Exists(true)
            &&& replies[1] matches Reply::IsDir(true)
            &&& replies[2] matches Reply::IsDir(false)
            &&& replies[3] is Compressed
            &&& backend_of(q) is Some
        },
        Ending::PackingFailed => {
            &&& replies.len() == 4
            &&& replies[0] matches Reply::Exists(true)
            &&& replies[1] matches Reply::IsDir(true)
            &&& replies[2] matches Reply::IsDir(true)
            &&& replies[3] matches Reply::Packed(Err(_))
        },
        Ending::ArchiveCompressed => {
            &&& replies.len() == 6
            &&& replies[0] matches Reply::Exists(true)
            &&& replies[1] matches Reply::IsDir(true)
            &&& replies[2] matches Reply::IsDir(true)
            &&& packed_path(replies[3]) is Some
            &&& replies[4] is Compressed
            &&& replies[5] is Removed
            &&& backend_of(q) is Some
        },
        Ending::ArchiveUnknownAlgorithm => {
            &&& replies.len() == 5
            &&& replies[0] matches Reply::Exists(true)
            &&& replies[1] matches Reply::IsDir(true)
            &&& replies[2] matches Reply::IsDir(true)
            &&& packed_path(replies[3]) is Some
            &&& replies[4] is Removed
            &&& backend_of(q) is None
        },
    }
}

/// The commands of a run that ended as `ending` says, the last of them
/// apart.
pub open spec fn commands_before_done(q: Request, replies: Seq<Reply>, ending: Ending) -> Seq<
    CommandView,
> {
    match ending {
        Ending::MissingInput => probes(q).take(1),
        Ending::MissingOutput => probes(q).take(2),
        Ending::FileUnknownAlgorithm => probes(q),
        Ending::FileCompressed => probes(q).push(
            compress(q, backend_of(q).unwrap(), q.input_path),
        ),
        Ending::PackingFailed => probes(q).push(CommandView::Pack(q.input_path)),
        Ending::ArchiveCompressed => probes(q).push(CommandView::Pack(q.input_path)).push(
            compress(q, backend_of(q).unwrap(), packed_path(replies[3]).unwrap()),
        ).push(CommandView::RemoveFile(packed_path(replies[3]).unwrap())),
        Ending::ArchiveUnknownAlgorithm => probes(q).push(CommandView::Pack(q.input_path)).push(
            CommandView::RemoveFile(packed_path(replies[3]).unwrap()),
        ),
    }
}

/// The events of a run that ended as `ending` says, the last of them
/// apart.
pub open spec fn events_before_end(q: Request, ending: Ending) -> Seq<EventView> {
    let a = algorithm_of(q);
    match ending {
        Ending::MissingInput => Seq::empty(),
        Ending::MissingOutput => Seq::empty(),
        Ending::FileUnknownAlgorithm => seq![starting_event(a), passing_event(a)],
        Ending::FileCompressed => seq![starting_event(a), passing_event(a)],
        Ending::PackingFailed => seq![starting_event(a), packing_event(a)],
        Ending::ArchiveCompressed => seq![starting_event(a), packing_event(a)],
        Ending::ArchiveUnknownAlgorithm => seq![starting_event(a), packing_event(a)],
    }
}

/// The warnings of a run that ended after `replies`: one if the last of
/// them says that the intermediate archive could not be removed, else none.
pub open spec fn warnings_of(replies: Seq<Reply>) -> Seq<ErrorView> {
    match replies.last() {
        Reply::Removed(Err(reason)) => seq![
            cleanup_warning(packed_path(replies[3]).unwrap(), reason@),
        ],
        _ => Seq::empty(),
    }
}

/// The run `t` has ended as `ending` says: its commands are those before
/// the end and then the result; its events are those before the end and then
/// the terminal event of the result; its warnings are those of a failed
/// removal.
pub open spec fn ended_as(q: Request, replies: Seq<Reply>, t: Trace, ending: Ending) -> bool {
    let result = result_of(q, replies, ending);
    &&& replies_of(q, replies, ending)
    &&& t.commands == commands_before_done(q, replies, ending).push(CommandView::Done(result))
    &&& t.events == events_before_end(q, ending).push(terminal_event(algorithm_of(q), result))
    &&& t.warnings == warnings_of(replies)
}

/// The run `t` has one of the shapes that a run can have.
pub open spec fn well_shaped(q: Request, replies: Seq<Reply>, t: Trace) -> bool {
    &&& t.state.algorithm == algorithm_of(q)
    &&& t.state.flags == q.flags
    &&& t.state.input_path == q.input_path
    &&& t.state.output_path == q.output_path
    &&& t.commands.len() == replies.len() + 1
    &&& if t.state.phase == DispatchPhase::Finished {
        exists|ending: Ending| ended_as(q, replies, t, ending)
    } else {
        open_shape(q, replies, t) && t.warnings == Seq::<ErrorView>::empty()
    }
}

/// One more answer keeps a run well shaped.
proof fn lemma_step_keeps_shape(q: Request, replies: Seq<Reply>, before: Trace, after: Trace)
    requires
        replies.len() > 0,
        well_shaped(q, replies.drop_last(), before),
        dispatch_next(before.state, replies.last()) matches Some((state, step)) && after == (Trace {
            state,
            commands: before.commands.push(step.command),
            events: before.events + step.events,
            warnings: before.warnings + warning_list(step.warning),
        }),
    ensures
        well_shaped(q, replies, after),
{
    let reply = replies.last();
    let a = algorithm_of(q);
    match before.state.phase {
        DispatchPhase::CheckingInput => {
            if reply matches Reply::Exists(true) {
                assert(after.commands =~= probes(q).take(2));
            } else {
                let e = Ending::MissingInput;
                assert(after.commands =~= commands_before_done(q, replies, e).push(
                    CommandView::Done(result_of(q, replies, e)),
                ));
                assert(ended_as(q, replies, after, e));
            }
        },
        DispatchPhase::CheckingOutput => {
            if reply matches Reply::IsDir(true) {
                assert(after.commands =~= probes(q));
            } else {
                assert(ended_as(q, replies, after, Ending::MissingOutput));
            }
        },
        DispatchPhase::ProbingInput => {
            if reply matches Reply::IsDir(true) {
                assert(after.events =~= seq![starting_event(a), packing_event(a)]);
            } else if backend_of(q) is Some {
                assert(after.events =~= seq![starting_event(a), passing_event(a)]);
            } else {
                let e = Ending::FileUnknownAlgorithm;
                assert(after.events =~= events_before_end(q, e).push(
                    terminal_event(a, result_of(q, replies, e)),
                ));
                assert(ended_as(q, replies, after, e));
            }
        },
        DispatchPhase::Packing => {
            if packed_path(reply) is None {
                let e = Ending::PackingFailed;
                assert(after.events =~= events_before_end(q, e).push(
                    terminal_event(a, result_of(q, replies, e)),
                ));
                assert(ended_as(q, replies, after, e));
            }
        },
        DispatchPhase::Compressing => {
            if before.state.archive is None {
                let e = Ending::FileCompressed;
                assert(after.events =~= events_before_end(q, e).push(
                    terminal_event(a, result_of(q, replies, e)),
                ));
                assert(ended_as(q, replies, after, e));
            }
        },
        DispatchPhase::Cleaning => {
            let e = if backend_of(q) is Some {
                Ending::ArchiveCompressed
            } else {
                Ending::ArchiveUnknownAlgorithm
            };
            assert(after.events =~= events_before_end(q, e).push(
                terminal_event(a, result_of(q, replies, e)),
            ));
            assert(ended_as(q, replies, after, e));
        },
        DispatchPhase::Finished => {},
    }
}

/// Every run has one of the shapes that a run can have: an open run that of
/// its phase, a run that has ended one of the seven endings.
pub proof fn law_runs_are_well_shaped(q: Request, replies: Seq<Reply>)
    ensures
        trace(q, replies) matches Some(t) ==> well_shaped(q, replies, t),
    decreases replies.len(),
{
    if replies.len() > 0 {
        law_runs_are_well_shaped(q, replies.drop_last());
        match trace(q, replies.drop_last()) {
            Some(before) => match trace(q, replies) {
                Some(after) => {
                    lemma_step_keeps_shape(q, replies, before, after);
                },
                None => {},
            },
            None => {},
        }
    }
}

/// The ending of a run that has ended.
proof fn lemma_ending(q: Request, replies: Seq<Reply>) -> (ending: Ending)
    requires
        trace(q, replies) matches Some(t) && t.state.phase == DispatchPhase::Finished,
    ensures
        ended_as(q, replies, trace(q, replies).unwrap(), ending),
{
    law_runs_are_well_shaped(q, replies);
    let t = trace(q, replies).unwrap();
    choose|ending: Ending| ended_as(q, replies, t, ending)
}

/// A request ends exactly once, and its terminal event is its last. The
/// command that ends it is the last command. No event before the end is
/// terminal. At the end comes one terminal event, after all others: success
/// if the result is success, else the error with the message of the failure.
pub proof fn law_one_terminal_event(q: Request, replies: Seq<Reply>)
    requires
        trace(q, replies) is Some,
    ensures
        ({
            let t = trace(q, replies).unwrap();
            &&& forall|j: int| 0 <= j < t.commands.len() - 1 ==> !(#[trigger] t.commands[j] is Done)
            &&& (t.state.phase == DispatchPhase::Finished <==> t.commands.last() is Done)
            &&& t.commands.last() is Done || forall|k: int|
                0 <= k < t.events.len() ==> !(#[trigger] t.events[k]).event_type.is_terminal()
            &&& t.commands.last() matches CommandView::Done(result) ==> {
                &&& t.events.len() > 0
                &&& t.events.last() == terminal_event(algorithm_of(q), result)
                &&& t.events.last().event_type == if result is Ok {
                    EventType::Success
                } else {
                    EventType::Error
                }
                &&& forall|k: int|
                    0 <= k < t.events.len() - 1 ==> !(#[trigger] t.events[k]).event_type
                        .is_terminal()
            }
        }),
{
    law_runs_are_well_shaped(q, replies);
    let t = trace(q, replies).unwrap();
    if t.state.phase == DispatchPhase::Finished {
        let ending = lemma_ending(q, replies);
    }
}

/// Nothing is packed, compressed or removed before both paths were found to
/// be in order: the input exists and the output path is a directory.
pub proof fn law_validation_comes_first(q: Request, replies: Seq<Reply>, j: int)
    requires
        trace(q, replies) matches Some(t) && 0 <= j < t.commands.len() && (t.commands[j] is Pack
            || t.commands[j] is Compress || t.commands[j] is RemoveFile),
    ensures
        j >= 3,
        replies[0] matches Reply::Exists(true),
        replies[1] matches Reply::IsDir(true),
{
    law_runs_are_well_shaped(q, replies);
    let t = trace(q, replies).unwrap();
    if t.state.phase == DispatchPhase::Finished {
        let ending = lemma_ending(q, replies);
    }
}

/// For a directory, the packer runs before any backend, and the backend
/// runs on the archive that the packer made.
pub proof fn law_directory_is_packed_first(q: Request, replies: Seq<Reply>, j: int)
    requires
        trace(q, replies) matches Some(t) && 0 <= j < t.commands.len() && t.commands[j] is Compress,
        input_is_directory(replies),
    ensures
        ({
            let t = trace(q, replies).unwrap();
            &&& j == 4
            &&& t.commands[3] == CommandView::Pack(q.input_path)
            &&& packed_path(replies[3]) matches Some(archive)
            &&& t.commands[j] == compress(q, backend_of(q).unwrap(), archive)
        }),
{
    law_runs_are_well_shaped(q, replies);
    let t = trace(q, replies).unwrap();
    if t.state.phase == DispatchPhase::Finished {
        let ending = lemma_ending(q, replies);
    }
}

/// An intermediate archive is removed before the request ends, however the
/// backend fared: when the packer has reported an archive, the last command
/// before the end removes that archive, and no backend runs after it.
pub proof fn law_archive_is_removed(q: Request, replies: Seq<Reply>, k: int, j: int)
    requires
        trace(q, replies) matches Some(t) && t.state.phase == DispatchPhase::Finished,
        0 <= k < replies.len(),
        packed_path(replies[k]) is Some,
        0 <= j <= replies.len(),
    ensures
        ({
            let t = trace(q, replies).unwrap();
            let n = t.commands.len();
            &&& n >= 6
            &&& t.commands[n - 2] == CommandView::RemoveFile(packed_path(replies[k]).unwrap())
            &&& t.commands[j] is Compress ==> j < n - 2
        }),
{
    law_runs_are_well_shaped(q, replies);
    let ending = lemma_ending(q, replies);
}

/// For a file, no intermediate archive is ever made: the packer is never
/// asked, there is never anything to remove, and the backend runs on the
/// input itself.
pub proof fn law_file_is_never_packed(q: Request, replies: Seq<Reply>, j: int)
    requires
        trace(q, replies) matches Some(t) && 0 <= j < t.commands.len(),
        input_is_no_directory(replies),
    ensures
        ({
            let t = trace(q, replies).unwrap();
            &&& !(t.commands[j] is Pack)
            &&& !(t.commands[j] is RemoveFile)
            &&& t.commands[j] is Compress ==> t.commands[j] == compress(
                q,
                backend_of(q).unwrap(),
                q.input_path,
            )
        }),
{
    law_runs_are_well_shaped(q, replies);
    let t = trace(q, replies).unwrap();
    if t.state.phase == DispatchPhase::Finished {
        let ending = lemma_ending(q, replies);
    }
}

/// A request for an algorithm that no backend goes by never runs a backend,
/// and if it ends, it ends in failure, with one error event as its terminal
/// event.
pub proof fn law_unknown_algorithm_fails(q: Request, replies: Seq<Reply>, j: int)
    requires
        trace(q, replies) matches Some(t) && 0 <= j < t.commands.len(),
        backend_of(q) is None,
    ensures
        ({
            let t = trace(q, replies).unwrap();
            &&& !(t.commands[j] is Compress)
            &&& t.commands[j] matches CommandView::Done(result) ==> {
                &&& result is Err
                &&& t.events.last().event_type == EventType::Error
                &&& forall|k: int|
                    0 <= k < t.events.len() - 1 ==> !(#[trigger] t.events[k]).event_type
                        .is_terminal()
            }
        }),
{
    law_runs_are_well_shaped(q, replies);
    law_one_terminal_event(q, replies);
    let t = trace(q, replies).unwrap();
    if t.state.phase == DispatchPhase::Finished {
        let ending = lemma_ending(q, replies);
    }
}

/// A request whose paths are in order and whose algorithm is unknown fails
/// for that reason, whatever else happens.
pub proof fn law_unknown_algorithm_is_reported(q: Request, replies: Seq<Reply>)
    requires
        trace(q, replies) matches Some(t) && t.state.phase == DispatchPhase::Finished,
        backend_of(q) is None,
        replies.len() > 2,
        replies.len() > 3 ==> packed_path(replies[3]) is Some,
    ensures
        ({
            let t = trace(q, replies).unwrap();
            &&& t.commands.last() == CommandView::Done(Err(unknown_algorithm(algorithm_of(q))))
            &&& t.events.last() == error_event(
                algorithm_of(q),
                unknown_algorithm(algorithm_of(q)).message,
            )
        }),
{
    law_runs_are_well_shaped(q, replies);
    let ending = lemma_ending(q, replies);
}

/// Whether the intermediate archive could be removed changes neither the
/// commands nor the events nor the result of a request.
pub proof fn law_cleanup_failure_changes_nothing(q: Request, front: Seq<Reply>, a: Reply, b: Reply)
    requires
        a is Removed,
        b is Removed,
        trace(q, front.push(a)) is Some,
    ensures
        trace(q, front.push(b)) matches Some(t) && t.commands == trace(
            q,
            front.push(a),
        ).unwrap().commands && t.events == trace(q, front.push(a)).unwrap().events,
{
    assert(front.push(a).drop_last() =~= front);
    assert(front.push(b).drop_last() =~= front);
}

/// A warning is given for one thing only: an intermediate archive that could
/// not be removed. It comes with the last step and names the archive and the
/// reason.
pub proof fn law_warning_means_failed_cleanup(q: Request, replies: Seq<Reply>)
    requires
        trace(q, replies) is Some,
    ensures
        ({
            let t = trace(q, replies).unwrap();
            &&& t.warnings.len() <= 1
            &&& t.warnings.len() == 1 ==> {
                &&& t.state.phase == DispatchPhase::Finished
                &&& replies.len() > 3
                &&& packed_path(replies[3]) matches Some(archive)
                &&& replies.last() matches Reply::Removed(Err(reason))
                &&& t.warnings[0] == cleanup_warning(archive, reason@)
            }
            &&& t.state.phase == DispatchPhase::Finished && replies.last() is Removed ==> (
            t.warnings.len() == 1 <==> replies.last() matches Reply::Removed(Err(_)))
        }),
{
    law_runs_are_well_shaped(q, replies);
    let t = trace(q, replies).unwrap();
    if t.state.phase == DispatchPhase::Finished {
        let ending = lemma_ending(q, replies);
    }
}

/// Once a request has ended, no answer is taken.
pub proof fn law_nothing_follows_the_end(q: Request, replies: Seq<Reply>, reply: Reply)
    requires
        trace(q, replies) matches Some(t) && t.state.phase == DispatchPhase::Finished,
    ensures
        trace(q, replies.push(reply)) is None,
{
    assert(replies.push(reply).drop_last() =~= replies);
}

} // verus!
