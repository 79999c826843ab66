//! What holds of every run of the zstd adapter, whatever the caller answers.

use crate::error::{ErrorKind, ErrorView};
use crate::event::EventView;
use crate::progress::{
    after_bytes, after_end, events_of_bytes, law_chunking_is_irrelevant,
    law_log_holds_the_events, line_event, log_of_events, ProgressView,
};
use crate::zstd::{
    events_at_end, exit_failure_message, zstd_invocation, zstd_next, zstd_start, ZstdCommandView,
    ZstdPhase, ZstdReply, ZstdRunView,
};
use vstd::prelude::*;

verus! {

/// What the adapter is asked for, and the time at which it names the
/// artifact.
pub struct ZstdRequest {
    pub flags: Seq<Seq<char>>,
    pub input_path: Seq<char>,
    pub output_path: Seq<char>,
    pub timestamp: Seq<char>,
}

/// A run so far: where it stands, and all the commands and events it has
/// given, in order.
pub struct ZstdTrace {
    pub state: ZstdRunView,
    pub commands: Seq<ZstdCommandView>,
    pub events: Seq<EventView>,
}

/// The run for `q` to which `replies` were given, one after the other. None
/// if one of them did not answer the command before it.
pub open spec fn zstd_trace(q: ZstdRequest, replies: Seq<ZstdReply>) -> Option<ZstdTrace>
    decreases replies.len(),
{
    if replies.len() == 0 {
        let (state, step) = zstd_start(q.flags, q.input_path, q.output_path);
        Some(ZstdTrace { state, commands: seq![step.command], events: step.events })
    } else {
        match zstd_trace(q, replies.drop_last()) {
            Some(t) => match zstd_next(t.state, replies.last(), q.timestamp) {
                Some((state, step)) => Some(
                    ZstdTrace {
                        state,
                        commands: t.commands.push(step.command),
                        events: t.events + step.events,
                    },
                ),
                None => None,
            },
            None => None,
        }
    }
}

/// The diagnostic stream that `replies` hold: their chunks, end to end.
pub open spec fn stream_of(replies: Seq<ZstdReply>) -> Seq<u8>
    decreases replies.len(),
{
    if replies.len() == 0 {
        Seq::empty()
    } else {
        match replies.last() {
            ZstdReply::Read(bytes) => stream_of(replies.drop_last()) + bytes@,
            _ => stream_of(replies.drop_last()),
        }
    }
}

/// Whether `replies` hold the end of the diagnostic stream: an empty chunk.
pub open spec fn stream_ended(replies: Seq<ZstdReply>) -> bool
    decreases replies.len(),
{
    if replies.len() == 0 {
        false
    } else {
        match replies.last() {
            ZstdReply::Read(bytes) => bytes@.len() == 0 || stream_ended(replies.drop_last()),
            _ => stream_ended(replies.drop_last()),
        }
    }
}

/// The tracker at the start of a stream.
pub open spec fn fresh() -> ProgressView {
    ProgressView { pending: Seq::empty(), log: Seq::empty() }
}

/// The events of the lines of `stream`; if the stream has ended, also that
/// of the line that its end has ended.
pub open spec fn events_of_stream(stream: Seq<u8>, ended: bool) -> Seq<EventView> {
    if ended {
        events_of_bytes(fresh(), stream) + events_at_end(after_bytes(fresh(), stream))
    } else {
        events_of_bytes(fresh(), stream)
    }
}

/// The tracker after `stream`, and after its end if it has ended.
pub open spec fn progress_of_stream(stream: Seq<u8>, ended: bool) -> ProgressView {
    if ended {
        after_end(after_bytes(fresh(), stream))
    } else {
        after_bytes(fresh(), stream)
    }
}

/// What holds of a run at every step.
pub open spec fn well_shaped(q: ZstdRequest, replies: Seq<ZstdReply>, t: ZstdTrace) -> bool {
    let n = t.commands.len();
    &&& t.state.flags == q.flags
    &&& t.state.input_path == q.input_path
    &&& t.state.output_path == q.output_path
    &&& n == replies.len() + 1
    &&& forall|j: int| 0 <= j < n - 1 ==> !(#[trigger] t.commands[j] is Done)
    &&& (t.state.phase == ZstdPhase::Finished <==> t.commands.last() is Done)
    &&& forall|j: int|
        0 <= j < n && #[trigger] t.commands[j] is Spawn ==> {
            &&& j == 2
            &&& replies[0] matches ZstdReply::Exists(true)
            &&& replies[1] matches ZstdReply::Exists(true)
            &&& Some(t.commands[j]->Spawn_0) == zstd_invocation(t.state, q.timestamp)
        }
    &&& t.state.phase == ZstdPhase::CheckingInput ==> n == 1
    &&& t.state.phase == ZstdPhase::CheckingOutput ==> n == 2 && replies[0] == ZstdReply::Exists(
        true,
    )
    &&& t.state.phase == ZstdPhase::Spawning ==> n == 3
    &&& t.state.phase != ZstdPhase::CheckingInput && t.state.phase != ZstdPhase::CheckingOutput
        && t.state.phase != ZstdPhase::Finished ==> n >= 3 && t.commands[2] is Spawn
    &&& t.state.progress == progress_of_stream(stream_of(replies), stream_ended(replies))
    &&& t.events == events_of_stream(stream_of(replies), stream_ended(replies))
    &&& (t.state.phase == ZstdPhase::Draining || t.state.phase == ZstdPhase::Waiting)
        ==> stream_ended(replies)
    &&& (t.state.phase == ZstdPhase::CheckingInput || t.state.phase == ZstdPhase::CheckingOutput
        || t.state.phase == ZstdPhase::Spawning || t.state.phase == ZstdPhase::Reading)
        ==> !stream_ended(replies)
    &&& t.commands.last() matches ZstdCommandView::Done(Ok(_)) ==> {
        &&& replies.len() > 0
        &&& replies.last() matches ZstdReply::Exited(report)
        &&& report.success
        &&& stream_ended(replies)
    }
}

/// One more answer keeps a run well shaped.
proof fn lemma_step_keeps_shape(
    q: ZstdRequest,
    replies: Seq<ZstdReply>,
    before: ZstdTrace,
    after: ZstdTrace,
)
    requires
        replies.len() > 0,
        well_shaped(q, replies.drop_last(), before),
        zstd_next(before.state, replies.last(), q.timestamp) matches Some((state, step)) && after
            == (ZstdTrace {
            state,
            commands: before.commands.push(step.command),
            events: before.events + step.events,
        }),
    ensures
        well_shaped(q, replies, after),
{
    match replies.last() {
        ZstdReply::Read(bytes) => {
            law_chunking_is_irrelevant(fresh(), stream_of(replies.drop_last()), bytes@);
        },
        _ => {},
    }
}

/// Every run is well shaped: what `well_shaped` says holds at every step.
pub proof fn law_runs_are_well_shaped(q: ZstdRequest, replies: Seq<ZstdReply>)
    ensures
        zstd_trace(q, replies) matches Some(t) ==> well_shaped(q, replies, t),
    decreases replies.len(),
{
    if replies.len() > 0 {
        law_runs_are_well_shaped(q, replies.drop_last());
        match zstd_trace(q, replies.drop_last()) {
            Some(before) => match zstd_trace(q, replies) {
                Some(after) => {
                    lemma_step_keeps_shape(q, replies, before, after);
                },
                None => {},
            },
            None => {},
        }
    }
}

/// The process is started only after both paths were found to exist, as the
/// third command of a run, and with the command line of the request.
pub proof fn law_process_starts_after_validation(
    q: ZstdRequest,
    replies: Seq<ZstdReply>,
    j: int,
)
    requires
        zstd_trace(q, replies) matches Some(t) && 0 <= j < t.commands.len()
            && t.commands[j] is Spawn,
    ensures
        j == 2,
        replies[0] matches ZstdReply::Exists(true),
        replies[1] matches ZstdReply::Exists(true),
        Some(zstd_trace(q, replies).unwrap().commands[j]->Spawn_0) == zstd_invocation(
            zstd_start(q.flags, q.input_path, q.output_path).0,
            q.timestamp,
        ),
{
    law_runs_are_well_shaped(q, replies);
}

/// A run ends exactly once: the command that ends it is its last, and once
/// it is given no answer is taken.
pub proof fn law_run_ends_once(q: ZstdRequest, replies: Seq<ZstdReply>, reply: ZstdReply)
    requires
        zstd_trace(q, replies) is Some,
    ensures
        ({
            let t = zstd_trace(q, replies).unwrap();
            &&& forall|j: int| 0 <= j < t.commands.len() - 1 ==> !(#[trigger] t.commands[j] is Done)
            &&& t.commands.last() is Done ==> zstd_trace(q, replies.push(reply)) is None
        }),
{
    law_runs_are_well_shaped(q, replies);
    assert(replies.push(reply).drop_last() =~= replies);
}

/// The events of a run are those of the lines of its diagnostic stream, in
/// order, however the stream was cut into chunks.
pub proof fn law_events_are_the_lines_of_the_stream(q: ZstdRequest, replies: Seq<ZstdReply>)
    requires
        zstd_trace(q, replies) is Some,
    ensures
        zstd_trace(q, replies).unwrap().events == events_of_stream(
            stream_of(replies),
            stream_ended(replies),
        ),
{
    law_runs_are_well_shaped(q, replies);
}

/// A run succeeds only if the process has ended and reported success, after
/// its diagnostic stream was read to the end.
pub proof fn law_success_follows_the_exit(q: ZstdRequest, replies: Seq<ZstdReply>)
    requires
        zstd_trace(q, replies) matches Some(t) && t.commands.last() == ZstdCommandView::Done(
            Ok(()),
        ),
    ensures
        replies.len() > 0,
        replies.last() matches ZstdReply::Exited(report) && report.success,
        stream_ended(replies),
{
    law_runs_are_well_shaped(q, replies);
}

/// When the process reports failure, the run fails with a message that
/// holds the exit code and every reported line of the diagnostic stream.
pub proof fn law_exit_failure_holds_the_lines(
    q: ZstdRequest,
    front: Seq<ZstdReply>,
    report: crate::process::ExitReport,
)
    requires
        zstd_trace(q, front.push(ZstdReply::Exited(report))) is Some,
        !report.success,
    ensures
        ({
            let t = zstd_trace(q, front.push(ZstdReply::Exited(report))).unwrap();
            t.commands.last() == ZstdCommandView::Done(
                Err(
                    ErrorView {
                        kind: ErrorKind::BackendExitFailure,
                        message: exit_failure_message(report.code, log_of_events(t.events)),
                    },
                ),
            )
        }),
{
    let replies = front.push(ZstdReply::Exited(report));
    assert(replies.drop_last() =~= front);
    law_runs_are_well_shaped(q, front);
    law_runs_are_well_shaped(q, replies);
    let stream = stream_of(front);
    law_log_holds_the_events(fresh(), stream);
    let head = events_of_bytes(fresh(), stream);
    match line_event(after_bytes(fresh(), stream).pending) {
        Some(e) => {
            assert((head + seq![e]).drop_last() =~= head);
        },
        None => {},
    }
}

} // verus!
