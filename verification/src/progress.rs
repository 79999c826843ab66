//! Progress lines out of a tool's diagnostic stream.
//!
//! The stream arrives in chunks of bytes that end anywhere. A line ends at a
//! line feed or at a carriage return, with which the tool redraws its
//! progress. Each line that holds more than white space is reported as a
//! progress event and kept in a log for the message of a later failure.

use crate::event::{event_views, progress_event, CompressionEvent, EventType, EventView};
use crate::text::{decode_lossy, is_white_space, lemma_trimmed_is_tight, trim, trimmed, utf8_lossy};
use vstd::prelude::*;

verus! {

/// The name under which progress lines are reported.
pub open spec fn progress_algorithm() -> Seq<char> {
    "zstd"@
}

/// A byte that ends a line: line feed or carriage return.
pub open spec fn is_line_break(b: u8) -> bool {
    b == 10 || b == 13
}

/// The text of the line with the bytes `raw`: decoded, malformed sequences
/// replaced, and trimmed.
pub open spec fn line_text(raw: Seq<u8>) -> Seq<char> {
    trimmed(utf8_lossy(raw))
}

/// The event that reports the line with the bytes `raw`. A line without
/// bytes, or with nothing but white space, is not reported.
pub open spec fn line_event(raw: Seq<u8>) -> Option<EventView> {
    if raw.len() == 0 || line_text(raw).len() == 0 {
        None
    } else {
        Some(progress_event(progress_algorithm(), line_text(raw)))
    }
}

/// The log after the line with the bytes `raw` has ended: a reported line is
/// appended with a line feed.
pub open spec fn log_after_line(log: Seq<char>, raw: Seq<u8>) -> Seq<char> {
    match line_event(raw) {
        Some(e) => log + e.message + "\n"@,
        None => log,
    }
}

/// The event that reports the line with the text `line`: none for an empty
/// line.
pub open spec fn text_event(line: Seq<char>) -> Option<EventView> {
    if line.len() == 0 {
        None
    } else {
        Some(progress_event(progress_algorithm(), line))
    }
}

/// Takes in a line that has ended, decoded and trimmed: an empty line is
/// passed over; any other is appended to `full_stderr`, with a line feed,
/// and its event is returned.
pub fn report_line(line: String, full_stderr: &mut String) -> (r: Option<CompressionEvent>)
    ensures
        match r {
            Some(e) => text_event(line@) == Some(e@),
            None => text_event(line@) is None,
        },
        final(full_stderr)@ == if line@.len() == 0 {
            old(full_stderr)@
        } else {
            old(full_stderr)@ + line@ + "\n"@
        },
{
    if line.as_str().unicode_len() == 0 {
        return None;
    }
    full_stderr.append(line.as_str());
    full_stderr.append("\n");
    Some(CompressionEvent::progress("zstd", line))
}

/// Ends the line whose bytes have gathered in `current_line`: empties
/// `current_line`, and, if the line is reported, appends it to `full_stderr`
/// and returns its event.
pub fn emit_progress(current_line: &mut Vec<u8>, full_stderr: &mut String) -> (r: Option<
    CompressionEvent,
>)
    ensures
        final(current_line)@ == Seq::<u8>::empty(),
        final(full_stderr)@ == log_after_line(old(full_stderr)@, old(current_line)@),
        match r {
            Some(e) => line_event(old(current_line)@) == Some(e@),
            None => line_event(old(current_line)@) is None,
        },
{
    if current_line.len() == 0 {
        return None;
    }
    let decoded = decode_lossy(current_line.as_slice());
    let line = trim(decoded.as_str());
    current_line.clear();
    report_line(line, full_stderr)
}

/// What the contracts say of a `ProgressTracker`.
pub struct ProgressView {
    /// The bytes of the line that has not ended yet.
    pub pending: Seq<u8>,
    /// The reported lines so far, each followed by a line feed.
    pub log: Seq<char>,
}

/// The tracker after the byte `b` has arrived.
pub open spec fn after_byte(s: ProgressView, b: u8) -> ProgressView {
    if is_line_break(b) {
        ProgressView { pending: Seq::empty(), log: log_after_line(s.log, s.pending) }
    } else {
        ProgressView { pending: s.pending.push(b), log: s.log }
    }
}

/// The event that the arrival of the byte `b` gives rise to.
pub open spec fn event_of_byte(s: ProgressView, b: u8) -> Option<EventView> {
    if is_line_break(b) {
        line_event(s.pending)
    } else {
        None
    }
}

/// The tracker after the bytes `bytes` have arrived, one after the other.
pub open spec fn after_bytes(s: ProgressView, bytes: Seq<u8>) -> ProgressView
    decreases bytes.len(),
{
    if bytes.len() == 0 {
        s
    } else {
        after_byte(after_bytes(s, bytes.drop_last()), bytes.last())
    }
}

/// The events that the arrival of the bytes `bytes` gives rise to, in order.
pub open spec fn events_of_bytes(s: ProgressView, bytes: Seq<u8>) -> Seq<EventView>
    decreases bytes.len(),
{
    if bytes.len() == 0 {
        Seq::empty()
    } else {
        let before = events_of_bytes(s, bytes.drop_last());
        match event_of_byte(after_bytes(s, bytes.drop_last()), bytes.last()) {
            Some(e) => before.push(e),
            None => before,
        }
    }
}

/// The tracker after the stream has ended: the line that was still open has
/// ended with it.
pub open spec fn after_end(s: ProgressView) -> ProgressView {
    ProgressView { pending: Seq::empty(), log: log_after_line(s.log, s.pending) }
}

/// The messages of `events`, each followed by a line feed.
pub open spec fn log_of_events(events: Seq<EventView>) -> Seq<char>
    decreases events.len(),
{
    if events.len() == 0 {
        Seq::empty()
    } else {
        log_of_events(events.drop_last()) + events.last().message + "\n"@
    }
}

/// Gathers the bytes of a diagnostic stream into lines.
pub struct ProgressTracker {
    current_line: Vec<u8>,
    full_stderr: String,
}

impl View for ProgressTracker {
    type V = ProgressView;

    closed spec fn view(&self) -> ProgressView {
        ProgressView { pending: self.current_line@, log: self.full_stderr@ }
    }
}

impl ProgressTracker {
    /// A tracker at the start of a stream.
    pub fn new() -> (r: ProgressTracker)
        ensures
            r@ == (ProgressView { pending: Seq::empty(), log: Seq::empty() }),
    {
        ProgressTracker { current_line: Vec::new(), full_stderr: String::new() }
    }

    /// Takes in the next chunk of the stream and returns the events of the
    /// lines that end in it.
    pub fn feed(&mut self, chunk: &[u8]) -> (events: Vec<CompressionEvent>)
        ensures
            final(self)@ == after_bytes(old(self)@, chunk@),
            event_views(events@) == events_of_bytes(old(self)@, chunk@),
    {
        let mut events: Vec<CompressionEvent> = Vec::new();
        let mut i: usize = 0;
        while i < chunk.len()
            invariant
                i <= chunk.len(),
                self@ == after_bytes(old(self)@, chunk@.take(i as int)),
                event_views(events@) == events_of_bytes(old(self)@, chunk@.take(i as int)),
            decreases chunk.len() - i,
        {
            let b = chunk[i];
            assert(chunk@.take(i + 1).drop_last() =~= chunk@.take(i as int));
            if b == 10 || b == 13 {
                match emit_progress(&mut self.current_line, &mut self.full_stderr) {
                    Some(e) => {
                        events.push(e);
                    },
                    None => {},
                }
            } else {
                self.current_line.push(b);
            }
            i += 1;
        }
        assert(chunk@.take(chunk.len() as int) =~= chunk@);
        events
    }

    /// Ends the stream: the line that was still open ends with it, and its
    /// event is returned if it is reported.
    pub fn finish(&mut self) -> (r: Option<CompressionEvent>)
        ensures
            final(self)@ == after_end(old(self)@),
            match r {
                Some(e) => line_event(old(self)@.pending) == Some(e@),
                None => line_event(old(self)@.pending) is None,
            },
    {
        emit_progress(&mut self.current_line, &mut self.full_stderr)
    }

    /// The reported lines so far, each followed by a line feed.
    pub fn log(&self) -> (r: &str)
        ensures
            r@ == self@.log,
    {
        self.full_stderr.as_str()
    }
}

/// How a stream is cut into chunks does not matter: feeding `a` and then `b`
/// leaves the tracker as feeding `a + b` does, and gives the same events.
pub proof fn law_chunking_is_irrelevant(s: ProgressView, a: Seq<u8>, b: Seq<u8>)
    ensures
        after_bytes(s, a + b) == after_bytes(after_bytes(s, a), b),
        events_of_bytes(s, a + b) == events_of_bytes(s, a) + events_of_bytes(
            after_bytes(s, a),
            b,
        ),
    decreases b.len(),
{
    if b.len() > 0 {
        law_chunking_is_irrelevant(s, a, b.drop_last());
        assert((a + b).drop_last() =~= a + b.drop_last());
    }
}

/// The open line never holds a line break.
pub proof fn law_open_line_has_no_break(s: ProgressView, bytes: Seq<u8>)
    requires
        forall|i: int| 0 <= i < s.pending.len() ==> !is_line_break(#[trigger] s.pending[i]),
    ensures
        forall|i: int|
            0 <= i < after_bytes(s, bytes).pending.len() ==> !is_line_break(
                #[trigger] after_bytes(s, bytes).pending[i],
            ),
    decreases bytes.len(),
{
    if bytes.len() > 0 {
        law_open_line_has_no_break(s, bytes.drop_last());
        let mid = after_bytes(s, bytes.drop_last());
        let end = after_bytes(s, bytes);
        assert forall|i: int| 0 <= i < end.pending.len() implies !is_line_break(
            #[trigger] end.pending[i],
        ) by {
            if i < mid.pending.len() {
                assert(!is_line_break(mid.pending[i]));
            }
        }
    }
}

/// The log grows by exactly the messages of the events, each followed by a
/// line feed.
pub proof fn law_log_holds_the_events(s: ProgressView, bytes: Seq<u8>)
    ensures
        after_bytes(s, bytes).log == s.log + log_of_events(events_of_bytes(s, bytes)),
    decreases bytes.len(),
{
    if bytes.len() > 0 {
        law_log_holds_the_events(s, bytes.drop_last());
        let before = events_of_bytes(s, bytes.drop_last());
        match event_of_byte(after_bytes(s, bytes.drop_last()), bytes.last()) {
            Some(e) => {
                assert(before.push(e).drop_last() =~= before);
            },
            None => {},
        }
    }
}

/// Every event of a stream is a progress event under the name of the
/// algorithm. Its message is not empty and neither begins nor ends with
/// white space.
pub proof fn law_events_are_progress_lines(s: ProgressView, bytes: Seq<u8>, k: int)
    requires
        0 <= k < events_of_bytes(s, bytes).len(),
    ensures
        ({
            let e = events_of_bytes(s, bytes)[k];
            &&& e.event_type == EventType::Progress
            &&& e.algorithm == progress_algorithm()
            &&& e.message.len() > 0
            &&& !is_white_space(e.message.first())
            &&& !is_white_space(e.message.last())
            &&& e.percentage == crate::percent::percentage_text(e.message)
        }),
    decreases bytes.len(),
{
    let before = events_of_bytes(s, bytes.drop_last());
    if k < before.len() {
        law_events_are_progress_lines(s, bytes.drop_last(), k);
    } else {
        let mid = after_bytes(s, bytes.drop_last());
        lemma_trimmed_is_tight(utf8_lossy(mid.pending));
    }
}

} // verus!
