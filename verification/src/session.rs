//! The per-connection session: the deadline-bounded read/accumulate/decide
//! loop, and the decoding of the finished buffer.
//!
//! A session owns one accepted connection's accumulation buffer. The socket
//! work — setting the read deadline, performing each bounded read — happens
//! outside the library; each outcome is fed back in as a plain event, and the
//! session decides what happens next. The phases follow the lifecycle
//! `Idle -> DeadlineSet -> Reading (loop) -> Decoding`, ending in a
//! [`SessionOutcome`]: either the decoded text is reported, or the session is
//! abandoned. No buffer state survives a session: every session starts empty.

use vstd::prelude::*;

use crate::decode::utf8_decode;
use crate::decode::utf8_to_string;
use crate::parser::AlwaysComplete;
use crate::parser::ParsePolicy;

verus! {

/// The outcome of one bounded read attempt, as the connection driver saw it.
pub enum ReadEvent {
    /// The read returned this chunk of bytes.
    Data(Vec<u8>),
    /// The read failed (deadline exceeded, peer reset, or end of stream);
    /// it contributes zero bytes, and completeness is re-evaluated on the
    /// unchanged buffer.
    Failed,
}

/// The bytes an event contributes to the accumulation buffer.
pub open spec fn event_bytes(event: ReadEvent) -> Seq<u8> {
    match event {
        ReadEvent::Data(chunk) => chunk@,
        ReadEvent::Failed => Seq::empty(),
    }
}

/// Why a session ended without reporting a body.
#[derive(Debug, PartialEq, Eq)]
pub enum AbandonReason {
    /// The read deadline could not be configured; no data was read.
    Config,
    /// The finished buffer was not valid text; the decoder's error message
    /// is carried for the log.
    Decode(String),
}

/// How a session ended. Both variants are terminal and equivalent from the
/// listener's point of view: the session is over and the next connection is
/// accepted.
#[derive(Debug, PartialEq, Eq)]
pub enum SessionOutcome {
    /// The buffer decoded successfully; the contained text is reported.
    Reported(String),
    /// The session was abandoned; nothing is reported for this connection.
    Abandoned(AbandonReason),
}

/// The live phases of a session. The terminal states (reported, abandoned
/// after decoding) are carried by [`SessionOutcome`] when the session is
/// consumed; `Abandoned` here is reached only from `Idle`, on a deadline
/// configuration failure.
pub enum Phase {
    Idle,
    DeadlineSet,
    Reading,
    Decoding,
    Abandoned,
}

/// One connection's session: the parse policy in force, the accumulation
/// buffer, and the current phase.
pub struct Session<P: ParsePolicy> {
    pub policy: P,
    pub buffer: Vec<u8>,
    pub phase: Phase,
}

impl<P: ParsePolicy> Session<P> {
    /// A fresh session: empty buffer, nothing configured. Every connection
    /// gets a new one; no state is shared with or reused from any other
    /// session.
    pub fn new(policy: P) -> (session: Self)
        ensures
            session.policy == policy,
            session.buffer@ == Seq::<u8>::empty(),
            session.phase is Idle,
    {
        Session { policy, buffer: Vec::new(), phase: Phase::Idle }
    }

    /// Record whether the read deadline could be set on the connection. On
    /// failure the session is abandoned before any data is read.
    pub fn configure_deadline(&mut self, ok: bool)
        requires
            old(self).phase is Idle,
        ensures
            final(self).policy == old(self).policy,
            final(self).buffer@ == old(self).buffer@,
            ok ==> final(self).phase is DeadlineSet,
            !ok ==> final(self).phase is Abandoned,
    {
        self.phase = if ok {
            Phase::DeadlineSet
        } else {
            Phase::Abandoned
        };
    }

    /// Enter the read loop.
    pub fn begin_reading(&mut self)
        requires
            old(self).phase is DeadlineSet,
        ensures
            final(self).policy == old(self).policy,
            final(self).buffer@ == old(self).buffer@,
            final(self).phase is Reading,
    {
        self.phase = Phase::Reading;
    }

    /// One iteration of the read loop: append whatever the read attempt
    /// contributed (a failed read contributes nothing), then re-evaluate the
    /// parse decision on the buffer's new contents. The buffer only ever
    /// grows, and it grows by exactly the event's bytes.
    pub fn on_read(&mut self, event: &ReadEvent) -> (complete: bool)
        requires
            old(self).phase is Reading,
        ensures
            final(self).policy == old(self).policy,
            final(self).buffer@ == old(self).buffer@ + event_bytes(*event),
            complete == old(self).policy.complete_spec(old(self).buffer@ + event_bytes(*event)),
            complete ==> final(self).phase is Decoding,
            !complete ==> final(self).phase is Reading,
    {
        let ghost pre = *self;
        match event {
            ReadEvent::Data(chunk) => {
                let mut i: usize = 0;
                while i < chunk.len()
                    invariant
                        i <= chunk.len(),
                        self.policy == pre.policy,
                        self.phase == pre.phase,
                        self.buffer@ == pre.buffer@ + chunk@.take(i as int),
                    decreases chunk.len() - i,
                {
                    self.buffer.push(chunk[i]);
                    i = i + 1;
                }
                assert(chunk@.take(chunk@.len() as int) =~= chunk@);
            }
            ReadEvent::Failed => {
                assert(self.buffer@ =~= pre.buffer@ + event_bytes(*event));
            }
        }
        let complete = self.policy.is_complete(&self.buffer);
        if complete {
            self.phase = Phase::Decoding;
        }
        complete
    }

    /// End the session: decode the finished buffer and report, or abandon.
    /// The reported text is the decoding of exactly the accumulated bytes —
    /// no truncation, no extra bytes; a buffer that is not valid text is
    /// abandoned with a decode failure; a session abandoned at configuration
    /// time reports nothing.
    pub fn finish(self) -> (outcome: SessionOutcome)
        requires
            self.phase is Decoding || self.phase is Abandoned,
        ensures
            self.phase is Abandoned ==> outcome == SessionOutcome::Abandoned(
                AbandonReason::Config,
            ),
            self.phase is Decoding ==> match utf8_decode(self.buffer@) {
                Some(text) => outcome matches SessionOutcome::Reported(s) && s@ == text,
                None => (outcome matches SessionOutcome::Abandoned(reason) && reason is Decode),
            },
            self.phase is Decoding && self.buffer@.len() == 0 ==> (outcome
                matches SessionOutcome::Reported(s) && s@ == Seq::<char>::empty()),
    {
        match self.phase {
            Phase::Abandoned => SessionOutcome::Abandoned(AbandonReason::Config),
            _ => {
                let decoded = utf8_to_string(self.buffer);
                report_outcome(decoded)
            }
        }
    }
}

/// What the session reports for each decoding result: the decoded text
/// exactly as decoded, or abandonment on a decode failure — never a report
/// without a successfully decoded body.
pub fn report_outcome(decoded: Result<String, String>) -> (outcome: SessionOutcome)
    ensures
        decoded matches Ok(text) ==> (outcome matches SessionOutcome::Reported(s) && s == text),
        decoded matches Err(message) ==> outcome == SessionOutcome::Abandoned(
            AbandonReason::Decode(message),
        ),
{
    match decoded {
        Ok(text) => SessionOutcome::Reported(text),
        Err(message) => SessionOutcome::Abandoned(AbandonReason::Decode(message)),
    }
}

/// The read loop as a function of the successive read outcomes: starting
/// from `buffer`, each event's bytes are appended and completeness is then
/// re-evaluated, exactly as the loop does (a read attempt always precedes
/// the first decision). `Some` holds the buffer at the moment the parse
/// decision first reported completeness; `None` means the supplied events
/// were exhausted first, i.e. the loop would still be waiting on a read.
pub open spec fn loop_result<P: ParsePolicy>(
    policy: P,
    buffer: Seq<u8>,
    events: Seq<ReadEvent>,
) -> Option<Seq<u8>>
    decreases events.len(),
{
    if events.len() == 0 {
        None
    } else {
        let grown = buffer + event_bytes(events[0]);
        if policy.complete_spec(grown) {
            Some(grown)
        } else {
            loop_result(policy, grown, events.skip(1))
        }
    }
}

/// Run one whole session over a prescribed sequence of read outcomes: the
/// replayable form of the per-connection loop. `None` means the events ran
/// out before the parse decision reported completeness (the real loop would
/// be blocked on a further read).
pub fn run_session<P: ParsePolicy>(
    policy: P,
    config_ok: bool,
    events: &Vec<ReadEvent>,
) -> (result: Option<SessionOutcome>)
    ensures
        !config_ok ==> result == Some(
            SessionOutcome::Abandoned(AbandonReason::Config),
        ),
        config_ok ==> match loop_result(policy, Seq::<u8>::empty(), events@) {
            None => result is None,
            Some(finished) => match utf8_decode(finished) {
                Some(text) => (result matches Some(outcome) && outcome
                    matches SessionOutcome::Reported(s) && s@ == text),
                None => (result matches Some(outcome) && outcome
                    matches SessionOutcome::Abandoned(reason) && reason is Decode),
            },
        },
{
    let mut session = Session::new(policy);
    session.configure_deadline(config_ok);
    if !config_ok {
        return Some(session.finish());
    }
    session.begin_reading();
    proof {
        assert(events@.skip(0) =~= events@);
    }
    let mut idx: usize = 0;
    while idx < events.len()
        invariant
            config_ok,
            idx <= events.len(),
            session.policy == policy,
            session.phase is Reading,
            loop_result(policy, Seq::<u8>::empty(), events@) == loop_result(
                policy,
                session.buffer@,
                events@.skip(idx as int),
            ),
        decreases events.len() - idx,
    {
        let ghost remaining = events@.skip(idx as int);
        let complete = session.on_read(&events[idx]);
        proof {
            assert(remaining.len() > 0);
            assert(remaining[0] == events@[idx as int]);
            assert(remaining.skip(1) =~= events@.skip(idx as int + 1));
        }
        if complete {
            return Some(session.finish());
        }
        idx = idx + 1;
    }
    proof {
        assert(events@.skip(idx as int).len() == 0);
    }
    None
}

/// The accumulation buffer is monotonically non-decreasing within a session:
/// each read leaves the bytes already accumulated in place, as a prefix, and
/// can only add to them.
pub proof fn lemma_buffer_monotone(buffer: Seq<u8>, chunk: Seq<u8>)
    ensures
        buffer.len() <= (buffer + chunk).len(),
        buffer.is_prefix_of(buffer + chunk),
{
    assert((buffer + chunk).subrange(0, buffer.len() as int) =~= buffer);
}

/// Deadline enforcement under the reference policy: whatever a session's
/// first read attempt produces — bytes, or nothing because the deadline
/// expired or the peer closed — the loop completes immediately on it, so a
/// silent client delays the session by at most one deadline window; the loop
/// never re-enters a read.
pub proof fn lemma_deadline_never_blocks(events: Seq<ReadEvent>)
    requires
        events.len() > 0,
    ensures
        loop_result(AlwaysComplete, Seq::<u8>::empty(), events) == Some(event_bytes(events[0])),
{
    assert(Seq::<u8>::empty() + event_bytes(events[0]) =~= event_bytes(events[0]));
}

/// The bytes delivered to a session by its first `count` read events,
/// in arrival order.
pub open spec fn delivered_bytes(events: Seq<ReadEvent>, count: int) -> Seq<u8>
    decreases count,
{
    if count <= 0 {
        Seq::empty()
    } else {
        delivered_bytes(events, count - 1) + event_bytes(events[count - 1])
    }
}

proof fn lemma_delivered_bytes_one(events: Seq<ReadEvent>)
    requires
        events.len() >= 1,
    ensures
        delivered_bytes(events, 1) == event_bytes(events[0]),
{
    assert(delivered_bytes(events, 0) == Seq::<u8>::empty());
    assert(delivered_bytes(events, 1) == delivered_bytes(events, 0) + event_bytes(events[0]));
    assert(Seq::<u8>::empty() + event_bytes(events[0]) =~= event_bytes(events[0]));
}

proof fn lemma_delivered_bytes_shift(events: Seq<ReadEvent>, count: int)
    requires
        0 <= count,
        count + 1 <= events.len(),
    ensures
        delivered_bytes(events, count + 1) == event_bytes(events[0]) + delivered_bytes(
            events.skip(1),
            count,
        ),
    decreases count,
{
    if count == 0 {
        lemma_delivered_bytes_one(events);
        assert(delivered_bytes(events.skip(1), 0) == Seq::<u8>::empty());
        assert(event_bytes(events[0]) + Seq::<u8>::empty() =~= event_bytes(events[0]));
    } else {
        lemma_delivered_bytes_shift(events, count - 1);
        assert(events.skip(1)[count - 1] == events[count]);
        assert(delivered_bytes(events, count + 1) =~= event_bytes(events[0]) + delivered_bytes(
            events.skip(1),
            count,
        ));
    }
}

proof fn lemma_loop_result_from_own_events<P: ParsePolicy>(
    policy: P,
    buffer: Seq<u8>,
    events: Seq<ReadEvent>,
    finished: Seq<u8>,
)
    requires
        loop_result(policy, buffer, events) == Some(finished),
    ensures
        exists|count: int|
            1 <= count <= events.len() && finished == buffer + #[trigger] delivered_bytes(
                events,
                count,
            ),
    decreases events.len(),
{
    let grown = buffer + event_bytes(events[0]);
    if policy.complete_spec(grown) {
        lemma_delivered_bytes_one(events);
        assert(finished == buffer + delivered_bytes(events, 1));
    } else {
        lemma_loop_result_from_own_events(policy, grown, events.skip(1), finished);
        let count = choose|count: int|
            1 <= count <= events.skip(1).len() && finished == grown + #[trigger] delivered_bytes(
                events.skip(1),
                count,
            );
        lemma_delivered_bytes_shift(events, count);
        assert(grown + delivered_bytes(events.skip(1), count) =~= buffer + delivered_bytes(
            events,
            count + 1,
        ));
        assert(finished == buffer + delivered_bytes(events, count + 1));
    }
}

/// Sequential isolation: a buffer that the read loop declares complete is
/// made of the session's own read events alone — it is exactly the
/// concatenation of the chunks delivered by some prefix of those events.
/// Since every session starts from an empty buffer, bytes sent on one
/// connection can never appear in another connection's reported output.
pub proof fn lemma_sequential_isolation<P: ParsePolicy>(
    policy: P,
    events: Seq<ReadEvent>,
    finished: Seq<u8>,
)
    requires
        loop_result(policy, Seq::<u8>::empty(), events) == Some(finished),
    ensures
        exists|count: int|
            1 <= count <= events.len() && finished == #[trigger] delivered_bytes(events, count),
{
    lemma_loop_result_from_own_events(policy, Seq::<u8>::empty(), events, finished);
    let count = choose|count: int|
        1 <= count <= events.len() && finished == Seq::<u8>::empty() + #[trigger] delivered_bytes(
            events,
            count,
        );
    assert(Seq::<u8>::empty() + delivered_bytes(events, count) =~= delivered_bytes(events, count));
    assert(finished == delivered_bytes(events, count));
}

} // verus!
