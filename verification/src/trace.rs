use vstd::prelude::*;

use crate::classify::{classifies, ClassifiedView, Ignored};
use crate::frame::{CloseReasonView, FrameView};
use crate::heartbeat::elapsed;
use crate::request::RequestView;
use crate::route::JambonzRouteType;
use crate::session::{
    closing, finished, refreshed, transition, ActionView, ConnectionView, EventView, PhaseView,
};
use crate::trusted::{hook_text_decodes, recording_text_decodes};

verus! {

/// An event together with the time at which the loop handles it.
pub struct Occurrence {
    pub event: EventView,
    pub at: u64,
}

/// What one occurrence makes of a connection, and what the loop has to do.
pub open spec fn react(c: ConnectionView, o: Occurrence) -> (ConnectionView, ActionView) {
    transition(c, o.event, o.at)
}

/// The connection after the loop has handled a whole trace, in order.
pub open spec fn run(c: ConnectionView, trace: Seq<Occurrence>) -> ConnectionView
    decreases trace.len(),
{
    if trace.len() == 0 {
        c
    } else {
        react(run(c, trace.drop_last()), trace.last()).0
    }
}

/// What the loop had to do along a trace, one action for each occurrence.
pub open spec fn actions(c: ConnectionView, trace: Seq<Occurrence>) -> Seq<ActionView>
    decreases trace.len(),
{
    if trace.len() == 0 {
        Seq::empty()
    } else {
        actions(c, trace.drop_last()).push(react(run(c, trace.drop_last()), trace.last()).1)
    }
}

/// How far a phase is along the way from open to closed.
pub open spec fn rank(phase: PhaseView) -> int {
    match phase {
        PhaseView::Open => 0,
        PhaseView::Closing(_) => 1,
        PhaseView::Closed => 2,
    }
}

/// Whether an event is a liveness signal of the peer: a ping or a pong.
pub open spec fn is_signal(event: EventView) -> bool {
    event matches EventView::Frame(f) && (f is Ping || f is Pong)
}

/// Whether an event ends the loop of an open connection whatever the time:
/// a close frame, or a stream that failed or ended.
pub open spec fn is_ending(event: EventView) -> bool {
    ||| event is TransportError
    ||| event is StreamEnded
    ||| event matches EventView::Frame(f) && f is Close
}

/// Whether an action ends the loop.
pub open spec fn is_terminal(action: ActionView) -> bool {
    action is DispatchAndStop || action is Stop
}

/// Whether text decodes into the payload that a flavor expects.
pub open spec fn text_decodes(flavor: JambonzRouteType, text: Seq<char>) -> bool {
    match flavor {
        JambonzRouteType::Hook => hook_text_decodes(text),
        JambonzRouteType::Recording => recording_text_decodes(text),
    }
}

/// A trace of one occurrence is one transition.
pub proof fn lemma_run_one(c: ConnectionView, o: Occurrence)
    ensures
        run(c, seq![o]) == react(c, o).0,
        actions(c, seq![o]) == seq![react(c, o).1],
{
    let trace = seq![o];
    assert(trace.drop_last() =~= Seq::<Occurrence>::empty());
    assert(run(c, trace.drop_last()) == c);
    assert(actions(c, trace.drop_last()) =~= Seq::<ActionView>::empty());
    assert(actions(c, trace) =~= seq![react(c, o).1]);
}

/// A trace can be handled in two parts: the second part starts from where
/// the first one left the connection.
pub proof fn lemma_run_split(c: ConnectionView, head: Seq<Occurrence>, tail: Seq<Occurrence>)
    ensures
        run(c, head + tail) == run(run(c, head), tail),
        actions(c, head + tail) == actions(c, head) + actions(run(c, head), tail),
    decreases tail.len(),
{
    if tail.len() == 0 {
        assert(head + tail =~= head);
        assert(actions(c, head) + actions(run(c, head), tail) =~= actions(c, head));
    } else {
        lemma_run_split(c, head, tail.drop_last());
        assert((head + tail).drop_last() =~= head + tail.drop_last());
        assert((head + tail).last() == tail.last());
        assert(actions(c, head + tail) =~= actions(c, head) + actions(run(c, head), tail));
    }
}

/// Each occurrence of a trace has its action, which is the one that the
/// transition table gives for the connection as the occurrences before it
/// left it.
pub proof fn lemma_action_at(c: ConnectionView, trace: Seq<Occurrence>, i: int)
    requires
        0 <= i < trace.len(),
    ensures
        actions(c, trace).len() == trace.len(),
        actions(c, trace)[i] == react(run(c, trace.take(i)), trace[i]).1,
    decreases trace.len(),
{
    lemma_actions_len(c, trace);
    if i == trace.len() - 1 {
        assert(trace.take(i) =~= trace.drop_last());
    } else {
        lemma_action_at(c, trace.drop_last(), i);
        assert(trace.drop_last().take(i) =~= trace.take(i));
    }
}

proof fn lemma_actions_len(c: ConnectionView, trace: Seq<Occurrence>)
    ensures
        actions(c, trace).len() == trace.len(),
    decreases trace.len(),
{
    if trace.len() > 0 {
        lemma_actions_len(c, trace.drop_last());
    }
}

/// The transition table by the frame that arrived. On an open connection
/// every frame, classified for the connection's flavor, has exactly the
/// effect listed here; of a text frame that decodes, all is fixed but the
/// payload, which is the decoder's.
pub proof fn lemma_frame_table(c: ConnectionView, frame: FrameView, out: ClassifiedView, now: u64)
    requires
        c.phase is Open,
        classifies(c.flavor, frame, out),
    ensures
        match frame {
            FrameView::Text(text) => if text_decodes(c.flavor, text) {
                &&& transition(c, EventView::Frame(out), now).0 == c
                &&& transition(c, EventView::Frame(out), now).1 matches ActionView::Dispatch(
                    request,
                )
                &&& c.flavor is Hook ==> request is Hook
                &&& c.flavor is Recording ==> request is RecordingNew
            } else {
                transition(c, EventView::Frame(out), now) == (c, ActionView::Idle)
            },
            FrameView::Binary(bytes) => transition(c, EventView::Frame(out), now) == (
                c,
                if c.flavor is Recording {
                    ActionView::Dispatch(RequestView::Binary(bytes))
                } else {
                    ActionView::Idle
                },
            ),
            FrameView::Ping(bytes) => transition(c, EventView::Frame(out), now) == (
                refreshed(c, now),
                ActionView::Pong(bytes),
            ),
            FrameView::Pong(_) => transition(c, EventView::Frame(out), now) == (
                refreshed(c, now),
                ActionView::Idle,
            ),
            FrameView::Close(reason) => transition(c, EventView::Frame(out), now) == (
                closing(c, reason),
                ActionView::DispatchAndStop(RequestView::Close(reason)),
            ),
            FrameView::Continuation => transition(c, EventView::Frame(out), now) == (
                c,
                ActionView::Idle,
            ),
            FrameView::Nop => transition(c, EventView::Frame(out), now) == (c, ActionView::Idle),
        },
{
}

/// No event is left without a transition, and every transition keeps the
/// connection's identity, flavor and configuration and moves its phase
/// forward or not at all.
pub proof fn lemma_transition_keeps_course(c: ConnectionView, event: EventView, now: u64)
    ensures
        transition(c, event, now).0.id == c.id,
        transition(c, event, now).0.flavor == c.flavor,
        transition(c, event, now).0.config == c.config,
        rank(transition(c, event, now).0.phase) >= rank(c.phase),
        transition(c, event, now).0.phase is Closed ==> c.phase is Closed,
        is_terminal(transition(c, event, now).1) <==> c.phase is Open && transition(
            c,
            event,
            now,
        ).0.phase is Closing,
{
}

/// Along any trace a connection keeps its identity, its flavor and its
/// configuration, and its phase never moves back: once the loop has ended
/// the connection is never open again.
pub proof fn lemma_run_keeps_course(c: ConnectionView, trace: Seq<Occurrence>)
    ensures
        run(c, trace).id == c.id,
        run(c, trace).flavor == c.flavor,
        run(c, trace).config == c.config,
        rank(run(c, trace).phase) >= rank(c.phase),
    decreases trace.len(),
{
    if trace.len() > 0 {
        lemma_run_keeps_course(c, trace.drop_last());
        lemma_transition_keeps_course(
            run(c, trace.drop_last()),
            trace.last().event,
            trace.last().at,
        );
    }
}

/// A connection whose loop has ended reacts to nothing: whatever arrives,
/// it stays as it is and the loop has nothing to do.
pub proof fn lemma_ended_connection_is_inert(c: ConnectionView, trace: Seq<Occurrence>)
    requires
        !(c.phase is Open),
    ensures
        run(c, trace) == c,
        actions(c, trace).len() == trace.len(),
        forall|i: int| 0 <= i < trace.len() ==> actions(c, trace)[i] == ActionView::Idle,
    decreases trace.len(),
{
    if trace.len() > 0 {
        lemma_ended_connection_is_inert(c, trace.drop_last());
    }
}

/// The liveness clock moves only when a ping or a pong arrives on an open
/// connection, and then to the time of arrival. Content frames, ignored
/// frames and ticks leave it where it was.
pub proof fn lemma_clock_moves_on_signal_only(c: ConnectionView, event: EventView, now: u64)
    ensures
        c.phase is Open && is_signal(event) ==> transition(c, event, now).0 == refreshed(c, now),
        !is_signal(event) ==> transition(c, event, now).0.last_heartbeat == c.last_heartbeat,
{
}

/// Frames that are not pings or pongs do not keep a connection alive. If
/// none of a trace's events is a liveness signal, the clock stands after it
/// where it stood before; and a tick that then comes later than the timeout
/// after that time ends the loop of a connection that is still open, with
/// no reason and no word to the handler.
pub proof fn lemma_content_does_not_refresh(c: ConnectionView, trace: Seq<Occurrence>, now: u64)
    requires
        forall|i: int| 0 <= i < trace.len() ==> !is_signal(#[trigger] trace[i].event),
    ensures
        run(c, trace).last_heartbeat == c.last_heartbeat,
        run(c, trace).phase is Open && elapsed(c.last_heartbeat, now) > c.config.spec_timeout()
            ==> transition(run(c, trace), EventView::Tick, now) == (
            closing(run(c, trace), None),
            ActionView::Stop,
        ),
    decreases trace.len(),
{
    if trace.len() > 0 {
        let before = trace.drop_last();
        assert forall|i: int| 0 <= i < before.len() implies !is_signal(
            #[trigger] before[i].event,
        ) by {
            assert(before[i] == trace[i]);
        }
        lemma_content_does_not_refresh(c, before, now);
        assert(!is_signal(trace[trace.len() - 1].event));
    }
    lemma_run_keeps_course(c, trace);
}

/// The timeout boundary. A tick on an open connection ends the loop if and
/// only if more than the timeout has passed since the last liveness signal;
/// otherwise the peer is probed with a ping and the connection stays as it
/// is.
pub proof fn lemma_timeout_boundary(c: ConnectionView, now: u64)
    requires
        c.phase is Open,
    ensures
        elapsed(c.last_heartbeat, now) > c.config.spec_timeout() ==> transition(
            c,
            EventView::Tick,
            now,
        ) == (closing(c, None), ActionView::Stop),
        elapsed(c.last_heartbeat, now) <= c.config.spec_timeout() ==> transition(
            c,
            EventView::Tick,
            now,
        ) == (c, ActionView::Ping),
{
}

/// With a valid configuration the peer has two intervals of grace: a tick
/// that comes no later than two intervals after the last liveness signal
/// never ends the loop.
pub proof fn lemma_two_intervals_of_grace(c: ConnectionView, now: u64)
    requires
        c.phase is Open,
        c.config.valid(),
        elapsed(c.last_heartbeat, now) <= 2 * c.config.spec_interval(),
    ensures
        transition(c, EventView::Tick, now) == (c, ActionView::Ping),
{
}

/// The time of the last liveness signal in a trace, or `since` if it holds
/// none.
pub open spec fn last_signal(since: u64, trace: Seq<Occurrence>) -> u64
    decreases trace.len(),
{
    if trace.len() == 0 {
        since
    } else if is_signal(trace.last().event) {
        trace.last().at
    } else {
        last_signal(since, trace.drop_last())
    }
}

/// Whether a trace keeps a peer alive that was last heard of at `since`:
/// nothing in it ends the loop, and each of its ticks comes no later than
/// the timeout after the last liveness signal before it.
pub open spec fn keeps_alive(since: u64, timeout: u64, trace: Seq<Occurrence>) -> bool {
    forall|i: int|
        0 <= i < trace.len() ==> {
            &&& !is_ending(#[trigger] trace[i].event)
            &&& trace[i].event is Tick ==> elapsed(last_signal(since, trace.take(i)), trace[i].at)
                <= timeout
        }
}

/// A peer that answers in time is never closed. Along a trace that keeps
/// the peer alive an open connection stays open, and its clock shows the
/// last liveness signal.
pub proof fn lemma_live_peer_stays_open(c: ConnectionView, trace: Seq<Occurrence>)
    requires
        c.phase is Open,
        keeps_alive(c.last_heartbeat, c.config.spec_timeout(), trace),
    ensures
        run(c, trace).phase is Open,
        run(c, trace).last_heartbeat == last_signal(c.last_heartbeat, trace),
        forall|i: int| 0 <= i < trace.len() ==> !is_terminal(#[trigger] actions(c, trace)[i]),
    decreases trace.len(),
{
    lemma_actions_len(c, trace);
    if trace.len() > 0 {
        let before = trace.drop_last();
        let n = trace.len() - 1;
        assert forall|i: int| 0 <= i < before.len() implies {
            &&& !is_ending(#[trigger] before[i].event)
            &&& before[i].event is Tick ==> elapsed(
                last_signal(c.last_heartbeat, before.take(i)),
                before[i].at,
            ) <= c.config.spec_timeout()
        } by {
            assert(before[i] == trace[i]);
            assert(before.take(i) =~= trace.take(i));
        }
        lemma_live_peer_stays_open(c, before);
        lemma_run_keeps_course(c, before);
        assert(trace.take(n) =~= before);
        assert(!is_ending(trace[n].event));
        assert forall|i: int| 0 <= i < trace.len() implies !is_terminal(
            #[trigger] actions(c, trace)[i],
        ) by {
            if i < n {
                assert(actions(c, trace)[i] == actions(c, before)[i]);
            }
        }
    }
}

/// A text frame that does not decode is dropped without a trace: it is
/// classified as malformed on either flavor, the connection stays exactly
/// as it was, the handler hears nothing, and whatever follows is handled as
/// if the frame had never arrived.
pub proof fn lemma_malformed_text_is_dropped(
    c: ConnectionView,
    text: Seq<char>,
    out: ClassifiedView,
    now: u64,
    rest: Seq<Occurrence>,
)
    requires
        !text_decodes(c.flavor, text),
        classifies(c.flavor, FrameView::Text(text), out),
    ensures
        out == ClassifiedView::Ignored(Ignored::Malformed),
        transition(c, EventView::Frame(out), now) == (c, ActionView::Idle),
        run(c, seq![Occurrence { event: EventView::Frame(out), at: now }] + rest) == run(c, rest),
        actions(c, seq![Occurrence { event: EventView::Frame(out), at: now }] + rest)
            == seq![ActionView::Idle] + actions(c, rest),
{
    let first = Occurrence { event: EventView::Frame(out), at: now };
    lemma_run_one(c, first);
    lemma_run_split(c, seq![first], rest);
}

/// A frame that is ignored, for whatever cause, changes nothing and asks
/// for nothing.
pub proof fn lemma_ignored_frame_is_idle(c: ConnectionView, why: Ignored, now: u64)
    ensures
        transition(c, EventView::Frame(ClassifiedView::Ignored(why)), now) == (
            c,
            ActionView::Idle,
        ),
{
}

/// The flavors are kept apart. On a hook route a binary frame asks nothing
/// of the handler and changes nothing; on a recording route the same bytes
/// are handed to the handler once, as they are.
pub proof fn lemma_binary_by_flavor(
    c: ConnectionView,
    bytes: Seq<u8>,
    out: ClassifiedView,
    now: u64,
)
    requires
        c.phase is Open,
        classifies(c.flavor, FrameView::Binary(bytes), out),
    ensures
        c.flavor is Hook ==> transition(c, EventView::Frame(out), now) == (c, ActionView::Idle),
        c.flavor is Recording ==> transition(c, EventView::Frame(out), now) == (
            c,
            ActionView::Dispatch(RequestView::Binary(bytes)),
        ),
{
}

/// Requests are of the flavor's kind. A hook route only ever asks its
/// handler to serve hook messages; a recording route only the message that
/// opens a recording and binary chunks. No frame is classified as a close
/// request: the handler hears of a close in the action that ends the loop,
/// and nowhere else.
pub proof fn lemma_requests_match_flavor(
    c: ConnectionView,
    frame: FrameView,
    out: ClassifiedView,
    now: u64,
)
    requires
        classifies(c.flavor, frame, out),
    ensures
        transition(c, EventView::Frame(out), now).1 matches ActionView::Dispatch(request) ==> {
            &&& c.flavor is Hook ==> request is Hook
            &&& c.flavor is Recording ==> request is RecordingNew || request is Binary
        },
        transition(c, EventView::Frame(out), now).1 matches ActionView::DispatchAndStop(request)
            ==> frame matches FrameView::Close(reason) && request == RequestView::Close(reason),
{
}

/// A close frame is announced to the handler, with the reason it carried,
/// in the one action that also ends the loop; the transport is then closed
/// with that same reason.
pub proof fn lemma_close_is_announced(
    c: ConnectionView,
    reason: Option<CloseReasonView>,
    out: ClassifiedView,
    now: u64,
)
    requires
        c.phase is Open,
        classifies(c.flavor, FrameView::Close(reason), out),
    ensures
        transition(c, EventView::Frame(out), now) == (
            closing(c, reason),
            ActionView::DispatchAndStop(RequestView::Close(reason)),
        ),
        finished(closing(c, reason)) == (
            ConnectionView { phase: PhaseView::Closed, ..c },
            reason,
        ),
{
}

/// The loop ends at most once. After the action that ends it, every later
/// action of the trace is idle: the handler is told of the close once, and
/// nothing is dispatched behind it.
pub proof fn lemma_nothing_follows_the_end(
    c: ConnectionView,
    trace: Seq<Occurrence>,
    i: int,
    j: int,
)
    requires
        0 <= i < j < trace.len(),
        is_terminal(actions(c, trace)[i]),
    ensures
        actions(c, trace)[j] == ActionView::Idle,
{
    lemma_action_at(c, trace, i);
    lemma_action_at(c, trace, j);
    let upto_i = trace.take(i);
    let after_i = run(c, trace.take(i + 1));
    assert(trace.take(i + 1).drop_last() =~= upto_i);
    assert(trace.take(i + 1).last() == trace[i]);
    lemma_transition_keeps_course(run(c, upto_i), trace[i].event, trace[i].at);
    assert(!(after_i.phase is Open));
    let between = trace.subrange(i + 1, j);
    assert(trace.take(j) =~= trace.take(i + 1) + between);
    lemma_run_split(c, trace.take(i + 1), between);
    lemma_ended_connection_is_inert(after_i, between);
}

/// Which of two connections an occurrence belongs to.
pub struct Routed {
    pub to_first: bool,
    pub occurrence: Occurrence,
}

/// The occurrences of an interleaved trace that belong to one of the two
/// connections, in order.
pub open spec fn lane(trace: Seq<Routed>, first: bool) -> Seq<Occurrence>
    decreases trace.len(),
{
    if trace.len() == 0 {
        Seq::empty()
    } else if trace.last().to_first == first {
        lane(trace.drop_last(), first).push(trace.last().occurrence)
    } else {
        lane(trace.drop_last(), first)
    }
}

/// Two connections after an interleaved trace, each occurrence handled by
/// the connection it belongs to.
pub open spec fn run_pair(a: ConnectionView, b: ConnectionView, trace: Seq<Routed>) -> (
    ConnectionView,
    ConnectionView,
)
    decreases trace.len(),
{
    if trace.len() == 0 {
        (a, b)
    } else {
        let before = run_pair(a, b, trace.drop_last());
        if trace.last().to_first {
            (react(before.0, trace.last().occurrence).0, before.1)
        } else {
            (before.0, react(before.1, trace.last().occurrence).0)
        }
    }
}

/// What the loop of one of two connections had to do along an interleaved
/// trace.
pub open spec fn pair_actions(
    a: ConnectionView,
    b: ConnectionView,
    trace: Seq<Routed>,
    first: bool,
) -> Seq<ActionView>
    decreases trace.len(),
{
    if trace.len() == 0 {
        Seq::empty()
    } else {
        let before = run_pair(a, b, trace.drop_last());
        let earlier = pair_actions(a, b, trace.drop_last(), first);
        if trace.last().to_first != first {
            earlier
        } else if first {
            earlier.push(react(before.0, trace.last().occurrence).1)
        } else {
            earlier.push(react(before.1, trace.last().occurrence).1)
        }
    }
}

/// Connections do not see each other. However the events of two
/// connections are interleaved, each ends where its own events alone would
/// have left it, clock included, and its loop has the same things to do in
/// the same order.
pub proof fn lemma_connections_are_independent(
    a: ConnectionView,
    b: ConnectionView,
    trace: Seq<Routed>,
)
    ensures
        run_pair(a, b, trace) == (run(a, lane(trace, true)), run(b, lane(trace, false))),
        pair_actions(a, b, trace, true) == actions(a, lane(trace, true)),
        pair_actions(a, b, trace, false) == actions(b, lane(trace, false)),
    decreases trace.len(),
{
    if trace.len() > 0 {
        let before = trace.drop_last();
        let o = trace.last().occurrence;
        lemma_connections_are_independent(a, b, before);
        if trace.last().to_first {
            let mine = lane(before, true);
            assert(lane(trace, true) == mine.push(o));
            assert(mine.push(o).drop_last() =~= mine);
            assert(mine.push(o).last() == o);
        } else {
            let mine = lane(before, false);
            assert(lane(trace, false) == mine.push(o));
            assert(mine.push(o).drop_last() =~= mine);
            assert(mine.push(o).last() == o);
        }
    }
}

} // verus!
