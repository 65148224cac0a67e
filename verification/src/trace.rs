//! What holds of a session over every sequence of events: no frame leaks,
//! none is released twice, and frames reach the transport in the order in
//! which they were acquired.

use crate::frame::{CaptureError, FrameView};
use crate::session::{ActionView, EventView, SessionState, SessionView, StageView};
use crate::wire::part_header;
use vstd::prelude::*;

verus! {

/// The session after a whole sequence of events, and the actions it asked
/// for on the way, in order.
pub open spec fn run(start: SessionView, events: Seq<EventView>) -> (SessionView, Seq<ActionView>)
    decreases events.len(),
{
    if events.len() == 0 {
        (start, Seq::empty())
    } else {
        let (before, actions) = run(start, events.drop_last());
        let (after, action) = before.step(events.last());
        (after, actions.push(action))
    }
}

/// Whether a frame is among those counted: every frame where `which` is
/// `None`, the frame of that identity where it is `Some`.
pub open spec fn counted(frame: FrameView, which: Option<u64>) -> bool {
    which is None || which == Some(frame.id)
}

/// How many counted frames an event hands to the session: one where it is
/// an acquire that succeeded.
pub open spec fn handed_in(event: EventView, which: Option<u64>) -> nat {
    match event {
        EventView::Frame(Ok(frame)) if counted(frame, which) => 1,
        _ => 0,
    }
}

/// How many counted frames an action hands back: one where it is a release.
pub open spec fn handed_back(action: ActionView, which: Option<u64>) -> nat {
    match action {
        ActionView::Release(frame) if counted(frame, which) => 1,
        _ => 0,
    }
}

/// How many of the counted frames the session holds: one or none.
pub open spec fn holdings(session: SessionView, which: Option<u64>) -> nat {
    match session.stage.held() {
        Some(frame) if counted(frame, which) => 1,
        _ => 0,
    }
}

/// How many of the counted frames the events hand to the session: one for
/// each acquire that succeeded.
pub open spec fn acquisitions(events: Seq<EventView>, which: Option<u64>) -> nat
    decreases events.len(),
{
    if events.len() == 0 {
        0
    } else {
        acquisitions(events.drop_last(), which) + handed_in(events.last(), which)
    }
}

/// How many of the counted frames the actions hand back: one for each
/// release.
pub open spec fn releases(actions: Seq<ActionView>, which: Option<u64>) -> nat
    decreases actions.len(),
{
    if actions.len() == 0 {
        0
    } else {
        releases(actions.drop_last(), which) + handed_back(actions.last(), which)
    }
}

/// One step keeps the books: what the session held and was handed is what
/// it hands back and holds.
pub proof fn lemma_step_keeps_books(session: SessionView, event: EventView, which: Option<u64>)
    ensures
        holdings(session, which) + handed_in(event, which) == handed_back(
            session.step(event).1,
            which,
        ) + holdings(session.step(event).0, which),
{
}

/// Over any sequence of events, whatever fails and wherever: the frames
/// that the session held at the start and those it was handed are the
/// frames it has handed back and those it holds at the end.
pub proof fn lemma_run_keeps_books(start: SessionView, events: Seq<EventView>, which: Option<u64>)
    ensures
        holdings(start, which) + acquisitions(events, which) == releases(
            run(start, events).1,
            which,
        ) + holdings(run(start, events).0, which),
    decreases events.len(),
{
    if events.len() > 0 {
        let earlier = events.drop_last();
        lemma_run_keeps_books(start, earlier, which);
        let (before, actions) = run(start, earlier);
        let action = before.step(events.last()).1;
        lemma_step_keeps_books(before, events.last(), which);
        assert(actions.push(action).drop_last() =~= actions);
    }
}

/// No frame leaks. For a session that starts empty-handed and for every
/// sequence of outcomes, the releases it asks for and the frame it still
/// holds add up to the acquires that succeeded; once it has closed, or
/// whenever it stands between two frames, every frame it was handed has
/// gone back.
pub proof fn lemma_no_leak(start: SessionView, events: Seq<EventView>)
    requires
        start.stage.held() is None,
    ensures
        acquisitions(events, None) == releases(run(start, events).1, None) + holdings(
            run(start, events).0,
            None,
        ),
        holdings(run(start, events).0, None) <= 1,
        run(start, events).0.stage.held() is None ==> acquisitions(events, None) == releases(
            run(start, events).1,
            None,
        ),
        run(start, events).0.stage is Closed ==> acquisitions(events, None) == releases(
            run(start, events).1,
            None,
        ),
{
    lemma_run_keeps_books(start, events, None);
}

/// No frame is released twice. If the frame of identity `id` is handed to
/// the session at most once, as a frame source hands it out, then the
/// session asks for its release at most once, and exactly once where it was
/// handed in and the session holds it no longer.
pub proof fn lemma_no_double_release(start: SessionView, events: Seq<EventView>, id: u64)
    requires
        start.stage.held() is None,
        acquisitions(events, Some(id)) <= 1,
    ensures
        releases(run(start, events).1, Some(id)) <= 1,
        releases(run(start, events).1, Some(id)) + holdings(run(start, events).0, Some(id))
            == acquisitions(events, Some(id)),
{
    lemma_run_keeps_books(start, events, Some(id));
}

/// A session asks for a frame only while it holds none: the frame of one
/// pass has gone back before the next is asked for.
pub proof fn lemma_acquires_empty_handed(session: SessionView, event: EventView)
    ensures
        session.step(event).1 is Acquire ==> session.step(event).0.stage.held() is None,
        session.step(event).1 is Acquire ==> session.step(event).0.stage is Acquiring,
{
}

/// A closed session stays closed. It writes nothing and acquires nothing
/// any more; a frame that is handed to it all the same goes straight back.
pub proof fn lemma_closed_is_final(session: SessionView, event: EventView)
    requires
        session.stage is Closed,
    ensures
        session.step(event).0 == session,
        match event {
            EventView::Frame(Ok(frame)) => session.step(event).1 == ActionView::Release(frame),
            _ => session.step(event).1 == ActionView::Stop,
        },
{
}

/// A frame that the source could not deliver costs one pause and nothing
/// else: the session goes on streaming, and nothing is written or released.
pub proof fn lemma_unavailable_is_retried(session: SessionView, error: CaptureError)
    requires
        session.stage is Acquiring,
    ensures
        session.step(EventView::Frame(Err(error))) == (
            session.at(StageView::Pausing),
            ActionView::Pause(session.delay_ms),
        ),
        session.at(StageView::Pausing).step(EventView::Resumed) == (session, ActionView::Acquire),
{
}

/// The frames that the session took up, in the order in which they came:
/// those that the source handed over when the session had asked for one.
pub open spec fn accepted(start: SessionView, events: Seq<EventView>) -> Seq<FrameView>
    decreases events.len(),
{
    if events.len() == 0 {
        Seq::empty()
    } else {
        let earlier = accepted(start, events.drop_last());
        match (run(start, events.drop_last()).0.stage, events.last()) {
            (StageView::Acquiring, EventView::Frame(Ok(frame))) => earlier.push(frame),
            _ => earlier,
        }
    }
}

/// What the actions give the transport to write into the body of the
/// response, in order.
pub open spec fn written(actions: Seq<ActionView>) -> Seq<Seq<u8>>
    decreases actions.len(),
{
    if actions.len() == 0 {
        Seq::empty()
    } else {
        let earlier = written(actions.drop_last());
        match actions.last() {
            ActionView::WriteHeader(bytes) => earlier.push(bytes),
            ActionView::WritePayload(bytes) => earlier.push(bytes),
            _ => earlier,
        }
    }
}

/// What the transport sees of `frames` when each is written in full and in
/// order: the header of the first, its payload, the header of the second,
/// and so on.
pub open spec fn framed(token: Seq<u8>, frames: Seq<FrameView>) -> Seq<Seq<u8>>
    decreases frames.len(),
{
    if frames.len() == 0 {
        Seq::empty()
    } else {
        framed(token, frames.drop_last()).push(
            part_header(token, frames.last().data.len()),
        ).push(frames.last().data)
    }
}

/// How far the writes of a run have come, stage by stage.
spec fn writes_follow_frames(start: SessionView, events: Seq<EventView>) -> bool {
    let (end, actions) = run(start, events);
    let frames = accepted(start, events);
    let wire = written(actions);
    let whole = framed(start.boundary, frames);
    &&& end.boundary == start.boundary
    &&& match end.stage {
        StageView::SendingHeader { frame, payload } => {
            &&& frames.len() > 0
            &&& payload == frames.last().data
            &&& wire == whole.drop_last()
        },
        StageView::Draining { .. } | StageView::Closed { .. } => {
            wire == whole || (frames.len() > 0 && wire == whole.drop_last())
        },
        _ => wire == whole,
    }
}

proof fn lemma_writes_follow_frames(start: SessionView, events: Seq<EventView>)
    requires
        start.stage is Connected,
    ensures
        writes_follow_frames(start, events),
    decreases events.len(),
{
    if events.len() > 0 {
        let earlier = events.drop_last();
        lemma_writes_follow_frames(start, earlier);
        let (before, actions) = run(start, earlier);
        let (after, action) = before.step(events.last());
        let frames = accepted(start, earlier);
        let whole = framed(start.boundary, frames);
        assert(actions.push(action).drop_last() =~= actions);
        match (before.stage, events.last()) {
            (StageView::Acquiring, EventView::Frame(Ok(frame))) => {
                let more = frames.push(frame);
                assert(more.drop_last() =~= frames);
                assert(framed(start.boundary, more).drop_last() =~= whole.push(
                    part_header(start.boundary, frame.data.len()),
                ));
            },
            (StageView::SendingHeader { frame, payload }, EventView::Written(true)) => {
                assert(frames.drop_last().push(frames.last()) =~= frames);
                assert(whole.drop_last().push(payload) =~= whole);
            },
            _ => {},
        }
    }
}

/// Frames reach the transport in the order in which they were acquired. For
/// a session that starts with a client just connected, and for every
/// sequence of outcomes, what it gives the transport to write is the header
/// and the payload of each frame it took up, frame after frame: nothing is
/// reordered, nothing written twice, and no frame is passed over; at most
/// the payload of the latest frame is still to come. While the session
/// streams and is not between the two writes of a frame, nothing is
/// missing.
pub proof fn lemma_frames_in_order(start: SessionView, events: Seq<EventView>)
    requires
        start.stage is Connected,
    ensures
        ({
            let (end, actions) = run(start, events);
            let wire = written(actions);
            let whole = framed(start.boundary, accepted(start, events));
            &&& wire.len() <= whole.len() <= wire.len() + 1
            &&& wire == whole.take(wire.len() as int)
            &&& whole.len() == 2 * accepted(start, events).len()
            &&& end.stage.state() == SessionState::Streaming && !(end.stage is SendingHeader)
                ==> wire == whole
        }),
{
    lemma_writes_follow_frames(start, events);
    lemma_framed_len(start.boundary, accepted(start, events));
    let wire = written(run(start, events).1);
    let whole = framed(start.boundary, accepted(start, events));
    if wire == whole {
        assert(whole.take(wire.len() as int) =~= whole);
    } else {
        assert(whole.take(wire.len() as int) =~= whole.drop_last());
    }
}

proof fn lemma_framed_len(token: Seq<u8>, frames: Seq<FrameView>)
    ensures
        framed(token, frames).len() == 2 * frames.len(),
    decreases frames.len(),
{
    if frames.len() > 0 {
        lemma_framed_len(token, frames.drop_last());
    }
}

} // verus!
