//! Several sessions on one frame source. Each session has an owner that
//! does as it is asked; the turns of the owners may interleave in any
//! order. What is proved here is that the sessions never share a frame and
//! that the source is free again whenever no session holds one.

use crate::frame::{CaptureError, FrameView, SourceView};
use crate::session::{ActionView, EventView, SessionView, StageView};
use vstd::prelude::*;

verus! {

/// What the world outside does in one turn: what the hardware has ready
/// when it is asked for a frame, and whether a write to the client goes
/// through.
pub struct World {
    pub grabbed: Option<Seq<u8>>,
    pub written: bool,
}

/// What an owner that does as it is asked reports to its session, and the
/// books of the source afterwards. An acquire is put to the source; every
/// other event is what came of the action that the session waits for.
pub open spec fn report(session: SessionView, books: SourceView, world: World) -> (
    EventView,
    SourceView,
) {
    match session.stage {
        StageView::Connected => (EventView::Request, books),
        StageView::Opening
        | StageView::SendingHeader { .. }
        | StageView::SendingPayload { .. } => (EventView::Written(world.written), books),
        StageView::Acquiring => if books.grants(world.grabbed is Some) {
            (
                EventView::Frame(
                    Ok(FrameView { id: books.acquired as u64, data: world.grabbed->0 }),
                ),
                books.after_acquire(true),
            )
        } else {
            (EventView::Frame(Err(CaptureError::Unavailable)), books)
        },
        StageView::Pausing => (EventView::Resumed, books),
        StageView::Releasing | StageView::Draining { .. } | StageView::Closed { .. } => (
            EventView::Released,
            books,
        ),
    }
}

/// One turn of a session and its owner: the owner reports, the session
/// answers, and where it asks for a release the owner hands the frame back
/// at once.
pub open spec fn turn(session: SessionView, books: SourceView, world: World) -> (
    SessionView,
    SourceView,
    ActionView,
) {
    let (event, lent) = report(session, books, world);
    let (next, action) = session.step(event);
    let settled = match action {
        ActionView::Release(frame) => lent.after_release(frame.id),
        _ => lent,
    };
    (next, settled, action)
}

/// One frame source and the sessions that draw on it.
pub struct Shared {
    pub books: SourceView,
    pub sessions: Seq<SessionView>,
}

impl Shared {
    /// Whether the session at `who` holds a frame.
    pub open spec fn holds(self, who: int) -> bool {
        0 <= who < self.sessions.len() && self.sessions[who].stage.held() is Some
    }

    /// The sessions keep to the source's discipline: the books balance, a
    /// session that holds a frame holds the one in flight, no two sessions
    /// hold a frame at once, and a frame is in flight only while a session
    /// holds it.
    pub open spec fn sound(self) -> bool {
        &&& self.books.balanced()
        &&& forall|who: int| #[trigger]
            self.holds(who) ==> self.books.in_flight == Some(
                self.sessions[who].stage.held()->0.id,
            )
        &&& forall|who: int, other: int|
            self.holds(who) && self.holds(other) ==> who == other
        &&& self.books.in_flight is Some ==> exists|who: int| self.holds(who)
    }

    /// The sessions and the source after the session at `who` has had one
    /// turn. A turn of a session that is not there changes nothing.
    pub open spec fn after_turn(self, who: int, world: World) -> Shared {
        if 0 <= who < self.sessions.len() {
            let (next, books, _) = turn(self.sessions[who], self.books, world);
            Shared { books, sessions: self.sessions.update(who, next) }
        } else {
            self
        }
    }

    /// The sessions and the source after a whole schedule of turns.
    pub open spec fn after(self, schedule: Seq<(int, World)>) -> Shared
        decreases schedule.len(),
    {
        if schedule.len() == 0 {
            self
        } else {
            self.after(schedule.drop_last()).after_turn(schedule.last().0, schedule.last().1)
        }
    }
}

/// One turn keeps the discipline, whichever session takes it and whatever
/// the world does.
pub proof fn lemma_turn_keeps_sound(shared: Shared, who: int, world: World)
    requires
        shared.sound(),
    ensures
        shared.after_turn(who, world).sound(),
{
    let after = shared.after_turn(who, world);
    if 0 <= who < shared.sessions.len() {
        let session = shared.sessions[who];
        let (next, books, action) = turn(session, shared.books, world);
        assert(after.sessions[who] == next);
        assert forall|other: int| other != who implies after.holds(other) == shared.holds(
            other,
        ) by {
            if 0 <= other < shared.sessions.len() {
                assert(after.sessions[other] == shared.sessions[other]);
            }
        }
        if shared.holds(who) {
            assert(shared.books.in_flight == Some(session.stage.held()->0.id));
            assert forall|other: int| other != who implies !after.holds(other) by {
                assert(!shared.holds(other));
            }
        } else if after.holds(who) {
            assert(shared.books.in_flight is None);
            assert forall|other: int| other != who implies !after.holds(other) by {
                if shared.holds(other) {
                    assert(shared.books.in_flight is Some);
                }
            }
        } else {
            assert(books == shared.books);
            if shared.books.in_flight is Some {
                let holder = choose|holder: int| shared.holds(holder);
                assert(after.holds(holder));
            }
        }
        if after.books.in_flight is Some {
            if after.holds(who) {
            } else {
                assert(exists|holder: int| after.holds(holder));
            }
        }
    }
}

/// Sessions that share one source never share a frame. From a sound start,
/// such as a fresh source and sessions that have just connected, and under
/// every schedule of turns: at most one session holds a frame, the frame it
/// holds is the one that the source has in flight, and whenever no session
/// holds a frame the source is free for the next.
pub proof fn lemma_sessions_never_share(start: Shared, schedule: Seq<(int, World)>)
    requires
        start.sound(),
    ensures
        start.after(schedule).sound(),
    decreases schedule.len(),
{
    if schedule.len() > 0 {
        lemma_sessions_never_share(start, schedule.drop_last());
        lemma_turn_keeps_sound(
            start.after(schedule.drop_last()),
            schedule.last().0,
            schedule.last().1,
        );
    }
}

/// A fresh source with sessions that hold nothing is a sound start.
pub proof fn lemma_fresh_start_is_sound(sessions: Seq<SessionView>)
    requires
        forall|who: int| 0 <= who < sessions.len() ==> sessions[who].stage.held() is None,
    ensures
        (Shared { books: SourceView::fresh(), sessions }).sound(),
{
}

} // verus!
