//! The frame source and the handles it lends out: one frame in flight at a
//! time, every handle released once, the books always balanced.

use vstd::prelude::*;

verus! {

/// What a frame handle stands for: the identity the source gave it and the
/// bytes of the captured image.
pub struct FrameView {
    pub id: u64,
    pub data: Seq<u8>,
}

/// One captured frame, owned by whoever acquired it until it is handed back
/// to the source it came from. A handle cannot be copied, and releasing it
/// consumes it.
#[derive(Debug)]
pub struct FrameHandle {
    id: u64,
    data: Vec<u8>,
}

impl View for FrameHandle {
    type V = FrameView;

    closed spec fn view(&self) -> FrameView {
        FrameView { id: self.id, data: self.data@ }
    }
}

impl FrameHandle {
    /// The identity of this frame: the number of frames its source had
    /// handed out before it.
    pub fn id(&self) -> (id: u64)
        ensures
            id == self@.id,
    {
        self.id
    }

    /// The byte count of the captured image.
    pub fn len(&self) -> (length: usize)
        ensures
            length == self@.data.len(),
    {
        self.data.len()
    }

    /// The bytes of the captured image.
    pub fn data(&self) -> (bytes: &[u8])
        ensures
            bytes@ == self@.data,
    {
        self.data.as_slice()
    }
}

/// Why no frame was handed out.
#[derive(Clone, Copy, Debug, PartialEq, Eq)]
pub enum CaptureError {
    /// No frame can be had right now; asking again later may succeed.
    Unavailable,
}

/// The books of a frame source: how many frames it has handed out, how many
/// came back, and which one is out at present.
pub struct SourceView {
    pub in_flight: Option<u64>,
    pub acquired: nat,
    pub released: nat,
}

impl SourceView {
    /// The books of a source that has not handed out anything yet.
    pub open spec fn fresh() -> SourceView {
        SourceView { in_flight: None, acquired: 0, released: 0 }
    }

    /// Every frame handed out has either come back or is the one in flight,
    /// and the frame in flight is the latest one handed out.
    pub open spec fn balanced(self) -> bool {
        match self.in_flight {
            Some(id) => self.acquired == self.released + 1 && id + 1 == self.acquired,
            None => self.acquired == self.released,
        }
    }

    /// Whether an acquire hands out a frame, given whether the hardware had
    /// one ready: only while no frame is in flight, and while identities
    /// are left to give.
    pub open spec fn grants(self, frame_ready: bool) -> bool {
        self.in_flight is None && frame_ready && self.acquired < u64::MAX
    }

    /// The books after an acquire, given whether the hardware had a frame
    /// ready.
    pub open spec fn after_acquire(self, frame_ready: bool) -> SourceView {
        if self.grants(frame_ready) {
            SourceView {
                in_flight: Some(self.acquired as u64),
                acquired: self.acquired + 1,
                released: self.released,
            }
        } else {
            self
        }
    }

    /// The books after the frame `id` was handed back. Only the frame in
    /// flight counts; any other handle changes nothing.
    pub open spec fn after_release(self, id: u64) -> SourceView {
        if self.in_flight == Some(id) {
            SourceView { in_flight: None, acquired: self.acquired, released: self.released + 1 }
        } else {
            self
        }
    }
}

/// The single shared sensor, seen as a lender of frames: at most one frame is
/// out at any time, and the books of what went out and came back always
/// balance.
#[derive(Debug)]
pub struct FrameSource {
    in_flight: Option<u64>,
    acquired: u64,
    released: u64,
}

impl View for FrameSource {
    type V = SourceView;

    closed spec fn view(&self) -> SourceView {
        SourceView {
            in_flight: self.in_flight,
            acquired: self.acquired as nat,
            released: self.released as nat,
        }
    }
}

impl FrameSource {
    #[verifier::type_invariant]
    spec fn books_balance(&self) -> bool {
        self@.balanced()
    }

    /// A source that has not handed out anything yet.
    pub(crate) fn new() -> (source: FrameSource)
        ensures
            source@ == SourceView::fresh(),
            source@.balanced(),
    {
        FrameSource { in_flight: None, acquired: 0, released: 0 }
    }

    /// Claims the frame that the hardware delivered. `grabbed` is what the
    /// driver answered: the bytes of a frame, or `None` where it had none
    /// ready. A frame is handed out only while none is in flight; in every
    /// other case the answer is `Unavailable` and the books stay as they
    /// were.
    pub fn acquire(&mut self, grabbed: Option<Vec<u8>>) -> (result: Result<
        FrameHandle,
        CaptureError,
    >)
        ensures
            final(self)@ == old(self)@.after_acquire(grabbed is Some),
            final(self)@.balanced(),
            match result {
                Ok(handle) => {
                    &&& old(self)@.grants(grabbed is Some)
                    &&& handle@.id == old(self)@.acquired
                    &&& handle@.data == grabbed->0@
                },
                Err(error) => {
                    &&& !old(self)@.grants(grabbed is Some)
                    &&& error == CaptureError::Unavailable
                },
            },
    {
        proof {
            use_type_invariant(&*self);
        }
        if self.in_flight.is_some() || self.acquired == u64::MAX {
            return Err(CaptureError::Unavailable);
        }
        match grabbed {
            Some(data) => {
                let id = self.acquired;
                *self = FrameSource {
                    in_flight: Some(id),
                    acquired: id + 1,
                    released: self.released,
                };
                Ok(FrameHandle { id, data })
            },
            None => Err(CaptureError::Unavailable),
        }
    }

    /// Takes a frame back. The handle is consumed, so it cannot be released
    /// a second time.
    pub fn release(&mut self, handle: FrameHandle)
        ensures
            final(self)@ == old(self)@.after_release(handle@.id),
            final(self)@.balanced(),
    {
        proof {
            use_type_invariant(&*self);
        }
        if self.in_flight == Some(handle.id) {
            *self = FrameSource {
                in_flight: None,
                acquired: self.acquired,
                released: self.released + 1,
            };
        }
    }

    /// The identity of the frame that is out at present, if any.
    pub fn in_flight(&self) -> (id: Option<u64>)
        ensures
            id == self@.in_flight,
            self@.balanced(),
    {
        proof {
            use_type_invariant(self);
        }
        self.in_flight
    }

    /// How many frames have been handed out so far.
    pub fn acquired(&self) -> (count: u64)
        ensures
            count == self@.acquired,
    {
        self.acquired
    }

    /// How many frames have come back so far.
    pub fn released(&self) -> (count: u64)
        ensures
            count == self@.released,
    {
        self.released
    }
}

/// One frame at a time: while a frame is out, no acquire is granted,
/// whatever the hardware has ready, and the frame in flight stays the one
/// it was. Only its release makes room for the next.
pub proof fn lemma_one_frame_at_a_time(books: SourceView, frame_ready: bool)
    requires
        books.in_flight is Some,
    ensures
        !books.grants(frame_ready),
        books.after_acquire(frame_ready) == books,
        books.after_release(books.in_flight->0).in_flight is None,
{
}

/// The books of a source stay balanced whatever is asked of it, and a
/// frame that has gone back cannot go back again: releasing it a second
/// time changes nothing. Identities only grow, so none is handed out twice.
pub proof fn lemma_books_stay_balanced(books: SourceView, frame_ready: bool, id: u64)
    requires
        books.balanced(),
    ensures
        books.after_acquire(frame_ready).balanced(),
        books.after_release(id).balanced(),
        books.after_release(id).after_release(id) == books.after_release(id),
        books.after_acquire(frame_ready).acquired >= books.acquired,
        books.after_release(id).acquired == books.acquired,
        books.grants(frame_ready) ==> books.after_acquire(frame_ready).in_flight == Some(
            books.acquired as u64,
        ),
{
}

} // verus!
