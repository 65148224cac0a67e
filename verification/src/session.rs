//! The session of one client: a state machine that takes what happened and
//! answers with what to do next. It never touches the connection or the
//! sensor itself.

use crate::encoder::{append_bytes, encode_part, envelope};
use crate::frame::{CaptureError, FrameHandle, FrameView};
use crate::wire::{envelope_value, part_header};
use vstd::prelude::*;
use vstd::string::*;

verus! {

/// The pause between two frames, in milliseconds, where none is chosen.
pub const DEFAULT_FRAME_DELAY_MS: u32 = 20;

/// Where a session stands, as its owner sees it.
#[derive(Clone, Copy, Debug, PartialEq, Eq)]
pub enum SessionState {
    /// The client is there; the stream has not been opened yet.
    Connected,
    /// Frames are being pulled and written, one at a time.
    Streaming,
    /// The stream has failed; what the session still holds is going back.
    Draining,
    /// Nothing more will be written or acquired.
    Closed,
}

/// A write to the client that did not go through. It ends the session and
/// goes no further than that.
#[derive(Clone, Copy, Debug, PartialEq, Eq)]
pub enum TransportWriteError {
    /// The response could not be opened.
    Envelope,
    /// The client went away while the header of a part was written.
    Header,
    /// The client went away while the payload of a part was written.
    Payload,
}

/// Why a session ended.
#[derive(Clone, Copy, Debug, PartialEq, Eq)]
pub enum CloseCause {
    /// A write to the client failed.
    WriteFailed(TransportWriteError),
    /// The session was told of something it had not asked for.
    OutOfTurn,
}

/// What the owner of a session reports to it.
#[derive(Debug)]
pub enum Event {
    /// The client's request has arrived.
    Request,
    /// The write that was asked for went through, or did not.
    Written(bool),
    /// The frame source has answered an acquire.
    Frame(Result<FrameHandle, CaptureError>),
    /// The frame that was handed back has reached the source.
    Released,
    /// The pause that was asked for is over.
    Resumed,
}

/// What a session asks its owner to do next.
#[derive(Debug)]
pub enum Action {
    /// Open the response with this `Content-Type` value.
    SendEnvelope(Vec<u8>),
    /// Acquire one frame from the source.
    Acquire,
    /// Write these bytes, the header of a part.
    WriteHeader(Vec<u8>),
    /// Write these bytes, the payload of the part whose header went out.
    WritePayload(Vec<u8>),
    /// Hand this frame back to the source.
    Release(FrameHandle),
    /// Wait this many milliseconds.
    Pause(u32),
    /// Leave the connection to whoever owns it; the session is over.
    Stop,
}

/// An event as the laws of a session see it.
pub enum EventView {
    Request,
    Written(bool),
    Frame(Result<FrameView, CaptureError>),
    Released,
    Resumed,
}

/// An action as the laws of a session see it.
pub enum ActionView {
    SendEnvelope(Seq<u8>),
    Acquire,
    WriteHeader(Seq<u8>),
    WritePayload(Seq<u8>),
    Release(FrameView),
    Pause(u32),
    Stop,
}

impl View for Event {
    type V = EventView;

    open spec fn view(&self) -> EventView {
        match *self {
            Event::Request => EventView::Request,
            Event::Written(ok) => EventView::Written(ok),
            Event::Frame(Ok(frame)) => EventView::Frame(Ok(frame@)),
            Event::Frame(Err(error)) => EventView::Frame(Err(error)),
            Event::Released => EventView::Released,
            Event::Resumed => EventView::Resumed,
        }
    }
}

impl View for Action {
    type V = ActionView;

    open spec fn view(&self) -> ActionView {
        match *self {
            Action::SendEnvelope(value) => ActionView::SendEnvelope(value@),
            Action::Acquire => ActionView::Acquire,
            Action::WriteHeader(bytes) => ActionView::WriteHeader(bytes@),
            Action::WritePayload(bytes) => ActionView::WritePayload(bytes@),
            Action::Release(frame) => ActionView::Release(frame@),
            Action::Pause(millis) => ActionView::Pause(millis),
            Action::Stop => ActionView::Stop,
        }
    }
}

/// Where a session stands, in full: what it waits for and what it holds.
pub enum StageView {
    /// Waiting for the client's request.
    Connected,
    /// Waiting to hear whether the response could be opened.
    Opening,
    /// Waiting for the frame source to answer.
    Acquiring,
    /// Holding a frame; waiting to hear whether its header went out.
    SendingHeader { frame: FrameView, payload: Seq<u8> },
    /// Holding a frame; waiting to hear whether its payload went out.
    SendingPayload { frame: FrameView },
    /// Waiting for a delivered frame to reach the source.
    Releasing,
    /// Waiting for the pause between two frames to end.
    Pausing,
    /// Failed; waiting for frames to reach the source before closing.
    Draining { pending: Option<FrameView>, cause: CloseCause },
    /// Over.
    Closed { cause: CloseCause },
}

impl StageView {
    /// The frame that a session at this stage holds, if any.
    pub open spec fn held(self) -> Option<FrameView> {
        match self {
            StageView::SendingHeader { frame, .. } => Some(frame),
            StageView::SendingPayload { frame } => Some(frame),
            StageView::Draining { pending, .. } => pending,
            _ => None,
        }
    }

    /// The state that the owner of the session sees.
    pub open spec fn state(self) -> SessionState {
        match self {
            StageView::Connected | StageView::Opening => SessionState::Connected,
            StageView::Draining { .. } => SessionState::Draining,
            StageView::Closed { .. } => SessionState::Closed,
            _ => SessionState::Streaming,
        }
    }
}

/// A session as its laws see it: the boundary token, the pause between two
/// frames, and the stage.
pub struct SessionView {
    pub boundary: Seq<u8>,
    pub delay_ms: u32,
    pub stage: StageView,
}

impl SessionView {
    /// The session of a client that has just connected.
    pub open spec fn connected(boundary: Seq<u8>, delay_ms: u32) -> SessionView {
        SessionView { boundary, delay_ms, stage: StageView::Connected }
    }

    /// The same session at another stage.
    pub open spec fn at(self, stage: StageView) -> SessionView {
        SessionView { stage, ..self }
    }

    /// The session that ended because a write failed.
    pub open spec fn closed_by(self, error: TransportWriteError) -> SessionView {
        self.at(StageView::Closed { cause: CloseCause::WriteFailed(error) })
    }

    /// The session that hands back its frame because a write failed.
    pub open spec fn drained_by(self, error: TransportWriteError) -> SessionView {
        self.at(StageView::Draining { pending: None, cause: CloseCause::WriteFailed(error) })
    }

    /// One step of giving up: the frame that is still pending goes back, or,
    /// where none is, the session closes.
    pub open spec fn drain(self, pending: Option<FrameView>, cause: CloseCause) -> (
        SessionView,
        ActionView,
    ) {
        match pending {
            Some(frame) => (
                self.at(StageView::Draining { pending: None, cause }),
                ActionView::Release(frame),
            ),
            None => (self.at(StageView::Closed { cause }), ActionView::Stop),
        }
    }

    /// What the session does with an event that it has asked for, and
    /// `None` where the event comes out of turn.
    pub open spec fn in_turn(self, event: EventView) -> Option<(SessionView, ActionView)> {
        match (self.stage, event) {
            (StageView::Connected, EventView::Request) => Some(
                (
                    self.at(StageView::Opening),
                    ActionView::SendEnvelope(envelope_value(self.boundary)),
                ),
            ),
            (StageView::Opening, EventView::Written(true)) => Some(
                (self.at(StageView::Acquiring), ActionView::Acquire),
            ),
            (StageView::Opening, EventView::Written(false)) => Some(
                (self.closed_by(TransportWriteError::Envelope), ActionView::Stop),
            ),
            (StageView::Acquiring, EventView::Frame(Ok(frame))) => Some(
                (
                    self.at(StageView::SendingHeader { frame, payload: frame.data }),
                    ActionView::WriteHeader(part_header(self.boundary, frame.data.len())),
                ),
            ),
            (StageView::Acquiring, EventView::Frame(Err(_))) => Some(
                (self.at(StageView::Pausing), ActionView::Pause(self.delay_ms)),
            ),
            (StageView::SendingHeader { frame, payload }, EventView::Written(true)) => Some(
                (self.at(StageView::SendingPayload { frame }), ActionView::WritePayload(payload)),
            ),
            (StageView::SendingHeader { frame, .. }, EventView::Written(false)) => Some(
                (self.drained_by(TransportWriteError::Header), ActionView::Release(frame)),
            ),
            (StageView::SendingPayload { frame }, EventView::Written(true)) => Some(
                (self.at(StageView::Releasing), ActionView::Release(frame)),
            ),
            (StageView::SendingPayload { frame }, EventView::Written(false)) => Some(
                (self.drained_by(TransportWriteError::Payload), ActionView::Release(frame)),
            ),
            (StageView::Releasing, EventView::Released) => Some(
                (self.at(StageView::Pausing), ActionView::Pause(self.delay_ms)),
            ),
            (StageView::Pausing, EventView::Resumed) => Some(
                (self.at(StageView::Acquiring), ActionView::Acquire),
            ),
            (StageView::Draining { pending, cause }, EventView::Released) => Some(
                self.drain(pending, cause),
            ),
            _ => None,
        }
    }

    /// What the session does with an event that it has not asked for. A
    /// frame that comes unasked goes straight back. Anything else ends the
    /// stream: what the session holds goes back, and then it closes. A
    /// closed session stays closed.
    pub open spec fn out_of_turn(self, event: EventView) -> (SessionView, ActionView) {
        match (self.stage, event) {
            (StageView::Closed { .. }, EventView::Frame(Ok(frame))) => (
                self,
                ActionView::Release(frame),
            ),
            (StageView::Closed { .. }, _) => (self, ActionView::Stop),
            (StageView::Draining { .. }, EventView::Frame(Ok(frame))) => (
                self,
                ActionView::Release(frame),
            ),
            (StageView::Draining { pending, cause }, _) => self.drain(pending, cause),
            (_, EventView::Frame(Ok(frame))) => (
                self.at(
                    StageView::Draining {
                        pending: self.stage.held(),
                        cause: CloseCause::OutOfTurn,
                    },
                ),
                ActionView::Release(frame),
            ),
            _ => self.drain(self.stage.held(), CloseCause::OutOfTurn),
        }
    }

    /// The session after an event, and what it asks for next.
    pub open spec fn step(self, event: EventView) -> (SessionView, ActionView) {
        match self.in_turn(event) {
            Some(next) => next,
            None => self.out_of_turn(event),
        }
    }
}

enum Stage {
    Connected,
    Opening,
    Acquiring,
    SendingHeader { frame: FrameHandle, payload: Vec<u8> },
    SendingPayload { frame: FrameHandle },
    Releasing,
    Pausing,
    Draining { pending: Option<FrameHandle>, cause: CloseCause },
    Closed { cause: CloseCause },
}

impl View for Stage {
    type V = StageView;

    closed spec fn view(&self) -> StageView {
        match *self {
            Stage::Connected => StageView::Connected,
            Stage::Opening => StageView::Opening,
            Stage::Acquiring => StageView::Acquiring,
            Stage::SendingHeader { frame, payload } => StageView::SendingHeader {
                frame: frame@,
                payload: payload@,
            },
            Stage::SendingPayload { frame } => StageView::SendingPayload { frame: frame@ },
            Stage::Releasing => StageView::Releasing,
            Stage::Pausing => StageView::Pausing,
            Stage::Draining { pending: Some(frame), cause } => StageView::Draining {
                pending: Some(frame@),
                cause,
            },
            Stage::Draining { pending: None, cause } => StageView::Draining {
                pending: None,
                cause,
            },
            Stage::Closed { cause } => StageView::Closed { cause },
        }
    }
}

/// The part of one client in the stream: it pulls a frame, writes it in
/// two steps, hands it back, pauses, and starts over, until a write fails.
/// The session decides; its owner does what it asks and reports back.
pub struct StreamSession {
    boundary: Vec<u8>,
    delay_ms: u32,
    stage: Stage,
}

impl View for StreamSession {
    type V = SessionView;

    closed spec fn view(&self) -> SessionView {
        SessionView { boundary: self.boundary@, delay_ms: self.delay_ms, stage: self.stage@ }
    }
}

impl StreamSession {
    /// A session for a client that has just connected, with a pause of
    /// `delay_ms` milliseconds between frames.
    pub(crate) fn new(boundary: &str, delay_ms: u32) -> (session: StreamSession)
        ensures
            session@ == SessionView::connected(boundary.spec_bytes(), delay_ms),
    {
        let mut token: Vec<u8> = Vec::new();
        append_bytes(&mut token, boundary.as_bytes());
        StreamSession { boundary: token, delay_ms, stage: Stage::Connected }
    }

    /// Where the session stands.
    pub fn state(&self) -> (state: SessionState)
        ensures
            state == self@.stage.state(),
    {
        match &self.stage {
            Stage::Connected | Stage::Opening => SessionState::Connected,
            Stage::Draining { .. } => SessionState::Draining,
            Stage::Closed { .. } => SessionState::Closed,
            _ => SessionState::Streaming,
        }
    }

    /// Why the session ended, once it has.
    pub fn close_cause(&self) -> (cause: Option<CloseCause>)
        ensures
            cause == match self@.stage {
                StageView::Closed { cause } => Some(cause),
                _ => None,
            },
    {
        match &self.stage {
            Stage::Closed { cause } => Some(*cause),
            _ => None,
        }
    }

    /// Whether the session holds a frame at present.
    pub fn holds_frame(&self) -> (holds: bool)
        ensures
            holds == self@.stage.held().is_some(),
    {
        match &self.stage {
            Stage::SendingHeader { .. } | Stage::SendingPayload { .. } => true,
            Stage::Draining { pending, .. } => pending.is_some(),
            _ => false,
        }
    }

    /// Takes the session one step on: `event` is what came of the action
    /// that the session asked for last, and the action returned is what it
    /// asks for next.
    pub fn step(self, event: Event) -> (next: (StreamSession, Action))
        ensures
            (next.0@, next.1@) == self@.step(event@),
    {
        let StreamSession { boundary, delay_ms, stage } = self;
        let (stage, action) = match (stage, event) {
            (Stage::Connected, Event::Request) => {
                (Stage::Opening, Action::SendEnvelope(envelope(boundary.as_slice())))
            },
            (Stage::Opening, Event::Written(true)) => (Stage::Acquiring, Action::Acquire),
            (Stage::Opening, Event::Written(false)) => {
                (Stage::Closed { cause: failed(TransportWriteError::Envelope) }, Action::Stop)
            },
            (Stage::Acquiring, Event::Frame(Ok(frame))) => {
                let chunk = encode_part(&frame, boundary.as_slice());
                (
                    Stage::SendingHeader { frame, payload: chunk.payload },
                    Action::WriteHeader(chunk.header),
                )
            },
            (Stage::Acquiring, Event::Frame(Err(_))) => (Stage::Pausing, Action::Pause(delay_ms)),
            (Stage::SendingHeader { frame, payload }, Event::Written(true)) => {
                (Stage::SendingPayload { frame }, Action::WritePayload(payload))
            },
            (Stage::SendingHeader { frame, .. }, Event::Written(false)) => {
                (
                    Stage::Draining { pending: None, cause: failed(TransportWriteError::Header) },
                    Action::Release(frame),
                )
            },
            (Stage::SendingPayload { frame }, Event::Written(true)) => {
                (Stage::Releasing, Action::Release(frame))
            },
            (Stage::SendingPayload { frame }, Event::Written(false)) => {
                (
                    Stage::Draining { pending: None, cause: failed(TransportWriteError::Payload) },
                    Action::Release(frame),
                )
            },
            (Stage::Releasing, Event::Released) => (Stage::Pausing, Action::Pause(delay_ms)),
            (Stage::Pausing, Event::Resumed) => (Stage::Acquiring, Action::Acquire),
            (Stage::Closed { cause }, Event::Frame(Ok(frame))) => {
                (Stage::Closed { cause }, Action::Release(frame))
            },
            (Stage::Closed { cause }, _) => (Stage::Closed { cause }, Action::Stop),
            (Stage::Draining { pending, cause }, Event::Frame(Ok(frame))) => {
                (Stage::Draining { pending, cause }, Action::Release(frame))
            },
            (Stage::Draining { pending, cause }, _) => drain(pending, cause),
            (stage, Event::Frame(Ok(frame))) => {
                (
                    Stage::Draining { pending: held_frame(stage), cause: CloseCause::OutOfTurn },
                    Action::Release(frame),
                )
            },
            (stage, _) => drain(held_frame(stage), CloseCause::OutOfTurn),
        };
        (StreamSession { boundary, delay_ms, stage }, action)
    }
}

fn failed(error: TransportWriteError) -> (cause: CloseCause)
    ensures
        cause == CloseCause::WriteFailed(error),
{
    CloseCause::WriteFailed(error)
}

fn drain(pending: Option<FrameHandle>, cause: CloseCause) -> (next: (Stage, Action))
    ensures
        match pending {
            Some(frame) => next.0@ == (StageView::Draining { pending: None, cause }) && next.1@
                == ActionView::Release(frame@),
            None => next.0@ == (StageView::Closed { cause }) && next.1@ == ActionView::Stop,
        },
{
    match pending {
        Some(frame) => (Stage::Draining { pending: None, cause }, Action::Release(frame)),
        None => (Stage::Closed { cause }, Action::Stop),
    }
}

fn held_frame(stage: Stage) -> (held: Option<FrameHandle>)
    ensures
        match held {
            Some(frame) => stage@.held() == Some(frame@),
            None => stage@.held() is None,
        },
{
    match stage {
        Stage::SendingHeader { frame, .. } => Some(frame),
        Stage::SendingPayload { frame } => Some(frame),
        Stage::Draining { pending, .. } => pending,
        _ => None,
    }
}

} // verus!
