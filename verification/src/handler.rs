//! The connection handler: the server's side of one connection.
//!
//! The handler is a machine of three states. The code that owns the
//! connection reports what happened on it as a [`HandlerEvent`] and performs
//! the [`HandlerAction`] that comes back. A handler shares nothing with any
//! other handler.

use vstd::prelude::*;
use vstd::string::*;
use crate::codec::{decode_event, decode_event_spec, is_event_text, DecodeError};
use crate::{ResponseAction, ResponseActionView, ThreatEvent, ThreatEventView};

verus! {

/// One inbound frame.
#[derive(Debug, Clone, PartialEq, Eq)]
pub enum Frame {
    /// A frame with a textual payload.
    Text(String),
    /// Any other frame.
    Other,
}

/// The mathematical value of a [`Frame`].
pub enum FrameView {
    Text(Seq<char>),
    Other,
}

impl View for Frame {
    type V = FrameView;

    open spec fn view(&self) -> FrameView {
        match self {
            Frame::Text(text) => FrameView::Text(text@),
            Frame::Other => FrameView::Other,
        }
    }
}

/// Where a handler stands.
#[derive(Debug, Clone, Copy, PartialEq, Eq, Structural)]
pub enum HandlerState {
    /// Waiting for the next inbound frame.
    AwaitingFrame,
    /// A reply to the last event is being written.
    Processing,
    /// The connection is over.
    Closed,
}

/// What ended a connection or a session before its time.
#[derive(Debug, Clone, Copy, PartialEq, Eq, Structural)]
pub enum ConnectionError {
    /// The connection was refused, reset or broken.
    Transport,
    /// An outbound record could not be encoded.
    Encode,
}

/// What happened on the connection.
#[derive(Debug, Clone, PartialEq, Eq)]
pub enum HandlerEvent {
    /// A frame arrived.
    Frame(Frame),
    /// The reply was written.
    ReplySent,
    /// The reply could not be encoded.
    EncodeFailed,
    /// Reading or writing failed.
    TransportFailed,
    /// The peer closed the stream.
    StreamClosed,
}

/// The mathematical value of a [`HandlerEvent`].
pub enum HandlerEventView {
    Frame(FrameView),
    ReplySent,
    EncodeFailed,
    TransportFailed,
    StreamClosed,
}

impl View for HandlerEvent {
    type V = HandlerEventView;

    open spec fn view(&self) -> HandlerEventView {
        match self {
            HandlerEvent::Frame(frame) => HandlerEventView::Frame(frame@),
            HandlerEvent::ReplySent => HandlerEventView::ReplySent,
            HandlerEvent::EncodeFailed => HandlerEventView::EncodeFailed,
            HandlerEvent::TransportFailed => HandlerEventView::TransportFailed,
            HandlerEvent::StreamClosed => HandlerEventView::StreamClosed,
        }
    }
}

/// What the owner of the connection does next.
#[derive(Debug, Clone, PartialEq, Eq)]
pub enum HandlerAction {
    /// Wait for the next inbound frame.
    AwaitFrame,
    /// Report that the frame was no event, then wait for the next frame.
    Report(DecodeError),
    /// Encode this reply and write it on the connection, then report how
    /// that went.
    Reply(ResponseAction),
    /// Nothing new: the event came out of turn and changed nothing.
    Continue,
    /// Release the connection; the handler is done.
    Stop,
}

/// The mathematical value of a [`HandlerAction`].
pub enum HandlerActionView {
    AwaitFrame,
    Report(DecodeError),
    Reply(ResponseActionView),
    Continue,
    Stop,
}

impl View for HandlerAction {
    type V = HandlerActionView;

    open spec fn view(&self) -> HandlerActionView {
        match self {
            HandlerAction::AwaitFrame => HandlerActionView::AwaitFrame,
            HandlerAction::Report(error) => HandlerActionView::Report(*error),
            HandlerAction::Reply(action) => HandlerActionView::Reply(action@),
            HandlerAction::Continue => HandlerActionView::Continue,
            HandlerAction::Stop => HandlerActionView::Stop,
        }
    }
}

/// The handler of one accepted connection.
#[derive(Debug, Clone, Copy, PartialEq, Eq, Structural)]
pub struct ConnectionHandler {
    /// Where the handler stands.
    pub state: HandlerState,
    /// What ended the connection, where an error did.
    pub fault: Option<ConnectionError>,
}

/// The reply that the handler decides on for `event`: to isolate the
/// endpoint, whatever the event holds.
pub open spec fn response_to(event: ThreatEventView) -> ResponseActionView {
    ResponseActionView { action: "isolate"@ }
}

/// The handler's rule: the state after `event` and the action to perform.
///
/// A closed handler stays closed. While a frame is awaited, a decodable text
/// frame is answered, any other frame is passed over, and the end of the
/// stream or a transport failure closes. While a reply is being written, its
/// success leads back to waiting and any failure closes. An event that does
/// not belong to the state changes nothing.
pub open spec fn handler_step(handler: ConnectionHandler, event: HandlerEventView) -> (
    ConnectionHandler,
    HandlerActionView,
) {
    let closed = ConnectionHandler { state: HandlerState::Closed, fault: None };
    let broken = ConnectionHandler {
        state: HandlerState::Closed,
        fault: Some(ConnectionError::Transport),
    };
    match handler.state {
        HandlerState::Closed => (handler, HandlerActionView::Stop),
        HandlerState::AwaitingFrame => match event {
            HandlerEventView::Frame(FrameView::Text(text)) => match decode_event_spec(text) {
                Ok(decoded) => (
                    ConnectionHandler { state: HandlerState::Processing, fault: handler.fault },
                    HandlerActionView::Reply(response_to(decoded)),
                ),
                Err(error) => (handler, HandlerActionView::Report(error)),
            },
            HandlerEventView::Frame(FrameView::Other) => (handler, HandlerActionView::AwaitFrame),
            HandlerEventView::StreamClosed => (closed, HandlerActionView::Stop),
            HandlerEventView::TransportFailed => (broken, HandlerActionView::Stop),
            HandlerEventView::ReplySent => (handler, HandlerActionView::Continue),
            HandlerEventView::EncodeFailed => (handler, HandlerActionView::Continue),
        },
        HandlerState::Processing => match event {
            HandlerEventView::ReplySent => (
                ConnectionHandler { state: HandlerState::AwaitingFrame, fault: handler.fault },
                HandlerActionView::AwaitFrame,
            ),
            HandlerEventView::EncodeFailed => (
                ConnectionHandler {
                    state: HandlerState::Closed,
                    fault: Some(ConnectionError::Encode),
                },
                HandlerActionView::Stop,
            ),
            HandlerEventView::TransportFailed => (broken, HandlerActionView::Stop),
            HandlerEventView::StreamClosed => (closed, HandlerActionView::Stop),
            HandlerEventView::Frame(_) => (handler, HandlerActionView::Continue),
        },
    }
}

/// Decides on the reply to an event.
///
/// The decision does not look at the event: every event is answered with the
/// order to isolate the endpoint.
pub fn respond(event: &ThreatEvent) -> (r: ResponseAction)
    ensures
        r@ == response_to(event@),
{
    ResponseAction { action: String::from_str("isolate") }
}

impl ConnectionHandler {
    /// The handler of a connection that was just accepted.
    pub open spec fn fresh() -> ConnectionHandler {
        ConnectionHandler { state: HandlerState::AwaitingFrame, fault: None }
    }

    /// The handler of a connection that was just accepted: it waits for the
    /// first frame.
    pub fn new() -> (r: ConnectionHandler)
        ensures
            r == ConnectionHandler::fresh(),
    {
        ConnectionHandler { state: HandlerState::AwaitingFrame, fault: None }
    }

    /// Whether the connection is over.
    pub fn is_closed(&self) -> (r: bool)
        ensures
            r == (self.state == HandlerState::Closed),
    {
        match self.state {
            HandlerState::Closed => true,
            _ => false,
        }
    }

    /// How the connection ended: `None` while it lasts, `Some(Ok(()))` after
    /// the peer closed it, and `Some(Err(..))` after an error ended it.
    pub fn outcome(&self) -> (r: Option<Result<(), ConnectionError>>)
        ensures
            r == handler_outcome(*self),
    {
        match self.state {
            HandlerState::Closed => match self.fault {
                Some(error) => Some(Err(error)),
                None => Some(Ok(())),
            },
            _ => None,
        }
    }

    /// Takes one event and gives the action to perform, as
    /// [`handler_step`] rules.
    pub fn on_event(&mut self, event: HandlerEvent) -> (action: HandlerAction)
        ensures
            (*final(self), action@) == handler_step(*old(self), event@),
    {
        match self.state {
            HandlerState::Closed => HandlerAction::Stop,
            HandlerState::AwaitingFrame => match event {
                HandlerEvent::Frame(Frame::Text(text)) => match decode_event(text.as_str()) {
                    Ok(decoded) => {
                        self.state = HandlerState::Processing;
                        HandlerAction::Reply(respond(&decoded))
                    },
                    Err(error) => HandlerAction::Report(error),
                },
                HandlerEvent::Frame(Frame::Other) => HandlerAction::AwaitFrame,
                HandlerEvent::StreamClosed => {
                    self.state = HandlerState::Closed;
                    self.fault = None;
                    HandlerAction::Stop
                },
                HandlerEvent::TransportFailed => {
                    self.state = HandlerState::Closed;
                    self.fault = Some(ConnectionError::Transport);
                    HandlerAction::Stop
                },
                HandlerEvent::ReplySent => HandlerAction::Continue,
                HandlerEvent::EncodeFailed => HandlerAction::Continue,
            },
            HandlerState::Processing => match event {
                HandlerEvent::ReplySent => {
                    self.state = HandlerState::AwaitingFrame;
                    HandlerAction::AwaitFrame
                },
                HandlerEvent::EncodeFailed => {
                    self.state = HandlerState::Closed;
                    self.fault = Some(ConnectionError::Encode);
                    HandlerAction::Stop
                },
                HandlerEvent::TransportFailed => {
                    self.state = HandlerState::Closed;
                    self.fault = Some(ConnectionError::Transport);
                    HandlerAction::Stop
                },
                HandlerEvent::StreamClosed => {
                    self.state = HandlerState::Closed;
                    self.fault = None;
                    HandlerAction::Stop
                },
                HandlerEvent::Frame(_) => HandlerAction::Continue,
            },
        }
    }
}

/// How a connection ended, read from its handler.
pub open spec fn handler_outcome(handler: ConnectionHandler) -> Option<
    Result<(), ConnectionError>,
> {
    if handler.state == HandlerState::Closed {
        match handler.fault {
            Some(error) => Some(Err(error)),
            None => Some(Ok(())),
        }
    } else {
        None
    }
}

/// `event` is the arrival of a text frame that decodes as an event.
pub open spec fn is_event_frame(event: HandlerEventView) -> bool {
    match event {
        HandlerEventView::Frame(FrameView::Text(text)) => is_event_text(text),
        _ => false,
    }
}

/// A malformed frame neither ends the connection nor is answered, and the
/// well-formed event after it is answered once: the first frame is reported
/// and leaves the handler waiting, the second brings the one reply, and once
/// that is written the handler waits again.
pub proof fn malformed_frame_is_survived(
    handler: ConnectionHandler,
    malformed: Seq<char>,
    event: Seq<char>,
)
    requires
        handler.state == HandlerState::AwaitingFrame,
        !is_event_text(malformed),
        is_event_text(event),
    ensures
        ({
            let first = handler_step(handler, HandlerEventView::Frame(FrameView::Text(malformed)));
            let second = handler_step(first.0, HandlerEventView::Frame(FrameView::Text(event)));
            let third = handler_step(second.0, HandlerEventView::ReplySent);
            &&& first.0 == handler
            &&& first.1 is Report
            &&& second.0.state == HandlerState::Processing
            &&& second.1 == HandlerActionView::Reply(response_to(decode_event_spec(event)->Ok_0))
            &&& third.0.state == HandlerState::AwaitingFrame
            &&& third.1 == HandlerActionView::AwaitFrame
        }),
{
}

/// A reply is given exactly for a decodable text frame that arrives while a
/// frame is awaited, and then the handler takes no further frame until the
/// reply is written.
pub proof fn reply_only_to_decodable_frame(handler: ConnectionHandler, event: HandlerEventView)
    ensures
        handler_step(handler, event).1 is Reply <==> handler.state == HandlerState::AwaitingFrame
            && is_event_frame(event),
        handler_step(handler, event).1 is Reply ==> handler_step(handler, event).0.state
            == HandlerState::Processing,
        handler.state == HandlerState::Processing && event is Frame ==> handler_step(
            handler,
            event,
        ) == (handler, HandlerActionView::Continue),
{
}

/// An error is recorded only for a connection that is over.
pub open spec fn handler_wf(handler: ConnectionHandler) -> bool {
    handler.fault is Some ==> handler.state == HandlerState::Closed
}

/// The handler that `events`, reported one after the other, make of
/// `handler`.
pub open spec fn handler_after(handler: ConnectionHandler, events: Seq<HandlerEventView>) -> ConnectionHandler
    decreases events.len(),
{
    if events.len() == 0 {
        handler
    } else {
        handler_step(handler_after(handler, events.drop_last()), events.last()).0
    }
}

/// Whatever is reported to a handler from its start, an error is recorded
/// only once the connection is over, and a connection that no event ended
/// is still open: frames alone, decodable or not, never close it.
pub proof fn handler_closes_only_on_demand(events: Seq<HandlerEventView>)
    ensures
        handler_wf(handler_after(ConnectionHandler::fresh(), events)),
        (forall|i: int| 0 <= i < events.len() ==> #[trigger] events[i] is Frame
            || events[i] is ReplySent) ==> handler_after(ConnectionHandler::fresh(), events).state
            != HandlerState::Closed,
    decreases events.len(),
{
    if events.len() > 0 {
        let before = events.drop_last();
        handler_closes_only_on_demand(before);
        assert(forall|i: int| 0 <= i < before.len() ==> before[i] == events[i]);
    }
}

/// Only the end of the stream or a failure closes a connection, and a closed
/// one stays closed whatever is reported.
pub proof fn close_is_final(handler: ConnectionHandler, event: HandlerEventView)
    ensures
        handler.state == HandlerState::Closed ==> handler_step(handler, event) == (
            handler,
            HandlerActionView::Stop,
        ),
        handler.state != HandlerState::Closed && handler_step(handler, event).0.state
            == HandlerState::Closed ==> event is StreamClosed || event is TransportFailed
            || event is EncodeFailed,
{
}

} // verus!
