use better_endpoint_protection::codec::{encode_action, DecodeError, RecordField};
use better_endpoint_protection::handler::{
    respond, ConnectionError, ConnectionHandler, Frame, HandlerAction, HandlerEvent, HandlerState,
};
use better_endpoint_protection::listener::{on_arrival, Arrival, ListenerAction, ListenerError};
use better_endpoint_protection::{ResponseAction, ThreatEvent};

fn text_frame(text: &str) -> HandlerEvent {
    HandlerEvent::Frame(Frame::Text(text.to_string()))
}

fn isolate() -> ResponseAction {
    ResponseAction { action: "isolate".to_string() }
}

#[test]
fn respond_always_isolates() {
    let mild = ThreatEvent { event_type: "scan".to_string(), severity: 1 };
    let grave = ThreatEvent { event_type: "malware_detected_1".to_string(), severity: 10 };
    assert_eq!(respond(&mild), isolate());
    assert_eq!(respond(&grave), isolate());
}

#[test]
fn new_handler_awaits_a_frame() {
    let handler = ConnectionHandler::new();
    assert_eq!(handler.state, HandlerState::AwaitingFrame);
    assert_eq!(handler.fault, None);
    assert!(!handler.is_closed());
    assert_eq!(handler.outcome(), None);
}

#[test]
fn event_is_answered_with_one_isolate_frame() {
    let mut handler = ConnectionHandler::new();
    let action = handler.on_event(text_frame("{\"event_type\":\"malware_detected_1\",\"severity\":5}"));
    assert_eq!(action, HandlerAction::Reply(isolate()));
    assert_eq!(handler.state, HandlerState::Processing);
    let reply = match action {
        HandlerAction::Reply(reply) => reply,
        _ => unreachable!(),
    };
    assert_eq!(encode_action(&reply).unwrap(), "{\"action\":\"isolate\"}");
    // No further frame is taken until the reply is written.
    assert_eq!(
        handler.on_event(text_frame("{\"event_type\":\"malware_detected_2\",\"severity\":6}")),
        HandlerAction::Continue
    );
    assert_eq!(handler.state, HandlerState::Processing);
    assert_eq!(handler.on_event(HandlerEvent::ReplySent), HandlerAction::AwaitFrame);
    assert_eq!(handler.state, HandlerState::AwaitingFrame);
}

#[test]
fn malformed_frame_then_event_gives_one_reply() {
    let mut handler = ConnectionHandler::new();
    let mut replies = 0;
    let frames = ["{\"event_type\":", "{\"event_type\":\"x\",\"severity\":3}"];
    let mut actions = Vec::new();
    for frame in frames {
        let action = handler.on_event(text_frame(frame));
        if let HandlerAction::Reply(_) = action {
            replies += 1;
            assert_eq!(handler.on_event(HandlerEvent::ReplySent), HandlerAction::AwaitFrame);
        }
        actions.push(action);
        assert!(!handler.is_closed());
    }
    assert_eq!(replies, 1);
    assert_eq!(actions[0], HandlerAction::Report(DecodeError::Malformed));
    assert_eq!(actions[1], HandlerAction::Reply(isolate()));
    assert_eq!(handler.state, HandlerState::AwaitingFrame);
}

#[test]
fn undecodable_frames_are_reported_with_their_reason() {
    let mut handler = ConnectionHandler::new();
    assert_eq!(
        handler.on_event(text_frame("{\"severity\":3}")),
        HandlerAction::Report(DecodeError::MissingField(RecordField::EventType))
    );
    assert_eq!(
        handler.on_event(text_frame("{\"event_type\":\"x\",\"severity\":\"high\"}")),
        HandlerAction::Report(DecodeError::WrongType(RecordField::Severity))
    );
    assert_eq!(
        handler.on_event(text_frame("{\"action\":\"isolate\"}")),
        HandlerAction::Report(DecodeError::MissingField(RecordField::EventType))
    );
    assert_eq!(handler.state, HandlerState::AwaitingFrame);
}

#[test]
fn frame_that_is_no_text_is_passed_over() {
    let mut handler = ConnectionHandler::new();
    assert_eq!(handler.on_event(HandlerEvent::Frame(Frame::Other)), HandlerAction::AwaitFrame);
    assert_eq!(handler, ConnectionHandler::new());
}

#[test]
fn end_of_stream_closes_cleanly() {
    let mut handler = ConnectionHandler::new();
    assert_eq!(handler.on_event(HandlerEvent::StreamClosed), HandlerAction::Stop);
    assert!(handler.is_closed());
    assert_eq!(handler.outcome(), Some(Ok(())));
}

#[test]
fn transport_failure_closes_with_an_error() {
    let mut handler = ConnectionHandler::new();
    assert_eq!(handler.on_event(HandlerEvent::TransportFailed), HandlerAction::Stop);
    assert!(handler.is_closed());
    assert_eq!(handler.outcome(), Some(Err(ConnectionError::Transport)));
}

#[test]
fn failed_write_of_a_reply_ends_the_connection() {
    let mut handler = ConnectionHandler::new();
    handler.on_event(text_frame("{\"event_type\":\"x\",\"severity\":3}"));
    assert_eq!(handler.on_event(HandlerEvent::TransportFailed), HandlerAction::Stop);
    assert_eq!(handler.outcome(), Some(Err(ConnectionError::Transport)));
}

#[test]
fn failed_encoding_of_a_reply_ends_the_connection() {
    let mut handler = ConnectionHandler::new();
    handler.on_event(text_frame("{\"event_type\":\"x\",\"severity\":3}"));
    assert_eq!(handler.on_event(HandlerEvent::EncodeFailed), HandlerAction::Stop);
    assert_eq!(handler.outcome(), Some(Err(ConnectionError::Encode)));
}

#[test]
fn peer_closing_while_a_reply_is_written_closes_cleanly() {
    let mut handler = ConnectionHandler::new();
    handler.on_event(text_frame("{\"event_type\":\"x\",\"severity\":3}"));
    assert_eq!(handler.on_event(HandlerEvent::StreamClosed), HandlerAction::Stop);
    assert_eq!(handler.outcome(), Some(Ok(())));
}

#[test]
fn events_out_of_turn_change_nothing() {
    let mut handler = ConnectionHandler::new();
    assert_eq!(handler.on_event(HandlerEvent::ReplySent), HandlerAction::Continue);
    assert_eq!(handler.on_event(HandlerEvent::EncodeFailed), HandlerAction::Continue);
    assert_eq!(handler, ConnectionHandler::new());
}

#[test]
fn closed_handler_stays_closed() {
    let mut handler = ConnectionHandler::new();
    handler.on_event(HandlerEvent::TransportFailed);
    let closed = handler;
    let events = [
        text_frame("{\"event_type\":\"x\",\"severity\":3}"),
        HandlerEvent::Frame(Frame::Other),
        HandlerEvent::ReplySent,
        HandlerEvent::EncodeFailed,
        HandlerEvent::TransportFailed,
        HandlerEvent::StreamClosed,
    ];
    for event in events {
        assert_eq!(handler.on_event(event), HandlerAction::Stop);
        assert_eq!(handler, closed);
    }
}

#[test]
fn handler_answers_every_event_of_a_long_stream() {
    let mut handler = ConnectionHandler::new();
    let mut replies = 0;
    for i in 0..100 {
        let frame = format!("{{\"event_type\":\"e{}\",\"severity\":{}}}", i, i % 10 + 1);
        assert_eq!(handler.on_event(text_frame(&frame)), HandlerAction::Reply(isolate()));
        assert_eq!(handler.on_event(HandlerEvent::ReplySent), HandlerAction::AwaitFrame);
        replies += 1;
    }
    assert_eq!(replies, 100);
    assert_eq!(handler.on_event(HandlerEvent::StreamClosed), HandlerAction::Stop);
}

#[test]
fn listener_serves_an_upgraded_connection() {
    assert_eq!(on_arrival(Arrival::Upgraded), ListenerAction::Serve(ConnectionHandler::new()));
}

#[test]
fn listener_reports_a_failed_request_and_goes_on() {
    assert_eq!(
        on_arrival(Arrival::UpgradeFailed),
        ListenerAction::Report(ListenerError::Upgrade)
    );
    assert_eq!(
        on_arrival(Arrival::AcceptFailed),
        ListenerAction::Report(ListenerError::Transport)
    );
    assert_eq!(on_arrival(Arrival::Upgraded), ListenerAction::Serve(ConnectionHandler::new()));
}
