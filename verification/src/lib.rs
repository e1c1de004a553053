//! A minimal request/reply protocol for endpoint threat reports.
//!
//! A client reports [`ThreatEvent`]s one at a time over a persistent
//! full-duplex connection and waits for one [`ResponseAction`] per event.
//! This crate holds the protocol's rules: the wire codec, the per-connection
//! handler, the client session and the load summary. Each of the three
//! machines is a function from a state and an event to the next state and the
//! action to perform, so that the code that owns sockets and timers only
//! performs actions and reports events.

use vstd::prelude::*;


pub mod codec;
pub mod decimal;
pub mod handler;
pub mod harness;
pub mod json;
pub mod listener;
pub mod session;





verus! {

/// A single reported occurrence.
///
/// Neither field is validated: the label is free-form text and the severity is
/// any 32-bit signed integer.
#[derive(Debug, Clone, PartialEq, Eq)]
pub struct ThreatEvent {
    pub event_type: String,
    pub severity: i32,
}

/// The mathematical value of a [`ThreatEvent`].
pub struct ThreatEventView {
    pub event_type: Seq<char>,
    pub severity: int,
}

impl View for ThreatEvent {
    type V = ThreatEventView;

    open spec fn view(&self) -> ThreatEventView {
        ThreatEventView { event_type: self.event_type@, severity: self.severity as int }
    }
}

/// A single reply to one event.
#[derive(Debug, Clone, PartialEq, Eq)]
pub struct ResponseAction {
    pub action: String,
}

/// The mathematical value of a [`ResponseAction`].
pub struct ResponseActionView {
    pub action: Seq<char>,
}

impl View for ResponseAction {
    type V = ResponseActionView;

    open spec fn view(&self) -> ResponseActionView {
        ResponseActionView { action: self.action@ }
    }
}

} // verus!
