//! The server listener: what to do with each connection request.
//!
//! The listener keeps nothing about any connection. Whatever becomes of one
//! request, the listener goes on accepting: a failure is reported and ends
//! nothing but that one request.

use vstd::prelude::*;
use crate::handler::{ConnectionHandler, HandlerState};

verus! {

/// What became of one connection request.
#[derive(Debug, Clone, Copy, PartialEq, Eq, Structural)]
pub enum Arrival {
    /// The transport connection was accepted and upgraded to framed
    /// messages.
    Upgraded,
    /// The transport connection was accepted, but the upgrade failed.
    UpgradeFailed,
    /// The transport connection could not be accepted.
    AcceptFailed,
}

/// Why a connection request came to nothing.
#[derive(Debug, Clone, Copy, PartialEq, Eq, Structural)]
pub enum ListenerError {
    /// The handshake that upgrades the connection failed.
    Upgrade,
    /// The transport failed while accepting.
    Transport,
}

/// What the listener does about one connection request before it accepts
/// the next.
#[derive(Debug, Clone, Copy, PartialEq, Eq, Structural)]
pub enum ListenerAction {
    /// Start this handler on the connection, on its own.
    Serve(ConnectionHandler),
    /// Report the failure.
    Report(ListenerError),
}

/// The listener's rule.
pub open spec fn arrival_action(arrival: Arrival) -> ListenerAction {
    match arrival {
        Arrival::Upgraded => ListenerAction::Serve(
            ConnectionHandler { state: HandlerState::AwaitingFrame, fault: None },
        ),
        Arrival::UpgradeFailed => ListenerAction::Report(ListenerError::Upgrade),
        Arrival::AcceptFailed => ListenerAction::Report(ListenerError::Transport),
    }
}

/// Decides what to do about one connection request: a fresh handler for a
/// connection that was upgraded, a report for one that was not.
pub fn on_arrival(arrival: Arrival) -> (action: ListenerAction)
    ensures
        action == arrival_action(arrival),
{
    match arrival {
        Arrival::Upgraded => ListenerAction::Serve(ConnectionHandler::new()),
        Arrival::UpgradeFailed => ListenerAction::Report(ListenerError::Upgrade),
        Arrival::AcceptFailed => ListenerAction::Report(ListenerError::Transport),
    }
}

} // verus!
