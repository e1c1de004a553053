//! The client session: one connection, a fixed number of requests, one
//! request in flight at a time.
//!
//! The session is a machine. The code that owns the connection reports what
//! happened as a [`SessionEvent`] and performs the [`SessionAction`] that
//! comes back; the session decides what is sent and when, counts what became
//! of each request, and never sends a request before the one before it is
//! resolved.

use vstd::prelude::*;
use vstd::string::*;
use crate::codec::{decode_action, decode_action_spec, DecodeError};
use crate::decimal::{decimal_nat, push_decimal};
use crate::handler::{ConnectionError, Frame, FrameView};
use crate::{ResponseAction, ResponseActionView, ThreatEvent, ThreatEventView};

verus! {

/// How a session labels the events it makes up.
#[derive(Debug, Clone, Copy, PartialEq, Eq, Structural)]
pub enum Labels {
    /// `malware_detected_` and the request's number, counted from one.
    Detection,
    /// `test_event_` and the request's index, counted from zero.
    Probe,
}

/// What a session is asked to do.
#[derive(Debug, Clone, Copy, PartialEq, Eq, Structural)]
pub struct SessionPlan {
    /// How many events to send.
    pub requests: usize,
    /// The pause after each reply, in milliseconds; `None` for none.
    pub pace_millis: Option<u64>,
    /// Whether the session waits at the rendezvous after connecting.
    pub rendezvous: bool,
    /// Whether the session closes its write side when it is done.
    pub close_when_done: bool,
    /// How the events are labelled.
    pub labels: Labels,
}

/// Where a session stands.
#[derive(Debug, Clone, Copy, PartialEq, Eq, Structural)]
pub enum SessionPhase {
    /// The connection is being opened.
    Connecting,
    /// Connected, waiting for the rendezvous to release.
    AtBarrier,
    /// A request was handed out and is being written.
    Sending,
    /// The request is written; its reply is awaited.
    AwaitingReply,
    /// Pausing after a reply.
    Pacing,
    /// All requests are resolved; the write side is being closed.
    Closing,
    /// Done.
    Finished,
    /// Ended by an error.
    Failed,
}

/// What became of the requests of a session.
#[derive(Debug, Clone, Copy, PartialEq, Eq, Structural)]
pub struct Tally {
    /// Requests written on the connection.
    pub sent: usize,
    /// Replies that decoded.
    pub answered: usize,
    /// Text replies that did not decode.
    pub undecodable: usize,
    /// Replies that were no text frame.
    pub not_text: usize,
    /// Requests whose reply never came because the stream ended.
    pub missing: usize,
}

/// All that a session knows.
#[derive(Debug, Clone, Copy, PartialEq, Eq, Structural)]
pub struct SessionData {
    pub plan: SessionPlan,
    pub phase: SessionPhase,
    /// The index of the request in flight, or of the next one.
    pub cursor: usize,
    /// Whether the rendezvous has released this session.
    pub released: bool,
    pub tally: Tally,
    /// What ended the session, where an error did.
    pub fault: Option<ConnectionError>,
}

/// What happened to the session's connection.
#[derive(Debug, Clone, PartialEq, Eq)]
pub enum SessionEvent {
    /// The connection is open.
    Connected,
    /// The rendezvous released the session.
    Released,
    /// The request was written.
    Sent,
    /// The request could not be encoded.
    EncodeFailed,
    /// Connecting, reading, writing or closing failed.
    TransportFailed,
    /// A frame arrived.
    Reply(Frame),
    /// The stream ended.
    StreamEnded,
    /// The pause is over.
    PaceElapsed,
    /// The write side is closed.
    WriteClosed,
}

/// The mathematical value of a [`SessionEvent`].
pub enum SessionEventView {
    Connected,
    Released,
    Sent,
    EncodeFailed,
    TransportFailed,
    Reply(FrameView),
    StreamEnded,
    PaceElapsed,
    WriteClosed,
}

impl View for SessionEvent {
    type V = SessionEventView;

    open spec fn view(&self) -> SessionEventView {
        match self {
            SessionEvent::Connected => SessionEventView::Connected,
            SessionEvent::Released => SessionEventView::Released,
            SessionEvent::Sent => SessionEventView::Sent,
            SessionEvent::EncodeFailed => SessionEventView::EncodeFailed,
            SessionEvent::TransportFailed => SessionEventView::TransportFailed,
            SessionEvent::Reply(frame) => SessionEventView::Reply(frame@),
            SessionEvent::StreamEnded => SessionEventView::StreamEnded,
            SessionEvent::PaceElapsed => SessionEventView::PaceElapsed,
            SessionEvent::WriteClosed => SessionEventView::WriteClosed,
        }
    }
}

/// What the owner of the connection does next.
#[derive(Debug, Clone, PartialEq, Eq)]
pub enum SessionAction {
    /// Wait at the rendezvous, then report the release.
    AwaitRelease,
    /// Encode this event and write it, then report how that went.
    Send(ThreatEvent),
    /// Wait for one frame, then report it.
    AwaitReply,
    /// Pause for so many milliseconds, then report that the pause is over.
    Sleep(u64),
    /// Close the write side, then report how that went.
    CloseWrite,
    /// Nothing new: the event came out of turn and changed nothing.
    Continue,
    /// The session is over before it was released: arrive at the rendezvous
    /// all the same, so that the other sessions are not held up, and do
    /// nothing after it.
    Withdraw,
    /// The session is over.
    Finish,
}

/// The mathematical value of a [`SessionAction`].
pub enum SessionActionView {
    AwaitRelease,
    Send(ThreatEventView),
    AwaitReply,
    Sleep(u64),
    CloseWrite,
    Continue,
    Withdraw,
    Finish,
}

impl View for SessionAction {
    type V = SessionActionView;

    open spec fn view(&self) -> SessionActionView {
        match self {
            SessionAction::AwaitRelease => SessionActionView::AwaitRelease,
            SessionAction::Send(event) => SessionActionView::Send(event@),
            SessionAction::AwaitReply => SessionActionView::AwaitReply,
            SessionAction::Sleep(millis) => SessionActionView::Sleep(*millis),
            SessionAction::CloseWrite => SessionActionView::CloseWrite,
            SessionAction::Continue => SessionActionView::Continue,
            SessionAction::Withdraw => SessionActionView::Withdraw,
            SessionAction::Finish => SessionActionView::Finish,
        }
    }
}

/// What became of one request.
#[derive(Debug, Clone, PartialEq, Eq)]
pub enum ReplyOutcome {
    /// The reply decoded.
    Answered(ResponseAction),
    /// A text frame came that is no reply.
    Undecodable(DecodeError),
    /// A frame came that is no text.
    NotText,
    /// The stream ended first.
    Missing,
}

/// The mathematical value of a [`ReplyOutcome`].
pub enum ReplyOutcomeView {
    Answered(ResponseActionView),
    Undecodable(DecodeError),
    NotText,
    Missing,
}

impl View for ReplyOutcome {
    type V = ReplyOutcomeView;

    open spec fn view(&self) -> ReplyOutcomeView {
        match self {
            ReplyOutcome::Answered(action) => ReplyOutcomeView::Answered(action@),
            ReplyOutcome::Undecodable(error) => ReplyOutcomeView::Undecodable(*error),
            ReplyOutcome::NotText => ReplyOutcomeView::NotText,
            ReplyOutcome::Missing => ReplyOutcomeView::Missing,
        }
    }
}

/// What one event led to: the action to perform and, where the event settled
/// a request, what became of that request.
#[derive(Debug, Clone, PartialEq, Eq)]
pub struct SessionStep {
    pub action: SessionAction,
    pub reply: Option<ReplyOutcome>,
}

/// The mathematical value of a [`SessionStep`].
pub struct SessionStepView {
    pub action: SessionActionView,
    pub reply: Option<ReplyOutcomeView>,
}

impl View for SessionStep {
    type V = SessionStepView;

    open spec fn view(&self) -> SessionStepView {
        SessionStepView {
            action: self.action@,
            reply: match self.reply {
                Some(outcome) => Some(outcome@),
                None => None,
            },
        }
    }
}

/// The label of the event at `index`.
pub open spec fn planned_label(labels: Labels, index: nat) -> Seq<char> {
    match labels {
        Labels::Detection => "malware_detected_"@ + decimal_nat(index + 1),
        Labels::Probe => "test_event_"@ + decimal_nat(index),
    }
}

/// The event at `index`: its label, and a severity that runs from 1 to 10
/// and starts over.
pub open spec fn planned_event(labels: Labels, index: nat) -> ThreatEventView {
    ThreatEventView { event_type: planned_label(labels, index), severity: (index % 10 + 1) as int }
}

/// Makes up the event at `index`.
pub fn synthesize(labels: Labels, index: usize) -> (r: ThreatEvent)
    ensures
        r@ == planned_event(labels, index as nat),
{
    let severity: i32 = (index % 10) as i32 + 1;
    let label = match labels {
        Labels::Detection => {
            let mut label = String::from_str("malware_detected_");
            push_decimal(&mut label, index as u128 + 1);
            label
        },
        Labels::Probe => {
            let mut label = String::from_str("test_event_");
            push_decimal(&mut label, index as u128);
            label
        },
    };
    ThreatEvent { event_type: label, severity }
}

/// How many requests are settled.
pub open spec fn resolved(tally: Tally) -> int {
    tally.answered + tally.undecodable + tally.not_text + tally.missing
}

/// The counts and the phase of a session fit together: as many requests are
/// settled as the cursor says, one more is written while its reply is
/// awaited, a session is released before it sends where it has a rendezvous,
/// and an error is recorded exactly for a failed session.
pub open spec fn session_wf(s: SessionData) -> bool {
    &&& s.cursor <= s.plan.requests
    &&& resolved(s.tally) == s.cursor
    &&& s.cursor <= s.tally.sent <= s.cursor + 1
    &&& s.tally.sent <= s.plan.requests
    &&& s.fault is Some <==> s.phase == SessionPhase::Failed
    &&& match s.phase {
        SessionPhase::Connecting => s.tally.sent == 0 && !s.released,
        SessionPhase::AtBarrier => s.tally.sent == 0 && !s.released && s.plan.rendezvous,
        SessionPhase::Sending => s.tally.sent == s.cursor && s.cursor < s.plan.requests,
        SessionPhase::AwaitingReply => s.tally.sent == s.cursor + 1,
        SessionPhase::Pacing => s.tally.sent == s.cursor && s.plan.pace_millis is Some,
        SessionPhase::Closing => s.tally.sent == s.cursor && s.cursor == s.plan.requests,
        SessionPhase::Finished => s.tally.sent == s.cursor && s.cursor == s.plan.requests,
        SessionPhase::Failed => true,
    }
    &&& s.plan.rendezvous && s.tally.sent > 0 ==> s.released
    &&& s.plan.rendezvous && (s.phase == SessionPhase::Sending || s.phase
        == SessionPhase::AwaitingReply || s.phase == SessionPhase::Pacing) ==> s.released
}

/// A session before its connection is open.
pub open spec fn fresh_session(plan: SessionPlan) -> SessionData {
    SessionData {
        plan,
        phase: SessionPhase::Connecting,
        cursor: 0,
        released: false,
        tally: Tally { sent: 0, answered: 0, undecodable: 0, not_text: 0, missing: 0 },
        fault: None,
    }
}

/// The session ends with `error`. Where the others still wait for it at the
/// rendezvous, it withdraws.
pub open spec fn fail_with(s: SessionData, error: ConnectionError) -> (
    SessionData,
    SessionActionView,
) {
    (
        SessionData { phase: SessionPhase::Failed, fault: Some(error), ..s },
        if s.plan.rendezvous && !s.released {
            SessionActionView::Withdraw
        } else {
            SessionActionView::Finish
        },
    )
}

/// The session goes on to its next request, or ends where none is left.
pub open spec fn proceed(s: SessionData) -> (SessionData, SessionActionView) {
    if s.cursor < s.plan.requests {
        (
            SessionData { phase: SessionPhase::Sending, ..s },
            SessionActionView::Send(planned_event(s.plan.labels, s.cursor as nat)),
        )
    } else if s.plan.close_when_done {
        (SessionData { phase: SessionPhase::Closing, ..s }, SessionActionView::CloseWrite)
    } else {
        (SessionData { phase: SessionPhase::Finished, ..s }, SessionActionView::Finish)
    }
}

/// The request in flight is settled and counted in `tally`: the session
/// pauses where it paces itself, and goes on otherwise.
pub open spec fn settle(s: SessionData, tally: Tally) -> (SessionData, SessionActionView) {
    let next = SessionData { cursor: (s.cursor + 1) as usize, tally, ..s };
    match s.plan.pace_millis {
        Some(millis) => (
            SessionData { phase: SessionPhase::Pacing, ..next },
            SessionActionView::Sleep(millis),
        ),
        None => proceed(next),
    }
}

/// What becomes of the request in flight when `event` comes, and the tally
/// with it counted; `None` where the event settles nothing.
pub open spec fn reply_outcome(tally: Tally, event: SessionEventView) -> Option<
    (ReplyOutcomeView, Tally),
> {
    match event {
        SessionEventView::Reply(FrameView::Text(text)) => match decode_action_spec(text) {
            Ok(action) => Some(
                (
                    ReplyOutcomeView::Answered(action),
                    Tally { answered: (tally.answered + 1) as usize, ..tally },
                ),
            ),
            Err(error) => Some(
                (
                    ReplyOutcomeView::Undecodable(error),
                    Tally { undecodable: (tally.undecodable + 1) as usize, ..tally },
                ),
            ),
        },
        SessionEventView::Reply(FrameView::Other) => Some(
            (ReplyOutcomeView::NotText, Tally { not_text: (tally.not_text + 1) as usize, ..tally }),
        ),
        SessionEventView::StreamEnded => Some(
            (ReplyOutcomeView::Missing, Tally { missing: (tally.missing + 1) as usize, ..tally }),
        ),
        _ => None,
    }
}

/// A step that settles no request.
pub open spec fn quiet(pair: (SessionData, SessionActionView)) -> (SessionData, SessionStepView) {
    (pair.0, SessionStepView { action: pair.1, reply: None })
}

/// The session's rule: the session after `event` and what the event led to.
///
/// A session that is over stays as it is. A transport failure ends any other
/// session. Apart from that each phase takes the events that belong to it:
/// the open connection, the release, the written request (or the failure to
/// encode it), the reply or its absence, the end of the pause, the closed
/// write side. An event that does not belong to the phase changes nothing.
pub open spec fn session_step(s: SessionData, event: SessionEventView) -> (
    SessionData,
    SessionStepView,
) {
    let ignored = (s, SessionStepView { action: SessionActionView::Continue, reply: None });
    if s.phase == SessionPhase::Finished || s.phase == SessionPhase::Failed {
        (s, SessionStepView { action: SessionActionView::Finish, reply: None })
    } else if event is TransportFailed {
        quiet(fail_with(s, ConnectionError::Transport))
    } else {
        match s.phase {
            SessionPhase::Connecting => if event is Connected {
                if s.plan.rendezvous {
                    quiet(
                        (
                            SessionData { phase: SessionPhase::AtBarrier, ..s },
                            SessionActionView::AwaitRelease,
                        ),
                    )
                } else {
                    quiet(proceed(s))
                }
            } else {
                ignored
            },
            SessionPhase::AtBarrier => if event is Released {
                quiet(proceed(SessionData { released: true, ..s }))
            } else {
                ignored
            },
            SessionPhase::Sending => if event is Sent {
                quiet(
                    (
                        SessionData {
                            phase: SessionPhase::AwaitingReply,
                            tally: Tally { sent: (s.tally.sent + 1) as usize, ..s.tally },
                            ..s
                        },
                        SessionActionView::AwaitReply,
                    ),
                )
            } else if event is EncodeFailed {
                quiet(fail_with(s, ConnectionError::Encode))
            } else {
                ignored
            },
            SessionPhase::AwaitingReply => match reply_outcome(s.tally, event) {
                Some((outcome, tally)) => {
                    let settled = settle(s, tally);
                    (settled.0, SessionStepView { action: settled.1, reply: Some(outcome) })
                },
                None => ignored,
            },
            SessionPhase::Pacing => if event is PaceElapsed {
                quiet(proceed(s))
            } else {
                ignored
            },
            SessionPhase::Closing => if event is WriteClosed {
                quiet(
                    (SessionData { phase: SessionPhase::Finished, ..s }, SessionActionView::Finish),
                )
            } else {
                ignored
            },
            _ => ignored,
        }
    }
}

/// What a session has to show for itself.
#[derive(Debug, Clone, Copy, PartialEq, Eq, Structural)]
pub struct SessionReport {
    /// How many requests the session was asked to send.
    pub requests: usize,
    /// What became of them.
    pub tally: Tally,
    /// Whether the session went through all of its plan.
    pub finished: bool,
    /// What ended the session, where an error did.
    pub fault: Option<ConnectionError>,
}

/// The report of a session as it stands.
pub open spec fn report_of(s: SessionData) -> SessionReport {
    SessionReport {
        requests: s.plan.requests,
        tally: s.tally,
        finished: s.phase == SessionPhase::Finished,
        fault: s.fault,
    }
}

/// A report that a session can give: no more requests settled than written,
/// no more written than asked for, all of them written and settled where the
/// session finished, and then no error.
pub open spec fn report_wf(report: SessionReport) -> bool {
    &&& resolved(report.tally) <= report.tally.sent <= report.requests
    &&& report.finished ==> resolved(report.tally) == report.requests && report.fault is None
}

impl SessionPlan {
    /// The plan of a single client: `requests` detection events, a tenth of
    /// a second after each reply, no rendezvous, and the connection is left
    /// as it is at the end.
    pub fn interactive(requests: usize) -> (r: SessionPlan)
        ensures
            r == (SessionPlan {
                requests,
                pace_millis: Some(100u64),
                rendezvous: false,
                close_when_done: false,
                labels: Labels::Detection,
            }),
    {
        SessionPlan {
            requests,
            pace_millis: Some(100),
            rendezvous: false,
            close_when_done: false,
            labels: Labels::Detection,
        }
    }

    /// The plan of one client among many under load: `requests` probe
    /// events back to back, a rendezvous after connecting, and the write
    /// side closed at the end.
    pub fn load(requests: usize) -> (r: SessionPlan)
        ensures
            r == (SessionPlan {
                requests,
                pace_millis: None,
                rendezvous: true,
                close_when_done: true,
                labels: Labels::Probe,
            }),
    {
        SessionPlan {
            requests,
            pace_millis: None,
            rendezvous: true,
            close_when_done: true,
            labels: Labels::Probe,
        }
    }
}

/// One client session.
#[derive(Debug, Clone)]
pub struct ClientSession {
    data: SessionData,
}

impl View for ClientSession {
    type V = SessionData;

    closed spec fn view(&self) -> SessionData {
        self.data
    }
}

fn fail_now(s: SessionData, error: ConnectionError) -> (r: (SessionData, SessionAction))
    ensures
        (r.0, r.1@) == fail_with(s, error),
{
    let action = if s.plan.rendezvous && !s.released {
        SessionAction::Withdraw
    } else {
        SessionAction::Finish
    };
    (SessionData { phase: SessionPhase::Failed, fault: Some(error), ..s }, action)
}

fn proceed_now(s: SessionData) -> (r: (SessionData, SessionAction))
    ensures
        (r.0, r.1@) == proceed(s),
{
    if s.cursor < s.plan.requests {
        let event = synthesize(s.plan.labels, s.cursor);
        (SessionData { phase: SessionPhase::Sending, ..s }, SessionAction::Send(event))
    } else if s.plan.close_when_done {
        (SessionData { phase: SessionPhase::Closing, ..s }, SessionAction::CloseWrite)
    } else {
        (SessionData { phase: SessionPhase::Finished, ..s }, SessionAction::Finish)
    }
}

fn settle_now(s: SessionData, tally: Tally) -> (r: (SessionData, SessionAction))
    requires
        s.cursor < usize::MAX,
    ensures
        (r.0, r.1@) == settle(s, tally),
{
    let next = SessionData { cursor: s.cursor + 1, tally, ..s };
    match s.plan.pace_millis {
        Some(millis) => (
            SessionData { phase: SessionPhase::Pacing, ..next },
            SessionAction::Sleep(millis),
        ),
        None => proceed_now(next),
    }
}

fn settle_reply(tally: Tally, event: SessionEvent) -> (r: Option<(ReplyOutcome, Tally)>)
    requires
        resolved(tally) < usize::MAX,
    ensures
        match r {
            Some((outcome, counted)) => reply_outcome(tally, event@) == Some((outcome@, counted)),
            None => reply_outcome(tally, event@) is None,
        },
{
    match event {
        SessionEvent::Reply(Frame::Text(text)) => match decode_action(text.as_str()) {
            Ok(action) => Some(
                (ReplyOutcome::Answered(action), Tally { answered: tally.answered + 1, ..tally }),
            ),
            Err(error) => Some(
                (
                    ReplyOutcome::Undecodable(error),
                    Tally { undecodable: tally.undecodable + 1, ..tally },
                ),
            ),
        },
        SessionEvent::Reply(Frame::Other) => Some(
            (ReplyOutcome::NotText, Tally { not_text: tally.not_text + 1, ..tally }),
        ),
        SessionEvent::StreamEnded => Some(
            (ReplyOutcome::Missing, Tally { missing: tally.missing + 1, ..tally }),
        ),
        _ => None,
    }
}

impl ClientSession {
    /// The counts and the phase of the session fit together.
    pub open spec fn wf(&self) -> bool {
        session_wf(self@)
    }

    /// A session with `plan`, before its connection is open. Its owner opens
    /// the connection and reports how that went.
    pub fn new(plan: SessionPlan) -> (r: ClientSession)
        ensures
            r@ == fresh_session(plan),
            r.wf(),
    {
        ClientSession {
            data: SessionData {
                plan,
                phase: SessionPhase::Connecting,
                cursor: 0,
                released: false,
                tally: Tally { sent: 0, answered: 0, undecodable: 0, not_text: 0, missing: 0 },
                fault: None,
            },
        }
    }

    /// All that the session knows.
    pub fn data(&self) -> (r: SessionData)
        ensures
            r == self@,
    {
        self.data
    }

    /// Where the session stands.
    pub fn phase(&self) -> (r: SessionPhase)
        ensures
            r == self@.phase,
    {
        self.data.phase
    }

    /// Whether the session is over, in either way.
    pub fn is_over(&self) -> (r: bool)
        ensures
            r == (self@.phase == SessionPhase::Finished || self@.phase == SessionPhase::Failed),
    {
        match self.data.phase {
            SessionPhase::Finished => true,
            SessionPhase::Failed => true,
            _ => false,
        }
    }

    /// What the session has to show for itself so far.
    pub fn report(&self) -> (r: SessionReport)
        ensures
            r == report_of(self@),
            self.wf() ==> report_wf(r),
    {
        let finished = match self.data.phase {
            SessionPhase::Finished => true,
            _ => false,
        };
        SessionReport {
            requests: self.data.plan.requests,
            tally: self.data.tally,
            finished,
            fault: self.data.fault,
        }
    }

    /// Takes one event and gives what it led to, as [`session_step`] rules.
    pub fn on_event(&mut self, event: SessionEvent) -> (step: SessionStep)
        requires
            old(self).wf(),
        ensures
            (final(self)@, step@) == session_step(old(self)@, event@),
            final(self).wf(),
    {
        let s = self.data;
        proof {
            step_keeps_session_wf(s, event@);
        }
        let over = match s.phase {
            SessionPhase::Finished => true,
            SessionPhase::Failed => true,
            _ => false,
        };
        if over {
            return SessionStep { action: SessionAction::Finish, reply: None };
        }
        if let SessionEvent::TransportFailed = event {
            let (next, action) = fail_now(s, ConnectionError::Transport);
            self.data = next;
            return SessionStep { action, reply: None };
        }
        let ignored = SessionStep { action: SessionAction::Continue, reply: None };
        match s.phase {
            SessionPhase::Connecting => match event {
                SessionEvent::Connected => {
                    if s.plan.rendezvous {
                        self.data = SessionData { phase: SessionPhase::AtBarrier, ..s };
                        SessionStep { action: SessionAction::AwaitRelease, reply: None }
                    } else {
                        let (next, action) = proceed_now(s);
                        self.data = next;
                        SessionStep { action, reply: None }
                    }
                },
                _ => ignored,
            },
            SessionPhase::AtBarrier => match event {
                SessionEvent::Released => {
                    let (next, action) = proceed_now(SessionData { released: true, ..s });
                    self.data = next;
                    SessionStep { action, reply: None }
                },
                _ => ignored,
            },
            SessionPhase::Sending => match event {
                SessionEvent::Sent => {
                    self.data = SessionData {
                        phase: SessionPhase::AwaitingReply,
                        tally: Tally { sent: s.tally.sent + 1, ..s.tally },
                        ..s
                    };
                    SessionStep { action: SessionAction::AwaitReply, reply: None }
                },
                SessionEvent::EncodeFailed => {
                    let (next, action) = fail_now(s, ConnectionError::Encode);
                    self.data = next;
                    SessionStep { action, reply: None }
                },
                _ => ignored,
            },
            SessionPhase::AwaitingReply => match settle_reply(s.tally, event) {
                Some((outcome, tally)) => {
                    let (next, action) = settle_now(s, tally);
                    self.data = next;
                    SessionStep { action, reply: Some(outcome) }
                },
                None => ignored,
            },
            SessionPhase::Pacing => match event {
                SessionEvent::PaceElapsed => {
                    let (next, action) = proceed_now(s);
                    self.data = next;
                    SessionStep { action, reply: None }
                },
                _ => ignored,
            },
            SessionPhase::Closing => match event {
                SessionEvent::WriteClosed => {
                    self.data = SessionData { phase: SessionPhase::Finished, ..s };
                    SessionStep { action: SessionAction::Finish, reply: None }
                },
                _ => ignored,
            },
            _ => ignored,
        }
    }
}

/// Whatever is reported to a session whose counts fit together, they fit
/// together afterwards.
pub proof fn step_keeps_session_wf(s: SessionData, event: SessionEventView)
    requires
        session_wf(s),
    ensures
        session_wf(session_step(s, event).0),
{
}

/// The session that `events`, reported one after the other, make of `s`.
pub open spec fn session_after(s: SessionData, events: Seq<SessionEventView>) -> SessionData
    decreases events.len(),
{
    if events.len() == 0 {
        s
    } else {
        session_step(session_after(s, events.drop_last()), events.last()).0
    }
}

/// Whatever is reported to a session from its start, and in whatever order,
/// its counts fit together at every moment. So at every moment at most one
/// request is written and not settled, none is written beyond the plan, and
/// a session with a rendezvous has written nothing unless it was released.
pub proof fn session_is_always_wf(plan: SessionPlan, events: Seq<SessionEventView>)
    ensures
        session_wf(session_after(fresh_session(plan), events)),
        session_after(fresh_session(plan), events).plan == plan,
    decreases events.len(),
{
    if events.len() > 0 {
        session_is_always_wf(plan, events.drop_last());
        step_keeps_session_wf(session_after(fresh_session(plan), events.drop_last()), events.last());
    }
}

/// One request is in flight at a time, and replies are taken in the order of
/// the requests.
///
/// A request is handed out only when every request before it is settled, and
/// it is the one whose index is the number of requests settled so far. A
/// reply is awaited only for the one request that is written and not
/// settled. An event settles a request only while that request's reply is
/// awaited, and it settles that one request; nothing settled is ever taken
/// back.
pub proof fn one_request_in_flight(s: SessionData, event: SessionEventView)
    requires
        session_wf(s),
    ensures
        ({
            let (next, step) = session_step(s, event);
            &&& step.action is Send ==> {
                &&& step.action == SessionActionView::Send(
                    planned_event(s.plan.labels, resolved(next.tally) as nat),
                )
                &&& next.tally.sent == resolved(next.tally)
                &&& next.phase == SessionPhase::Sending
            }
            &&& step.action is AwaitReply ==> {
                &&& s.phase == SessionPhase::Sending
                &&& next.tally.sent == resolved(next.tally) + 1
                &&& next.tally.sent == s.tally.sent + 1
            }
            &&& step.reply is Some ==> {
                &&& s.phase == SessionPhase::AwaitingReply
                &&& resolved(next.tally) == s.tally.sent
                &&& resolved(next.tally) == resolved(s.tally) + 1
            }
            &&& step.reply is None ==> resolved(next.tally) == resolved(s.tally)
            &&& s.tally.sent <= next.tally.sent <= s.tally.sent + 1
        }),
{
}

/// A session with a rendezvous sends nothing before it is released, and only
/// the release, reported while the session waits for it, releases it. A
/// session that fails before its release withdraws, so that it still arrives
/// at the rendezvous; after its release it never does.
pub proof fn no_send_before_release(s: SessionData, event: SessionEventView)
    requires
        session_wf(s),
        s.plan.rendezvous,
    ensures
        ({
            let (next, step) = session_step(s, event);
            &&& step.action is Send ==> next.released
            &&& next.tally.sent > 0 ==> next.released
            &&& next.released && !s.released ==> s.phase == SessionPhase::AtBarrier
                && event is Released
            &&& s.released ==> next.released
            &&& step.action is Withdraw <==> !s.released && next.phase == SessionPhase::Failed
                && s.phase != SessionPhase::Failed
        }),
{
}

/// A session finishes only with every request written and settled, and a
/// session that is over stays as it is.
pub proof fn finished_means_all_settled(s: SessionData, event: SessionEventView)
    requires
        session_wf(s),
    ensures
        ({
            let (next, step) = session_step(s, event);
            &&& next.phase == SessionPhase::Finished ==> next.tally.sent == s.plan.requests
                && resolved(next.tally) == s.plan.requests
            &&& s.phase == SessionPhase::Finished || s.phase == SessionPhase::Failed ==> next == s
                && step.action == SessionActionView::Finish
            &&& next.plan == s.plan
        }),
{
}

} // verus!
