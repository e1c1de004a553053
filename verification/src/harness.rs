//! The load harness: many sessions at once, and what they add up to.
//!
//! Every session runs on its own and owns its own connection; the harness
//! hands each the same plan and sums the reports that come back. A session
//! that failed is one report among the others and changes none of them.

use vstd::prelude::*;
use crate::session::{report_wf, SessionPlan, SessionReport};

verus! {

/// How much load to generate.
#[derive(Debug, Clone, Copy, PartialEq, Eq, Structural)]
pub struct LoadPlan {
    /// How many sessions run at once; also the number of parties at the
    /// rendezvous.
    pub clients: usize,
    /// How many requests each session sends.
    pub requests_per_client: usize,
}

/// A number that a summary counts.
#[derive(Debug, Clone, Copy, PartialEq, Eq, Structural)]
pub enum Counter {
    /// Sessions that went through all of their plan.
    Finished,
    /// Sessions that an error ended.
    Failed,
    /// Requests written.
    Sent,
    /// Replies that decoded.
    Answered,
    /// Text replies that did not decode.
    Undecodable,
    /// Replies that were no text frame.
    NotText,
    /// Requests whose reply never came.
    Missing,
}

/// The sum of the reports of a run.
#[derive(Debug, Clone, Copy, PartialEq, Eq, Structural)]
pub struct LoadSummary {
    pub sessions: usize,
    pub finished: usize,
    pub failed: usize,
    pub sent: u128,
    pub answered: u128,
    pub undecodable: u128,
    pub not_text: u128,
    pub missing: u128,
}

/// What one report adds to a counter.
pub open spec fn counted(report: SessionReport, counter: Counter) -> nat {
    match counter {
        Counter::Finished => if report.finished {
            1
        } else {
            0
        },
        Counter::Failed => if report.fault is Some {
            1
        } else {
            0
        },
        Counter::Sent => report.tally.sent as nat,
        Counter::Answered => report.tally.answered as nat,
        Counter::Undecodable => report.tally.undecodable as nat,
        Counter::NotText => report.tally.not_text as nat,
        Counter::Missing => report.tally.missing as nat,
    }
}

/// What all reports together add to a counter.
pub open spec fn total(reports: Seq<SessionReport>, counter: Counter) -> nat
    decreases reports.len(),
{
    if reports.len() == 0 {
        0
    } else {
        total(reports.drop_last(), counter) + counted(reports.last(), counter)
    }
}

/// The summary of `reports`: their number, and each counter's total.
pub open spec fn summary_of(reports: Seq<SessionReport>, summary: LoadSummary) -> bool {
    &&& summary.sessions == reports.len()
    &&& summary.finished == total(reports, Counter::Finished)
    &&& summary.failed == total(reports, Counter::Failed)
    &&& summary.sent == total(reports, Counter::Sent)
    &&& summary.answered == total(reports, Counter::Answered)
    &&& summary.undecodable == total(reports, Counter::Undecodable)
    &&& summary.not_text == total(reports, Counter::NotText)
    &&& summary.missing == total(reports, Counter::Missing)
}

/// The report of a session that went through `requests` requests.
pub open spec fn is_complete(report: SessionReport, requests: usize) -> bool {
    &&& report.finished
    &&& report.requests == requests
    &&& report_wf(report)
}

impl LoadPlan {
    /// The plan of the standard run: a thousand sessions of a thousand
    /// requests.
    pub fn standard() -> (r: LoadPlan)
        ensures
            r == (LoadPlan { clients: 1000, requests_per_client: 1000 }),
    {
        LoadPlan { clients: 1000, requests_per_client: 1000 }
    }

    /// The plan that every session of the run gets.
    pub fn session_plan(&self) -> (r: SessionPlan)
        ensures
            r == (SessionPlan {
                requests: self.requests_per_client,
                pace_millis: None,
                rendezvous: true,
                close_when_done: true,
                labels: crate::session::Labels::Probe,
            }),
    {
        SessionPlan::load(self.requests_per_client)
    }

    /// The number of requests of the whole run, or `None` where it is more
    /// than the machine can count.
    pub fn total_requests(&self) -> (r: Option<usize>)
        ensures
            match r {
                Some(n) => n == self.clients * self.requests_per_client,
                None => self.clients * self.requests_per_client > usize::MAX,
            },
    {
        self.clients.checked_mul(self.requests_per_client)
    }
}

proof fn total_is_bounded(reports: Seq<SessionReport>, counter: Counter)
    ensures
        total(reports, counter) <= reports.len() * usize::MAX,
    decreases reports.len(),
{
    if reports.len() > 0 {
        total_is_bounded(reports.drop_last(), counter);
        assert(counted(reports.last(), counter) <= usize::MAX);
        assert((reports.len() - 1) * usize::MAX + usize::MAX == reports.len() * usize::MAX)
            by (nonlinear_arith);
    }
}

proof fn total_fits(reports: Seq<SessionReport>, counter: Counter)
    requires
        reports.len() <= usize::MAX,
    ensures
        total(reports, counter) <= u128::MAX,
        counter == Counter::Finished || counter == Counter::Failed ==> total(reports, counter)
            <= reports.len(),
    decreases reports.len(),
{
    total_is_bounded(reports, counter);
    assert(reports.len() * usize::MAX <= u128::MAX) by (nonlinear_arith)
        requires
            reports.len() <= usize::MAX,
            usize::MAX <= 0xffff_ffff_ffff_ffff,
            u128::MAX == 0xffff_ffff_ffff_ffff_ffff_ffff_ffff_ffff,
    ;
    if reports.len() > 0 {
        total_fits(reports.drop_last(), counter);
    }
}

/// Sums the reports of a run.
pub fn summarize(reports: &Vec<SessionReport>) -> (summary: LoadSummary)
    ensures
        summary_of(reports@, summary),
{
    let mut summary = LoadSummary {
        sessions: 0,
        finished: 0,
        failed: 0,
        sent: 0,
        answered: 0,
        undecodable: 0,
        not_text: 0,
        missing: 0,
    };
    let mut i: usize = 0;
    while i < reports.len()
        invariant
            i <= reports.len(),
            summary_of(reports@.take(i as int), summary),
        decreases reports.len() - i,
    {
        let report = reports[i];
        proof {
            let upto = reports@.take(i + 1);
            assert(upto.drop_last() =~= reports@.take(i as int));
            assert(upto.last() == report);
            total_fits(upto, Counter::Finished);
            total_fits(upto, Counter::Failed);
            total_fits(upto, Counter::Sent);
            total_fits(upto, Counter::Answered);
            total_fits(upto, Counter::Undecodable);
            total_fits(upto, Counter::NotText);
            total_fits(upto, Counter::Missing);
        }
        summary =
        LoadSummary {
            sessions: i + 1,
            finished: if report.finished {
                summary.finished + 1
            } else {
                summary.finished
            },
            failed: if report.fault.is_some() {
                summary.failed + 1
            } else {
                summary.failed
            },
            sent: summary.sent + report.tally.sent as u128,
            answered: summary.answered + report.tally.answered as u128,
            undecodable: summary.undecodable + report.tally.undecodable as u128,
            not_text: summary.not_text + report.tally.not_text as u128,
            missing: summary.missing + report.tally.missing as u128,
        };
        i += 1;
    }
    assert(reports@.take(i as int) =~= reports@);
    summary
}

/// No request is dropped from the count: in any run, every settled request
/// is counted under exactly one of the four ways to settle one, no more are
/// settled than written, and no more written than asked for.
pub proof fn every_request_is_counted(reports: Seq<SessionReport>)
    requires
        forall|i: int| 0 <= i < reports.len() ==> report_wf(#[trigger] reports[i]),
    ensures
        total(reports, Counter::Answered) + total(reports, Counter::Undecodable) + total(
            reports,
            Counter::NotText,
        ) + total(reports, Counter::Missing) <= total(reports, Counter::Sent),
        total(reports, Counter::Finished) + total(reports, Counter::Failed) <= reports.len(),
    decreases reports.len(),
{
    if reports.len() > 0 {
        every_request_is_counted(reports.drop_last());
    }
}

/// Where every session of a run finished its `requests` requests, the run
/// wrote and settled that many requests for each session.
pub proof fn full_run_settles_every_request(reports: Seq<SessionReport>, requests: usize)
    requires
        forall|i: int| 0 <= i < reports.len() ==> is_complete(#[trigger] reports[i], requests),
    ensures
        total(reports, Counter::Finished) == reports.len(),
        total(reports, Counter::Failed) == 0,
        total(reports, Counter::Sent) == reports.len() * requests,
        total(reports, Counter::Answered) + total(reports, Counter::Undecodable) + total(
            reports,
            Counter::NotText,
        ) + total(reports, Counter::Missing) == reports.len() * requests,
    decreases reports.len(),
{
    if reports.len() > 0 {
        full_run_settles_every_request(reports.drop_last(), requests);
        assert((reports.len() - 1) * requests + requests == reports.len() * requests)
            by (nonlinear_arith);
    }
}

/// One session's failure takes nothing from the others: where one session of
/// a run failed before it wrote anything and each other one finished its
/// `requests` requests, the run counts one failure, every other session as
/// finished, and all the requests of those others as written and settled.
pub proof fn failure_is_isolated(reports: Seq<SessionReport>, requests: usize, failed: int)
    requires
        0 <= failed < reports.len(),
        reports[failed].fault is Some,
        !reports[failed].finished,
        reports[failed].tally.sent == 0,
        report_wf(reports[failed]),
        forall|i: int|
            0 <= i < reports.len() && i != failed ==> is_complete(#[trigger] reports[i], requests),
    ensures
        total(reports, Counter::Failed) == 1,
        total(reports, Counter::Finished) == reports.len() - 1,
        total(reports, Counter::Sent) == (reports.len() - 1) * requests,
        total(reports, Counter::Answered) + total(reports, Counter::Undecodable) + total(
            reports,
            Counter::NotText,
        ) + total(reports, Counter::Missing) == (reports.len() - 1) * requests,
    decreases reports.len(),
{
    let rest = reports.drop_last();
    if failed == reports.len() - 1 {
        full_run_settles_every_request(rest, requests);
    } else {
        failure_is_isolated(rest, requests, failed);
        assert((reports.len() - 2) * requests + requests == (reports.len() - 1) * requests)
            by (nonlinear_arith);
    }
}

} // verus!
