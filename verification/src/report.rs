//! What one run of the client leaves behind: a line at most, and a status.

use vstd::prelude::*;
use crate::command::ReplyShape;
use crate::failure::{Failure, FailureView};
use crate::reply::Reply;

verus! {

/// The exit status of a run that succeeded.
pub const SUCCESS: i32 = 0;

/// The exit status of a run that failed, whatever the reason.
pub const FAILURE: i32 = 1;

/// What the process does before it ends.
#[derive(Debug, PartialEq, Eq)]
pub struct Report {
    /// The line for standard output, if there is one.
    pub output: Option<String>,
    /// The line for standard error, if there is one.
    pub diagnostic: Option<String>,
    /// The exit status of the process.
    pub status: i32,
}

/// A [`Report`] with its lines as plain sequences.
pub struct ReportView {
    pub output: Option<Seq<char>>,
    pub diagnostic: Option<Seq<char>>,
    pub status: i32,
}

impl View for Report {
    type V = ReportView;

    open spec fn view(&self) -> ReportView {
        ReportView {
            output: self.output.deep_view(),
            diagnostic: self.diagnostic.deep_view(),
            status: self.status,
        }
    }
}

impl ReportView {
    /// The report of a run whose call was answered with `reply`.
    pub open spec fn success(reply: Reply) -> ReportView {
        ReportView { output: reply.line(), diagnostic: None, status: SUCCESS }
    }

    /// The report of a run that failed with `failure`.
    pub open spec fn failure(failure: FailureView) -> ReportView {
        ReportView { output: None, diagnostic: Some(failure.message()), status: FAILURE }
    }
}

impl Report {
    /// Returns the report of a run whose call was answered with `reply`.
    pub fn success(reply: &Reply) -> (report: Report)
        ensures
            report@ == ReportView::success(*reply),
    {
        Report { output: reply.render(), diagnostic: None, status: SUCCESS }
    }

    /// Returns the report of a run that failed with `failure`.
    pub fn failure(failure: &Failure) -> (report: Report)
        ensures
            report@ == ReportView::failure(failure@),
    {
        Report { output: None, diagnostic: Some(failure.message()), status: FAILURE }
    }

    /// A report holds one line at most. A run that succeeded ends with
    /// status zero and no diagnostic, and shows a line exactly when its
    /// answer carries a value; a run that failed ends with another status,
    /// one diagnostic and nothing on standard output.
    pub proof fn lemma_one_line_at_most(reply: Reply, failure: FailureView)
        ensures
            ReportView::success(reply).status == 0,
            ReportView::success(reply).diagnostic is None,
            ReportView::success(reply).output is Some <==> reply.shape() != ReplyShape::Nothing,
            ReportView::failure(failure).status != 0,
            ReportView::failure(failure).diagnostic is Some,
            ReportView::failure(failure).output is None,
    {
    }

    /// A command that only changes the timer prints nothing when it
    /// succeeds, and ends with status zero.
    pub proof fn lemma_actions_are_silent(reply: Reply)
        requires
            reply.shape() == ReplyShape::Nothing,
        ensures
            ReportView::success(reply) == (ReportView {
                output: None,
                diagnostic: None,
                status: 0,
            }),
    {
    }
}

} // verus!
