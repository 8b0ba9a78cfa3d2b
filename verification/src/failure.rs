//! The ways in which one run of the client can fail.

use vstd::prelude::*;
use vstd::string::StringExecFns;

verus! {

/// What is said when the bus cannot be reached, before the detail.
pub const NO_BUS: &'static str = "Failed to open dbus connection, is dbus running?: ";

/// What is said when the timer service is not on the bus.
pub const NO_SERVICE: &'static str = "Error: Failed to find pomd dbus interface, is pomd running?";

/// What is said when a call fails for any other reason, before the detail.
pub const CALL_FAILED: &'static str = "Error calling pomd command: ";

/// Why a run of the client failed.
#[derive(Debug, PartialEq, Eq)]
pub enum Failure {
    /// The session bus could not be reached; the text says why.
    NoBus(String),
    /// The bus does not know the timer service: it is not running.
    NoService,
    /// The call failed for another reason; the text is that of the error.
    Call(String),
}

/// A [`Failure`] with its texts as plain sequences.
pub enum FailureView {
    NoBus(Seq<char>),
    NoService,
    Call(Seq<char>),
}

impl View for Failure {
    type V = FailureView;

    open spec fn view(&self) -> FailureView {
        match self {
            Failure::NoBus(detail) => FailureView::NoBus(detail@),
            Failure::NoService => FailureView::NoService,
            Failure::Call(detail) => FailureView::Call(detail@),
        }
    }
}

impl FailureView {
    /// The one line that tells the user of this failure.
    pub open spec fn message(self) -> Seq<char> {
        match self {
            FailureView::NoBus(detail) => NO_BUS@ + detail,
            FailureView::NoService => NO_SERVICE@,
            FailureView::Call(detail) => CALL_FAILED@ + detail,
        }
    }

    /// Whether the failure came from a call, not from opening the bus.
    pub open spec fn from_call(self) -> bool {
        !(self is NoBus)
    }

    /// The failure of a call: the missing service if the error names it,
    /// the error's text otherwise.
    pub open spec fn of_call(service_missing: bool, detail: Seq<char>) -> FailureView {
        if service_missing {
            FailureView::NoService
        } else {
            FailureView::Call(detail)
        }
    }
}

impl Failure {
    /// Returns the failure of a call, given what its error says:
    /// whether it names the service as unknown, and its text.
    pub fn of_call(service_missing: bool, detail: String) -> (failure: Failure)
        ensures
            failure@ == FailureView::of_call(service_missing, detail@),
    {
        if service_missing {
            Failure::NoService
        } else {
            Failure::Call(detail)
        }
    }

    /// Returns the one line that tells the user of this failure.
    pub fn message(&self) -> (line: String)
        ensures
            line@ == self@.message(),
    {
        match self {
            Failure::NoBus(detail) => {
                let mut line = String::from_str(NO_BUS);
                line.append(detail.as_str());
                line
            },
            Failure::NoService => String::from_str(NO_SERVICE),
            Failure::Call(detail) => {
                let mut line = String::from_str(CALL_FAILED);
                line.append(detail.as_str());
                line
            },
        }
    }

    /// The message alone tells which kind of failure it reports, whatever
    /// the details say. In particular a missing service never reads like
    /// another failed call.
    pub proof fn lemma_message_tells_kind(one: FailureView, other: FailureView)
        requires
            one.message() == other.message(),
        ensures
            one is NoBus <==> other is NoBus,
            one is NoService <==> other is NoService,
            one is Call <==> other is Call,
    {
        reveal_strlit("Failed to open dbus connection, is dbus running?: ");
        reveal_strlit("Error: Failed to find pomd dbus interface, is pomd running?");
        reveal_strlit("Error calling pomd command: ");
        let a = one.message();
        let b = other.message();
        assert(a[0] == b[0] && a[5] == b[5]);
    }
}

} // verus!
