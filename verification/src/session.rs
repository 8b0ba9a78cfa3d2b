//! One run of the client, as the steps it takes between the things that
//! happen to it: the bus opens or does not, the call is answered or fails.

use vstd::prelude::*;
use crate::command::Command;
use crate::endpoint::{MethodCall, MethodCallView};
use crate::failure::{Failure, FailureView};
use crate::reply::Reply;
use crate::report::{Report, ReportView};

verus! {

/// How far a run has come.
#[derive(Clone, Copy, Debug, PartialEq, Eq, Structural)]
pub enum Stage {
    /// The session bus is being opened.
    Connecting,
    /// The call is on its way and its answer is awaited.
    Calling,
    /// The report is out; nothing more happens.
    Done,
}

/// One run of the client: the command it was given and how far it has come.
#[derive(Clone, Copy, Debug, PartialEq, Eq, Structural)]
pub struct Session {
    /// The command that this run carries out.
    pub command: Command,
    /// How far this run has come.
    pub stage: Stage,
}

/// Something that happens to a run.
#[derive(Debug, PartialEq, Eq)]
pub enum Event {
    /// The session bus is open.
    Connected,
    /// The call was answered, and the answer decoded.
    Returned(Reply),
    /// Opening the bus, making the call or decoding its answer failed.
    Failed(Failure),
}

/// An [`Event`] with its texts as plain sequences.
pub enum EventView {
    Connected,
    Returned(Reply),
    Failed(FailureView),
}

impl View for Event {
    type V = EventView;

    open spec fn view(&self) -> EventView {
        match self {
            Event::Connected => EventView::Connected,
            Event::Returned(reply) => EventView::Returned(*reply),
            Event::Failed(failure) => EventView::Failed(failure@),
        }
    }
}

/// What the process has to do next.
#[derive(Debug, PartialEq, Eq)]
pub enum Action {
    /// Open the session bus.
    Connect,
    /// Make this call, with an empty body, and wait for its answer.
    Call(MethodCall),
    /// Print what the report holds and end with its status.
    Exit(Report),
}

/// An [`Action`] with its texts as plain sequences.
pub enum ActionView {
    Connect,
    Call(MethodCallView),
    Exit(ReportView),
}

impl View for Action {
    type V = ActionView;

    open spec fn view(&self) -> ActionView {
        match self {
            Action::Connect => ActionView::Connect,
            Action::Call(call) => ActionView::Call(call@),
            Action::Exit(report) => ActionView::Exit(report@),
        }
    }
}

impl Session {
    /// The run for `command` before anything has happened to it.
    pub open spec fn start(command: Command) -> Session {
        Session { command, stage: Stage::Connecting }
    }

    /// Whether `event` is one that this run is waiting for. While the bus
    /// is being opened that is its opening or the failure to open it; while
    /// the call is out it is an answer of the command's own shape or a
    /// failure of the call; afterwards it is nothing.
    pub open spec fn awaits(self, event: EventView) -> bool {
        match self.stage {
            Stage::Connecting => match event {
                EventView::Connected => true,
                EventView::Returned(_) => false,
                EventView::Failed(failure) => failure is NoBus,
            },
            Stage::Calling => match event {
                EventView::Connected => false,
                EventView::Returned(reply) => reply.shape() == self.command.shape(),
                EventView::Failed(failure) => failure.from_call(),
            },
            Stage::Done => false,
        }
    }

    /// Where `event` takes this run and what has to be done then, or `None`
    /// if the run is not waiting for it.
    pub open spec fn next(self, event: EventView) -> Option<(Session, ActionView)> {
        if !self.awaits(event) {
            None
        } else {
            match event {
                EventView::Connected => Some(
                    (
                        Session { command: self.command, stage: Stage::Calling },
                        ActionView::Call(MethodCall::spec_of(self.command)),
                    ),
                ),
                EventView::Returned(reply) => Some(
                    (
                        Session { command: self.command, stage: Stage::Done },
                        ActionView::Exit(ReportView::success(reply)),
                    ),
                ),
                EventView::Failed(failure) => Some(
                    (
                        Session { command: self.command, stage: Stage::Done },
                        ActionView::Exit(ReportView::failure(failure)),
                    ),
                ),
            }
        }
    }

    /// Everything this run does, in order, while `events` happen to it one
    /// after the other. An event that the run is not waiting for is passed
    /// over.
    pub open spec fn run(self, events: Seq<EventView>) -> Seq<ActionView>
        decreases events.len(),
    {
        if events.len() == 0 {
            Seq::empty()
        } else {
            match self.next(events.first()) {
                Some((after, action)) => seq![action] + after.run(events.drop_first()),
                None => self.run(events.drop_first()),
            }
        }
    }

    /// Whether `report` can end a run of `command` whose call went out: it
    /// shows an answer of the command's shape, or tells of a failed call.
    pub open spec fn concludes(command: Command, report: ReportView) -> bool {
        ||| exists|reply: Reply|
            reply.shape() == command.shape() && report == #[trigger] ReportView::success(reply)
        ||| exists|failure: FailureView|
            failure.from_call() && report == #[trigger] ReportView::failure(failure)
    }

    /// Whether `report` tells that the bus could not be reached.
    pub open spec fn gives_up(report: ReportView) -> bool {
        exists|detail: Seq<char>|
            report == #[trigger] ReportView::failure(FailureView::NoBus(detail))
    }

    /// Whether `actions` is one of the four courses a run of `command` can
    /// take after it set out to open the bus: nothing yet; the call; the
    /// report that the bus cannot be reached; the call and then its report.
    pub open spec fn well_shaped(command: Command, actions: Seq<ActionView>) -> bool {
        let call = ActionView::Call(MethodCall::spec_of(command));
        if actions.len() == 0 {
            true
        } else if actions.len() == 1 {
            actions[0] == call || (actions[0] matches ActionView::Exit(report)
                && Session::gives_up(report))
        } else if actions.len() == 2 {
            actions[0] == call && (actions[1] matches ActionView::Exit(report)
                && Session::concludes(command, report))
        } else {
            false
        }
    }

    /// Begins the run for `command`. The first thing to do is to open the
    /// session bus.
    pub fn begin(command: Command) -> (start: (Session, Action))
        ensures
            start.0 == Session::start(command),
            start.1@ == ActionView::Connect,
    {
        (Session { command, stage: Stage::Connecting }, Action::Connect)
    }

    /// Tells whether the run is over.
    pub fn is_done(&self) -> (done: bool)
        ensures
            done == (self.stage == Stage::Done),
    {
        match self.stage {
            Stage::Done => true,
            _ => false,
        }
    }

    /// Takes the run one step on: returns what has to be done now that
    /// `event` has happened, or `None`, leaving the run as it was, if the
    /// run was not waiting for that event.
    pub fn advance(&mut self, event: Event) -> (action: Option<Action>)
        ensures
            match old(self).next(event@) {
                Some((after, step)) => {
                    &&& *final(self) == after
                    &&& action matches Some(taken)
                    &&& taken@ == step
                },
                None => *final(self) == *old(self) && action is None,
            },
    {
        match self.stage {
            Stage::Connecting => match event {
                Event::Connected => {
                    self.stage = Stage::Calling;
                    Some(Action::Call(MethodCall::of(self.command)))
                },
                Event::Failed(Failure::NoBus(detail)) => {
                    self.stage = Stage::Done;
                    Some(Action::Exit(Report::failure(&Failure::NoBus(detail))))
                },
                _ => None,
            },
            Stage::Calling => match event {
                Event::Returned(reply) => {
                    if reply.kind() == self.command.reply_shape() {
                        self.stage = Stage::Done;
                        Some(Action::Exit(Report::success(&reply)))
                    } else {
                        None
                    }
                },
                Event::Failed(Failure::NoBus(_)) => None,
                Event::Failed(failure) => {
                    self.stage = Stage::Done;
                    Some(Action::Exit(Report::failure(&failure)))
                },
                Event::Connected => None,
            },
            Stage::Done => None,
        }
    }

    /// A run that is over does nothing more, whatever happens.
    pub proof fn lemma_done_is_final(session: Session, events: Seq<EventView>)
        requires
            session.stage == Stage::Done,
        ensures
            session.run(events) == Seq::<ActionView>::empty(),
        decreases events.len(),
    {
        if events.len() > 0 {
            Session::lemma_done_is_final(session, events.drop_first());
        }
    }

    /// Once the call is out, the run does one thing at most: it ends with a
    /// report that fits the command. It never calls again.
    pub proof fn lemma_call_is_not_repeated(session: Session, events: Seq<EventView>)
        requires
            session.stage == Stage::Calling,
        ensures
            session.run(events).len() <= 1,
            session.run(events).len() == 1 ==> (session.run(events)[0] matches ActionView::Exit(
                report,
            ) && Session::concludes(session.command, report)),
        decreases events.len(),
    {
        if events.len() > 0 {
            match session.next(events.first()) {
                Some((after, action)) => {
                    Session::lemma_done_is_final(after, events.drop_first());
                    assert(session.run(events) =~= seq![action]);
                    match events.first() {
                        EventView::Returned(reply) => {
                            assert(Session::concludes(session.command, ReportView::success(reply)));
                        },
                        EventView::Failed(failure) => {
                            assert(Session::concludes(
                                session.command,
                                ReportView::failure(failure),
                            ));
                        },
                        EventView::Connected => {},
                    }
                },
                None => {
                    Session::lemma_call_is_not_repeated(session, events.drop_first());
                },
            }
        }
    }

    /// Whatever happens to a run, and in whatever order, it takes one of
    /// four courses: it does nothing yet; it makes the one call that belongs
    /// to its command; it reports that the bus cannot be reached, without
    /// having called; or it makes that call once and then reports on it.
    pub proof fn lemma_run_is_well_shaped(command: Command, events: Seq<EventView>)
        ensures
            Session::well_shaped(command, Session::start(command).run(events)),
        decreases events.len(),
    {
        let session = Session::start(command);
        if events.len() > 0 {
            let rest = events.drop_first();
            match session.next(events.first()) {
                Some((after, action)) => {
                    assert(session.run(events) =~= seq![action] + after.run(rest));
                    match events.first() {
                        EventView::Connected => {
                            Session::lemma_call_is_not_repeated(after, rest);
                        },
                        EventView::Failed(failure) => {
                            Session::lemma_done_is_final(after, rest);
                            assert(failure == FailureView::NoBus(failure->NoBus_0));
                            assert(Session::gives_up(ReportView::failure(failure)));
                        },
                        EventView::Returned(_) => {},
                    }
                },
                None => {
                    Session::lemma_run_is_well_shaped(command, rest);
                },
            }
        }
    }

    /// A run calls once at most: a call is the first thing it does after
    /// opening the bus, and it is the call that belongs to its command, with
    /// the method of the command on the one object, interface and service.
    pub proof fn lemma_at_most_one_call(command: Command, events: Seq<EventView>, at: int)
        requires
            0 <= at < Session::start(command).run(events).len(),
            Session::start(command).run(events)[at] is Call,
        ensures
            at == 0,
            Session::start(command).run(events)[at] == ActionView::Call(
                MethodCall::spec_of(command),
            ),
    {
        Session::lemma_run_is_well_shaped(command, events);
    }

    /// A report is the last thing a run does. One that comes without a call
    /// before it tells that the bus could not be reached, and its status is
    /// not zero; any other comes right after the call and fits the command.
    pub proof fn lemma_report_ends_run(command: Command, events: Seq<EventView>, at: int)
        requires
            0 <= at < Session::start(command).run(events).len(),
            Session::start(command).run(events)[at] is Exit,
        ensures
            ({
                let actions = Session::start(command).run(events);
                let report = actions[at]->Exit_0;
                &&& at + 1 == actions.len()
                &&& at == 0 ==> Session::gives_up(report) && report.status != 0
                &&& at != 0 ==> {
                    &&& at == 1
                    &&& actions[0] == ActionView::Call(MethodCall::spec_of(command))
                    &&& Session::concludes(command, report)
                }
            }),
    {
        Session::lemma_run_is_well_shaped(command, events);
    }

    /// The run of a command whose call is answered: the one call that belongs
    /// to the command, then the report of the answer.
    pub proof fn lemma_answered_run(command: Command, reply: Reply)
        requires
            reply.shape() == command.shape(),
        ensures
            Session::start(command).run(seq![EventView::Connected, EventView::Returned(reply)])
                == seq![
                ActionView::Call(MethodCall::spec_of(command)),
                ActionView::Exit(ReportView::success(reply)),
            ],
    {
        let events = seq![EventView::Connected, EventView::Returned(reply)];
        let calling = Session { command, stage: Stage::Calling };
        let done = Session { command, stage: Stage::Done };
        assert(events.drop_first() =~= seq![EventView::Returned(reply)]);
        assert(events.drop_first().drop_first() =~= Seq::<EventView>::empty());
        assert(done.run(Seq::<EventView>::empty()) =~= Seq::<ActionView>::empty());
        assert(calling.run(events.drop_first()) =~= seq![
            ActionView::Exit(ReportView::success(reply)),
        ]);
    }

    /// The run of a command whose call fails: the one call that belongs to
    /// the command, then the report of the failure.
    pub proof fn lemma_failed_run(command: Command, failure: FailureView)
        requires
            failure.from_call(),
        ensures
            Session::start(command).run(seq![EventView::Connected, EventView::Failed(failure)])
                == seq![
                ActionView::Call(MethodCall::spec_of(command)),
                ActionView::Exit(ReportView::failure(failure)),
            ],
    {
        let events = seq![EventView::Connected, EventView::Failed(failure)];
        let calling = Session { command, stage: Stage::Calling };
        let done = Session { command, stage: Stage::Done };
        assert(events.drop_first() =~= seq![EventView::Failed(failure)]);
        assert(events.drop_first().drop_first() =~= Seq::<EventView>::empty());
        assert(done.run(Seq::<EventView>::empty()) =~= Seq::<ActionView>::empty());
        assert(calling.run(events.drop_first()) =~= seq![
            ActionView::Exit(ReportView::failure(failure)),
        ]);
    }

    /// The run of a command that finds no bus: the report of that failure
    /// and nothing else, whatever happens afterwards. No call is made.
    pub proof fn lemma_unreachable_run(command: Command, detail: Seq<char>, later: Seq<EventView>)
        ensures
            Session::start(command).run(
                seq![EventView::Failed(FailureView::NoBus(detail))] + later,
            ) == seq![ActionView::Exit(ReportView::failure(FailureView::NoBus(detail)))],
    {
        let events = seq![EventView::Failed(FailureView::NoBus(detail))] + later;
        let done = Session { command, stage: Stage::Done };
        assert(events.drop_first() =~= later);
        Session::lemma_done_is_final(done, later);
    }
}

} // verus!
