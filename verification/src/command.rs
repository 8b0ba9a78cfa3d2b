//! The subcommands of the client and what each of them asks of the timer.

use vstd::prelude::*;
use crate::text::same_text;

verus! {

/// One request that the client can put to the timer service.
#[derive(Clone, Copy, Debug, PartialEq, Eq, Structural)]
pub enum Command {
    /// Start the pomodoro timer.
    Start,
    /// Pause the pomodoro timer.
    Pause,
    /// Stop the pomodoro timer.
    Stop,
    /// Skip the current timer.
    Skip,
    /// Retrieve the current iteration of the pomodoro.
    GetIteration,
    /// Get the remaining timer duration.
    GetRemaining,
    /// Get whether the timer is running.
    IsRunning,
    /// Get whether the current timer is a break.
    IsOnBreak,
}

/// The shape of the value that the service sends back for a command.
#[derive(Clone, Copy, Debug, PartialEq, Eq, Structural)]
pub enum ReplyShape {
    /// The reply carries nothing that the client reads.
    Nothing,
    /// An unsigned 8-bit iteration counter, counted from zero.
    Counter,
    /// A span of time.
    Span,
    /// A yes-or-no flag.
    Flag,
}

impl Command {
    /// Every command, in the order in which the help text lists them.
    pub open spec fn every() -> Seq<Command> {
        seq![
            Command::Start,
            Command::Pause,
            Command::Stop,
            Command::Skip,
            Command::GetIteration,
            Command::GetRemaining,
            Command::IsRunning,
            Command::IsOnBreak,
        ]
    }

    /// The word that selects this command on the command line.
    pub open spec fn spec_word(self) -> Seq<char> {
        match self {
            Command::Start => "start"@,
            Command::Pause => "pause"@,
            Command::Stop => "stop"@,
            Command::Skip => "skip"@,
            Command::GetIteration => "get-iteration"@,
            Command::GetRemaining => "get-remaining"@,
            Command::IsRunning => "is-running"@,
            Command::IsOnBreak => "is-on-break"@,
        }
    }

    /// The name of the remote method that carries out this command.
    pub open spec fn spec_member(self) -> Seq<char> {
        match self {
            Command::Start => "Start"@,
            Command::Pause => "Pause"@,
            Command::Stop => "Stop"@,
            Command::Skip => "Skip"@,
            Command::GetIteration => "GetIteration"@,
            Command::GetRemaining => "GetRemaining"@,
            Command::IsRunning => "IsRunning"@,
            Command::IsOnBreak => "IsOnBreak"@,
        }
    }

    /// The shape of the reply that belongs to this command.
    pub open spec fn shape(self) -> ReplyShape {
        match self {
            Command::Start | Command::Pause | Command::Stop | Command::Skip => ReplyShape::Nothing,
            Command::GetIteration => ReplyShape::Counter,
            Command::GetRemaining => ReplyShape::Span,
            Command::IsRunning | Command::IsOnBreak => ReplyShape::Flag,
        }
    }

    /// Whether `word` is the command-line word of `command`.
    pub open spec fn selects(command: Command, word: Seq<char>) -> bool {
        word == command.spec_word()
    }

    /// The command that `word` selects on the command line, if it selects
    /// one.
    pub open spec fn spec_parse(word: Seq<char>) -> Option<Command> {
        if exists|command: Command| Command::selects(command, word) {
            Some(choose|command: Command| Command::selects(command, word))
        } else {
            None
        }
    }

    /// Whether this command changes the timer and asks for nothing back.
    pub open spec fn is_action(self) -> bool {
        self.shape() == ReplyShape::Nothing
    }

    /// Returns every command, in the order in which the help text lists them.
    pub fn all() -> (list: Vec<Command>)
        ensures
            list@ == Command::every(),
    {
        let list = vec![
            Command::Start,
            Command::Pause,
            Command::Stop,
            Command::Skip,
            Command::GetIteration,
            Command::GetRemaining,
            Command::IsRunning,
            Command::IsOnBreak,
        ];
        assert(list@ =~= Command::every());
        list
    }

    /// Returns the word that selects this command on the command line.
    pub fn word(self) -> (word: &'static str)
        ensures
            word@ == self.spec_word(),
    {
        match self {
            Command::Start => "start",
            Command::Pause => "pause",
            Command::Stop => "stop",
            Command::Skip => "skip",
            Command::GetIteration => "get-iteration",
            Command::GetRemaining => "get-remaining",
            Command::IsRunning => "is-running",
            Command::IsOnBreak => "is-on-break",
        }
    }

    /// Returns the name of the remote method that carries out this command.
    pub fn member(self) -> (member: &'static str)
        ensures
            member@ == self.spec_member(),
    {
        match self {
            Command::Start => "Start",
            Command::Pause => "Pause",
            Command::Stop => "Stop",
            Command::Skip => "Skip",
            Command::GetIteration => "GetIteration",
            Command::GetRemaining => "GetRemaining",
            Command::IsRunning => "IsRunning",
            Command::IsOnBreak => "IsOnBreak",
        }
    }

    /// Returns the shape of the reply that belongs to this command.
    pub fn reply_shape(self) -> (shape: ReplyShape)
        ensures
            shape == self.shape(),
    {
        match self {
            Command::Start | Command::Pause | Command::Stop | Command::Skip => ReplyShape::Nothing,
            Command::GetIteration => ReplyShape::Counter,
            Command::GetRemaining => ReplyShape::Span,
            Command::IsRunning | Command::IsOnBreak => ReplyShape::Flag,
        }
    }

    /// Finds the command that `word` selects. The match is exact: case
    /// matters and nothing is trimmed.
    pub fn parse(word: &str) -> (found: Option<Command>)
        ensures
            found == Command::spec_parse(word@),
    {
        let list = Command::all();
        let mut at: usize = 0;
        while at < list.len()
            invariant
                at <= list.len(),
                list@ == Command::every(),
                forall|before: int|
                    0 <= before < at ==> word@ != (#[trigger] list@[before]).spec_word(),
            decreases list.len() - at,
        {
            let command = list[at];
            if same_text(word, command.word()) {
                proof {
                    Command::lemma_parse_is_exact(word@, command);
                }
                return Some(command);
            }
            at += 1;
        }
        proof {
            assert forall|command: Command| word@ != #[trigger] command.spec_word() by {
                Command::lemma_every_lists_each_once(command);
            }
        }
        None
    }

    /// `every` lists each command, and lists it once.
    pub proof fn lemma_every_lists_each_once(command: Command)
        ensures
            exists|at: int|
                0 <= at < Command::every().len() && #[trigger] Command::every()[at] == command,
            forall|one: int, other: int|
                0 <= one < other < Command::every().len() ==> Command::every()[one]
                    != Command::every()[other],
    {
        let at: int = match command {
            Command::Start => 0,
            Command::Pause => 1,
            Command::Stop => 2,
            Command::Skip => 3,
            Command::GetIteration => 4,
            Command::GetRemaining => 5,
            Command::IsRunning => 6,
            Command::IsOnBreak => 7,
        };
        assert(Command::every()[at] == command);
    }

    /// No two commands share a command-line word, and no two share a remote
    /// method.
    pub proof fn lemma_names_are_distinct(one: Command, other: Command)
        requires
            one != other,
        ensures
            one.spec_word() != other.spec_word(),
            one.spec_member() != other.spec_member(),
    {
        reveal_strlit("start");
        reveal_strlit("pause");
        reveal_strlit("stop");
        reveal_strlit("skip");
        reveal_strlit("get-iteration");
        reveal_strlit("get-remaining");
        reveal_strlit("is-running");
        reveal_strlit("is-on-break");
        reveal_strlit("Start");
        reveal_strlit("Pause");
        reveal_strlit("Stop");
        reveal_strlit("Skip");
        reveal_strlit("GetIteration");
        reveal_strlit("GetRemaining");
        reveal_strlit("IsRunning");
        reveal_strlit("IsOnBreak");
        let a = one.spec_word();
        let b = other.spec_word();
        if a.len() == b.len() {
            assert(a[1] != b[1] || a[4] != b[4]);
        }
        let c = one.spec_member();
        let d = other.spec_member();
        if c.len() == d.len() {
            assert(c[1] != d[1] || c[3] != d[3]);
        }
    }

    /// A word is parsed into a command exactly when it is the word of that
    /// command. So parsing the word of a command gives that command back.
    pub proof fn lemma_parse_is_exact(word: Seq<char>, command: Command)
        ensures
            Command::spec_parse(word) == Some(command) <==> word == command.spec_word(),
    {
        if Command::selects(command, word) {
            let chosen = choose|any: Command| Command::selects(any, word);
            if chosen != command {
                Command::lemma_names_are_distinct(chosen, command);
            }
        }
    }
}

} // verus!
