//! What the timer service answers, once decoded.

use vstd::prelude::*;
use crate::command::ReplyShape;
use crate::text::{clock, clock_text, flag, flag_text, ordinal, ordinal_text};

verus! {

/// The decoded answer to one call.
#[derive(Clone, Copy, Debug, PartialEq, Eq, Structural)]
pub enum Reply {
    /// The call was carried out; there is nothing to show.
    Nothing,
    /// The iteration counter of the timer, counted from zero.
    Counter(u8),
    /// The whole seconds that are left on the timer.
    Span(u64),
    /// A yes-or-no answer.
    Flag(bool),
}

impl Reply {
    /// The shape of this reply.
    pub open spec fn shape(self) -> ReplyShape {
        match self {
            Reply::Nothing => ReplyShape::Nothing,
            Reply::Counter(_) => ReplyShape::Counter,
            Reply::Span(_) => ReplyShape::Span,
            Reply::Flag(_) => ReplyShape::Flag,
        }
    }

    /// The line that is shown for this reply, if it has one: the counter
    /// counted from one, the span as a clock face, the flag as `1` or `0`.
    pub open spec fn line(self) -> Option<Seq<char>> {
        match self {
            Reply::Nothing => None,
            Reply::Counter(counter) => Some(ordinal(counter)),
            Reply::Span(seconds) => Some(clock(seconds as nat)),
            Reply::Flag(set) => Some(flag(set)),
        }
    }

    /// Returns the shape of this reply.
    pub fn kind(&self) -> (shape: ReplyShape)
        ensures
            shape == self.shape(),
    {
        match self {
            Reply::Nothing => ReplyShape::Nothing,
            Reply::Counter(_) => ReplyShape::Counter,
            Reply::Span(_) => ReplyShape::Span,
            Reply::Flag(_) => ReplyShape::Flag,
        }
    }

    /// Returns the line that is shown for this reply, if it has one.
    pub fn render(&self) -> (line: Option<String>)
        ensures
            line.deep_view() == self.line(),
    {
        match self {
            Reply::Nothing => None,
            Reply::Counter(counter) => Some(ordinal_text(*counter)),
            Reply::Span(seconds) => Some(clock_text(*seconds)),
            Reply::Flag(set) => Some(flag_text(*set)),
        }
    }

    /// A reply has a line to show exactly when it carries a value.
    pub proof fn lemma_line_iff_value(reply: Reply)
        ensures
            reply.line() is None <==> reply.shape() == ReplyShape::Nothing,
    {
    }
}

} // verus!
