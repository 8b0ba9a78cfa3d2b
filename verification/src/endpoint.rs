//! Where the timer service lives on the bus, and the shape of a call to it.

use vstd::prelude::*;
use crate::command::Command;

verus! {

/// The well-known bus name under which the timer service registers.
pub const SERVICE: &'static str = "dev.exvacuum.pomd";

/// The path of the object that the timer service exports.
pub const OBJECT_PATH: &'static str = "/dev/exvacuum/pomd";

/// The interface that holds the methods of the timer.
pub const INTERFACE: &'static str = "dev.exvacuum.pomd";

/// A remote method call. It has no field for arguments: every method of the
/// timer is called with an empty body.
#[derive(Clone, Copy, Debug, PartialEq, Eq)]
pub struct MethodCall {
    /// The bus name that the call is sent to.
    pub destination: &'static str,
    /// The path of the object that the method is called on.
    pub path: &'static str,
    /// The interface that the method belongs to.
    pub interface: &'static str,
    /// The name of the method.
    pub member: &'static str,
}

/// What a [`MethodCall`] says, as plain text.
pub struct MethodCallView {
    pub destination: Seq<char>,
    pub path: Seq<char>,
    pub interface: Seq<char>,
    pub member: Seq<char>,
}

impl View for MethodCall {
    type V = MethodCallView;

    open spec fn view(&self) -> MethodCallView {
        MethodCallView {
            destination: self.destination@,
            path: self.path@,
            interface: self.interface@,
            member: self.member@,
        }
    }
}

impl MethodCall {
    /// The call that carries out `command`: its own method, on the one
    /// object and interface of the timer service.
    pub open spec fn spec_of(command: Command) -> MethodCallView {
        MethodCallView {
            destination: SERVICE@,
            path: OBJECT_PATH@,
            interface: INTERFACE@,
            member: command.spec_member(),
        }
    }

    /// Returns the call that carries out `command`.
    pub fn of(command: Command) -> (call: MethodCall)
        ensures
            call@ == MethodCall::spec_of(command),
    {
        MethodCall {
            destination: SERVICE,
            path: OBJECT_PATH,
            interface: INTERFACE,
            member: command.member(),
        }
    }

    /// Two commands are never carried out by the same call.
    pub proof fn lemma_calls_are_distinct(one: Command, other: Command)
        requires
            one != other,
        ensures
            MethodCall::spec_of(one) != MethodCall::spec_of(other),
    {
        Command::lemma_names_are_distinct(one, other);
    }
}

} // verus!
