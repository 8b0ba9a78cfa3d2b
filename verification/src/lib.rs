//! The logic of `pomc`, a command-line client that drives the `pomd`
//! pomodoro timer over the D-Bus session bus.
//!
//! One run of the client carries out one [`command::Command`]: it opens the
//! bus, makes the one call that belongs to the command ([`endpoint`]), decodes
//! the answer ([`bus`], [`reply`]), prints a line for it ([`text`]) and ends
//! with a status ([`report`]). What can go wrong is listed in [`failure`], and
//! [`session`] says in which order all of this happens.
//!
//! Nothing here touches the bus or the terminal. The program around this
//! library does what a [`session::Action`] asks for and hands back what
//! happened as a [`session::Event`].

pub mod bus;
pub mod command;
pub mod endpoint;
pub mod failure;
pub mod reply;
pub mod report;
pub mod session;
pub mod text;
