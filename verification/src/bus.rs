//! The boundary to the D-Bus binding: what a message or an error of the
//! binding means to a run of the client.
//!
//! Messages and errors of the binding are opaque here. The functions of the
//! binding that read them are called through the private wrappers below,
//! whose bodies are not verified. Of what they return nothing is assumed but
//! this: what is decoded from a message depends on the message alone, and
//! how an error is classified depends on the error alone. Everything that is
//! done with their results is verified for every value they can take.

use vstd::prelude::*;
use crate::command::{Command, ReplyShape};
use crate::endpoint::MethodCall;
use crate::failure::{Failure, FailureView};
use crate::reply::Reply;
use crate::report::ReportView;
use crate::session::{ActionView, Event, EventView, Session, Stage};
use crate::text::clock;

verus! {

/// `zbus::message::Message`, a message that went over the bus. Nothing inside
/// it is visible to the verifier. A message is taken to be one that the
/// binding built or received: only its unsafe constructor skips the checks
/// that make the body safe to take.
#[verifier::external_type_specification]
#[verifier::external_body]
pub struct ExMessage(zbus::message::Message);

/// `zbus::Error`, the error type of the binding. Nothing inside it is
/// visible to the verifier.
#[verifier::external_type_specification]
#[verifier::external_body]
pub struct ExBusError(zbus::Error);

/// `zbus::fdo::Error`, the errors that D-Bus itself gives a name to, with
/// one variant for every other error of the binding. Nothing inside it is
/// visible to the verifier.
#[verifier::external_type_specification]
#[verifier::external_body]
pub struct ExStandardError(zbus::fdo::Error);

/// What `zbus::message::Body::deserialize` makes of the body of a message
/// when it is asked for a `u8`: the byte, or the error of the binding if the
/// body is not one byte.
pub uninterp spec fn counter_in(message: zbus::message::Message) -> Result<u8, zbus::Error>;

/// What `zbus::message::Body::deserialize` makes of the body of a message
/// when it is asked for a `std::time::Duration`: the whole seconds of the
/// span and the nanoseconds beyond them, or the error of the binding if the
/// body is no span.
pub uninterp spec fn span_in(message: zbus::message::Message) -> Result<(u64, u32), zbus::Error>;

/// What `zbus::message::Body::deserialize` makes of the body of a message
/// when it is asked for a `bool`: the flag, or the error of the binding if
/// the body is not one boolean.
pub uninterp spec fn flag_in(message: zbus::message::Message) -> Result<bool, zbus::Error>;

/// Calls `zbus::message::Message::body` and then
/// `zbus::message::Body::deserialize` for a `u8`. Claims that the call
/// returns and that what it returns depends on the message alone, under the
/// name `counter_in`. A body of another signature or of too few bytes comes
/// back as an error.
#[verifier::external_body]
fn body_counter(message: &zbus::message::Message) -> (decoded: Result<u8, zbus::Error>)
    ensures
        decoded == counter_in(*message),
{
    message.body().deserialize::<u8>()
}

/// Calls `zbus::message::Message::body` and then
/// `zbus::message::Body::deserialize` for a `std::time::Duration`, and hands
/// the span out as its two parts: the whole seconds (`Duration::as_secs`)
/// and the nanoseconds beyond them (`Duration::subsec_nanos`). Claims that
/// the call returns and that what it returns depends on the message alone,
/// under the name `span_in`. A body of another signature, of too few bytes,
/// or whose seconds overflow comes back as an error.
#[verifier::external_body]
fn body_span(message: &zbus::message::Message) -> (decoded: Result<(u64, u32), zbus::Error>)
    ensures
        decoded == span_in(*message),
{
    match message.body().deserialize::<std::time::Duration>() {
        Ok(span) => Ok((span.as_secs(), span.subsec_nanos())),
        Err(error) => Err(error),
    }
}

/// Calls `zbus::message::Message::body` and then
/// `zbus::message::Body::deserialize` for a `bool`. Claims that the call
/// returns and that what it returns depends on the message alone, under the
/// name `flag_in`. A body of another signature, of too few bytes, or whose
/// value is neither 0 nor 1 comes back as an error.
#[verifier::external_body]
fn body_flag(message: &zbus::message::Message) -> (decoded: Result<bool, zbus::Error>)
    ensures
        decoded == flag_in(*message),
{
    message.body().deserialize::<bool>()
}

/// The standard error that `<zbus::fdo::Error as From<zbus::Error>>::from`
/// makes of an error of the binding.
pub uninterp spec fn standard_form(error: zbus::Error) -> zbus::fdo::Error;

/// Whether a standard error is the variant `ServiceUnknown` of
/// `zbus::fdo::Error`: the bus knows no service of the name that was called.
pub uninterp spec fn is_unknown_service(error: zbus::fdo::Error) -> bool;

/// The text that `<zbus::fdo::Error as Display>::fmt` writes for a standard
/// error: its D-Bus name, a colon and its description.
pub uninterp spec fn standard_text(error: zbus::fdo::Error) -> Seq<char>;

/// Calls `<zbus::fdo::Error as From<zbus::Error>>::from`, which turns an
/// error reply with a standard name into the variant of that name and keeps
/// any other error as it is. Claims that the call returns and that what it
/// returns depends on the error alone, under the name `standard_form`.
#[verifier::external_body]
fn standard_error(error: zbus::Error) -> (standard: zbus::fdo::Error)
    ensures
        standard == standard_form(error),
{
    zbus::fdo::Error::from(error)
}

/// Tells whether a `zbus::fdo::Error` is its variant `ServiceUnknown`, under
/// the name `is_unknown_service`. What is inside the error is not visible to
/// the verifier, so the variant cannot be told in verified code.
#[verifier::external_body]
fn names_unknown_service(error: &zbus::fdo::Error) -> (unknown: bool)
    ensures
        unknown == is_unknown_service(*error),
{
    match error {
        zbus::fdo::Error::ServiceUnknown(_) => true,
        _ => false,
    }
}

/// Calls `<zbus::fdo::Error as Display>::fmt` into a fresh string. Claims
/// that the text depends on the error alone, under the name `standard_text`;
/// the formatting writes names and descriptions that the error holds and
/// nothing of the machine it runs on.
#[verifier::external_body]
fn standard_error_text(error: &zbus::fdo::Error) -> (text: String)
    ensures
        text@ == standard_text(*error),
{
    format!("{}", error)
}

/// Calls `<zbus::Error as Debug>::fmt` into a fresh string. Nothing is
/// claimed of the text: for an error of the operating system it holds the
/// message of that system, which differs from one machine to another.
#[verifier::external_body]
fn bus_error_text(error: &zbus::Error) -> (text: String) {
    format!("{:?}", error)
}

/// The answer to `command` that `message` holds. The answer to a command
/// that only changes the timer is nothing, whatever the message holds. The
/// answer to a query is what the binding decodes from the body as the one
/// shape that belongs to the command: the counter, the whole seconds of the
/// span with what lies beyond them dropped, or the flag. Where the binding
/// cannot decode the body as that shape, its error is handed on.
pub open spec fn decoding(command: Command, message: zbus::message::Message) -> Result<
    Reply,
    zbus::Error,
> {
    match command.shape() {
        ReplyShape::Nothing => Ok(Reply::Nothing),
        ReplyShape::Counter => match counter_in(message) {
            Ok(counter) => Ok(Reply::Counter(counter)),
            Err(error) => Err(error),
        },
        ReplyShape::Span => match span_in(message) {
            Ok(span) => Ok(Reply::Span(span.0)),
            Err(error) => Err(error),
        },
        ReplyShape::Flag => match flag_in(message) {
            Ok(set) => Ok(Reply::Flag(set)),
            Err(error) => Err(error),
        },
    }
}

/// Decodes the answer to `command` from `message`, as the one shape that
/// belongs to the command. The answer to a command that only changes the
/// timer is not read at all. Of a span only the whole seconds are kept.
pub fn decode(command: Command, message: &zbus::message::Message) -> (decoded: Result<
    Reply,
    zbus::Error,
>)
    ensures
        decoded == decoding(command, *message),
        command.is_action() ==> decoded == Ok::<Reply, zbus::Error>(Reply::Nothing),
        decoded matches Ok(reply) ==> reply.shape() == command.shape(),
{
    match command.reply_shape() {
        ReplyShape::Nothing => Ok(Reply::Nothing),
        ReplyShape::Counter => match body_counter(message) {
            Ok(counter) => Ok(Reply::Counter(counter)),
            Err(error) => Err(error),
        },
        ReplyShape::Span => match body_span(message) {
            Ok((seconds, _)) => Ok(Reply::Span(seconds)),
            Err(error) => Err(error),
        },
        ReplyShape::Flag => match body_flag(message) {
            Ok(set) => Ok(Reply::Flag(set)),
            Err(error) => Err(error),
        },
    }
}

/// How a call failed, by the error that the binding returned for it: the
/// service is missing if the error, in its standard form, is the unknown
/// service; otherwise the call failed with the text of that standard form.
pub open spec fn classification(error: zbus::Error) -> FailureView {
    FailureView::of_call(
        is_unknown_service(standard_form(error)),
        standard_text(standard_form(error)),
    )
}

/// Says how a call failed, given the error that the binding returned for
/// the call or for decoding its answer: that the service is missing if the
/// error, taken as a standard error, names the service as unknown, and the
/// text of that standard error otherwise. Either way the failure is one of
/// the call, never one of opening the bus.
pub fn classify(error: zbus::Error) -> (failure: Failure)
    ensures
        failure@ == classification(error),
        failure@.from_call(),
{
    let standard = standard_error(error);
    let unknown = names_unknown_service(&standard);
    let detail = standard_error_text(&standard);
    Failure::of_call(unknown, detail)
}

/// Returns the event that a failure to open the bus amounts to, given the
/// error that the binding returned for it. A run that is opening the bus
/// waits for this event, whatever its command.
pub fn unopened(error: &zbus::Error) -> (event: Event)
    ensures
        event@ is Failed,
        event@->Failed_0 is NoBus,
        forall|command: Command| #[trigger] Session::start(command).awaits(event@),
{
    Event::Failed(Failure::NoBus(bus_error_text(error)))
}

/// The event that the outcome of the call for `command` amounts to. A call
/// that was answered returns the decoded answer; one whose answer cannot be
/// decoded as the shape of the command fails with the error of the decoding,
/// and shows no answer in its place; one that failed fails with its error.
pub open spec fn answer(
    command: Command,
    outcome: Result<zbus::message::Message, zbus::Error>,
) -> EventView {
    match outcome {
        Ok(message) => match decoding(command, message) {
            Ok(reply) => EventView::Returned(reply),
            Err(error) => EventView::Failed(classification(error)),
        },
        Err(error) => EventView::Failed(classification(error)),
    }
}

/// Returns the event that the outcome of the call for `command` amounts to.
/// A run of `command` whose call is out waits for this event.
pub fn answered(command: Command, outcome: Result<zbus::message::Message, zbus::Error>) -> (event:
    Event)
    ensures
        event@ == answer(command, outcome),
        (Session { command, stage: Stage::Calling }).awaits(event@),
{
    match outcome {
        Ok(message) => match decode(command, &message) {
            Ok(reply) => Event::Returned(reply),
            Err(error) => Event::Failed(classify(error)),
        },
        Err(error) => Event::Failed(classify(error)),
    }
}

/// Whatever the outcome of a call, a run whose call is out waits for the
/// event it amounts to: an answer has the shape of the command, and a
/// failure is one of the call.
pub proof fn lemma_answer_is_awaited(
    command: Command,
    outcome: Result<zbus::message::Message, zbus::Error>,
)
    ensures
        (Session { command, stage: Stage::Calling }).awaits(answer(command, outcome)),
        answer(command, outcome) matches EventView::Returned(reply) ==> reply.shape()
            == command.shape(),
{
}

/// The answer to a command that only changes the timer is never read: a
/// call that was answered returns nothing, whatever the message holds.
pub proof fn lemma_action_is_not_decoded(command: Command, message: zbus::message::Message)
    requires
        command.is_action(),
    ensures
        decoding(command, message) == Ok::<Reply, zbus::Error>(Reply::Nothing),
        answer(command, Ok(message)) == EventView::Returned(Reply::Nothing),
{
}

/// An answer that cannot be decoded as the shape of its command is a failed
/// call: the run ends with the diagnostic of the decoding error and a status
/// that is not zero, and prints no line, no default in place of the answer.
pub proof fn lemma_undecodable_answer_fails(
    command: Command,
    message: zbus::message::Message,
    error: zbus::Error,
)
    requires
        decoding(command, message) == Err::<Reply, zbus::Error>(error),
    ensures
        answer(command, Ok(message)) == EventView::Failed(classification(error)),
        Session::start(command).run(seq![EventView::Connected, answer(command, Ok(message))])
            == seq![
            ActionView::Call(MethodCall::spec_of(command)),
            ActionView::Exit(ReportView::failure(classification(error))),
        ],
        ReportView::failure(classification(error)).output is None,
        ReportView::failure(classification(error)).status != 0,
{
    Session::lemma_failed_run(command, classification(error));
}

/// Of a span only the whole seconds are shown: what lies beyond them is
/// dropped, not rounded, so two spans of the same whole seconds print the
/// same clock face.
pub proof fn lemma_span_keeps_whole_seconds(
    message: zbus::message::Message,
    seconds: u64,
    beyond: u32,
)
    requires
        span_in(message) == Ok::<(u64, u32), zbus::Error>((seconds, beyond)),
    ensures
        decoding(Command::GetRemaining, message) == Ok::<Reply, zbus::Error>(Reply::Span(seconds)),
        Reply::Span(seconds).line() == Some(clock(seconds as nat)),
{
}

} // verus!
