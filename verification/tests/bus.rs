use std::time::Duration;

use pomc::bus::{answered, classify, decode, unopened};
use pomc::command::Command;
use pomc::endpoint::MethodCall;
use pomc::failure::Failure;
use pomc::reply::Reply;
use pomc::session::{Action, Event, Session};
use zbus::message::Message;

fn call() -> Message {
    Message::method_call("/dev/exvacuum/pomd", "GetIteration")
        .destination("dev.exvacuum.pomd")
        .interface("dev.exvacuum.pomd")
        .build(&())
        .unwrap()
}

fn empty_reply() -> Message {
    Message::method_return(&call().header()).build(&()).unwrap()
}

fn counter_reply(counter: u8) -> Message {
    Message::method_return(&call().header()).build(&counter).unwrap()
}

fn span_reply(span: Duration) -> Message {
    Message::method_return(&call().header()).build(&span).unwrap()
}

fn flag_reply(set: bool) -> Message {
    Message::method_return(&call().header()).build(&set).unwrap()
}

fn text_reply(text: &str) -> Message {
    Message::method_return(&call().header()).build(&text).unwrap()
}

fn error_reply(name: &str, detail: &str) -> zbus::Error {
    Message::error(&call().header(), name).build(&detail).unwrap().into()
}

#[test]
fn decode_reads_a_counter() {
    assert_eq!(decode(Command::GetIteration, &counter_reply(0)), Ok(Reply::Counter(0)));
    assert_eq!(decode(Command::GetIteration, &counter_reply(7)), Ok(Reply::Counter(7)));
    assert_eq!(decode(Command::GetIteration, &counter_reply(255)), Ok(Reply::Counter(255)));
}

#[test]
fn decode_reads_the_whole_seconds_of_a_span() {
    assert_eq!(
        decode(Command::GetRemaining, &span_reply(Duration::from_secs(125))),
        Ok(Reply::Span(125))
    );
    assert_eq!(
        decode(Command::GetRemaining, &span_reply(Duration::new(1499, 999_999_999))),
        Ok(Reply::Span(1499))
    );
    assert_eq!(decode(Command::GetRemaining, &span_reply(Duration::ZERO)), Ok(Reply::Span(0)));
}

#[test]
fn decode_reads_a_flag() {
    assert_eq!(decode(Command::IsRunning, &flag_reply(true)), Ok(Reply::Flag(true)));
    assert_eq!(decode(Command::IsRunning, &flag_reply(false)), Ok(Reply::Flag(false)));
    assert_eq!(decode(Command::IsOnBreak, &flag_reply(true)), Ok(Reply::Flag(true)));
    assert_eq!(decode(Command::IsOnBreak, &flag_reply(false)), Ok(Reply::Flag(false)));
}

#[test]
fn decode_does_not_read_the_answer_to_an_action() {
    for command in [Command::Start, Command::Pause, Command::Stop, Command::Skip] {
        assert_eq!(decode(command, &empty_reply()), Ok(Reply::Nothing));
        assert_eq!(decode(command, &counter_reply(3)), Ok(Reply::Nothing));
        assert_eq!(decode(command, &text_reply("anything")), Ok(Reply::Nothing));
    }
}

#[test]
fn decode_refuses_another_shape() {
    assert!(decode(Command::GetIteration, &empty_reply()).is_err());
    assert!(decode(Command::GetIteration, &flag_reply(true)).is_err());
    assert!(decode(Command::GetIteration, &text_reply("3")).is_err());
    assert!(decode(Command::GetRemaining, &counter_reply(3)).is_err());
    assert!(decode(Command::GetRemaining, &empty_reply()).is_err());
    assert!(decode(Command::IsRunning, &counter_reply(1)).is_err());
    assert!(decode(Command::IsOnBreak, &span_reply(Duration::from_secs(1))).is_err());
}

#[test]
fn classify_knows_the_missing_service() {
    let error = error_reply("org.freedesktop.DBus.Error.ServiceUnknown", "no such name");
    assert_eq!(classify(error), Failure::NoService);

    let standard = zbus::fdo::Error::ServiceUnknown(String::from("no such name"));
    assert_eq!(classify(zbus::Error::from(standard)), Failure::NoService);
}

#[test]
fn classify_keeps_the_text_of_any_other_error() {
    let error = error_reply("org.freedesktop.DBus.Error.UnknownMethod", "no such method");
    assert_eq!(
        classify(error),
        Failure::Call(String::from("org.freedesktop.DBus.Error.UnknownMethod: no such method"))
    );

    let error = error_reply("org.freedesktop.DBus.Error.NameHasNoOwner", "nobody");
    assert_eq!(
        classify(error),
        Failure::Call(String::from("org.freedesktop.DBus.Error.NameHasNoOwner: nobody"))
    );

    match classify(error_reply("dev.exvacuum.pomd.Error.Broken", "it broke")) {
        Failure::Call(detail) => assert!(detail.contains("it broke")),
        other => panic!("not a failed call: {:?}", other),
    }

    match classify(zbus::Error::InvalidReply) {
        Failure::Call(detail) => assert!(!detail.is_empty()),
        other => panic!("not a failed call: {:?}", other),
    }
}

#[test]
fn classify_of_a_decoding_error_is_a_failed_call() {
    let error = decode(Command::GetIteration, &text_reply("3")).unwrap_err();
    match classify(error) {
        Failure::Call(detail) => assert!(!detail.is_empty()),
        other => panic!("not a failed call: {:?}", other),
    }
}

#[test]
fn unreachable_keeps_what_the_error_says() {
    let error = zbus::Error::Address(String::from("no session bus"));
    assert_eq!(
        unopened(&error),
        Event::Failed(Failure::NoBus(String::from("Address(\"no session bus\")")))
    );
}

#[test]
fn answered_decodes_or_classifies() {
    assert_eq!(answered(Command::Start, Ok(empty_reply())), Event::Returned(Reply::Nothing));
    assert_eq!(
        answered(Command::GetIteration, Ok(counter_reply(4))),
        Event::Returned(Reply::Counter(4))
    );
    assert_eq!(
        answered(Command::GetRemaining, Ok(span_reply(Duration::from_secs(90)))),
        Event::Returned(Reply::Span(90))
    );
    assert_eq!(
        answered(Command::IsOnBreak, Ok(flag_reply(true))),
        Event::Returned(Reply::Flag(true))
    );
    assert_eq!(
        answered(
            Command::Stop,
            Err(error_reply("org.freedesktop.DBus.Error.ServiceUnknown", "gone"))
        ),
        Event::Failed(Failure::NoService)
    );
    match answered(Command::IsRunning, Ok(counter_reply(1))) {
        Event::Failed(Failure::Call(detail)) => assert!(!detail.is_empty()),
        other => panic!("not a failed call: {:?}", other),
    }
}

#[test]
fn a_run_over_real_messages() {
    let (mut session, first) = Session::begin(Command::GetRemaining);
    assert_eq!(first, Action::Connect);
    assert!(session.advance(Event::Connected).is_some());
    let event = answered(session.command, Ok(span_reply(Duration::from_secs(24 * 60 + 59))));
    match session.advance(event) {
        Some(Action::Exit(report)) => {
            assert_eq!(report.output, Some(String::from("24:59")));
            assert_eq!(report.diagnostic, None);
            assert_eq!(report.status, 0);
        }
        other => panic!("the run did not end: {:?}", other),
    }
}

#[test]
fn a_run_without_the_service() {
    let (mut session, _) = Session::begin(Command::Start);
    session.advance(Event::Connected);
    let failed = Err(error_reply("org.freedesktop.DBus.Error.ServiceUnknown", "gone"));
    match session.advance(answered(session.command, failed)) {
        Some(Action::Exit(report)) => {
            assert_eq!(report.output, None);
            assert_eq!(
                report.diagnostic,
                Some(String::from("Error: Failed to find pomd dbus interface, is pomd running?"))
            );
            assert_eq!(report.status, 1);
        }
        other => panic!("the run did not end: {:?}", other),
    }
}

#[test]
fn a_run_without_the_bus() {
    let (mut session, _) = Session::begin(Command::IsRunning);
    let error = zbus::Error::Address(String::from("unset"));
    match session.advance(unopened(&error)) {
        Some(Action::Exit(report)) => {
            assert_eq!(report.output, None);
            assert_eq!(report.status, 1);
            assert!(report.diagnostic.unwrap().starts_with("Failed to open dbus connection"));
        }
        other => panic!("the run did not end: {:?}", other),
    }
    assert!(session.is_done());
}

fn printed(command: Command, message: Message) -> (Option<String>, Option<String>, i32) {
    let (mut session, _) = Session::begin(command);
    session.advance(Event::Connected);
    match session.advance(answered(command, Ok(message))) {
        Some(Action::Exit(report)) => (report.output, report.diagnostic, report.status),
        other => panic!("the run did not end: {:?}", other),
    }
}

#[test]
fn get_iteration_over_the_wire() {
    let line = |counter: u8| printed(Command::GetIteration, counter_reply(counter));
    assert_eq!(line(0), (Some(String::from("1")), None, 0));
    assert_eq!(line(41), (Some(String::from("42")), None, 0));
    assert_eq!(line(255), (Some(String::from("256")), None, 0));
}

#[test]
fn get_remaining_over_the_wire() {
    let line = |seconds: u64| {
        printed(Command::GetRemaining, span_reply(Duration::from_secs(seconds)))
    };
    assert_eq!(line(0), (Some(String::from("00:00")), None, 0));
    assert_eq!(line(125), (Some(String::from("02:05")), None, 0));
    assert_eq!(line(3599), (Some(String::from("59:59")), None, 0));
    assert_eq!(line(3600), (Some(String::from("60:00")), None, 0));
}

#[test]
fn flags_over_the_wire() {
    for command in [Command::IsRunning, Command::IsOnBreak] {
        assert_eq!(printed(command, flag_reply(true)), (Some(String::from("1")), None, 0));
        assert_eq!(printed(command, flag_reply(false)), (Some(String::from("0")), None, 0));
    }
}

#[test]
fn actions_over_the_wire() {
    for command in [Command::Start, Command::Pause, Command::Stop, Command::Skip] {
        assert_eq!(printed(command, empty_reply()), (None, None, 0));
    }
}

#[test]
fn answer_of_another_shape_over_the_wire() {
    let (output, diagnostic, status) = printed(Command::GetIteration, flag_reply(true));
    assert_eq!(output, None);
    assert_eq!(status, 1);
    assert!(diagnostic.unwrap().starts_with("Error calling pomd command: "));
}

#[test]
fn every_call_is_well_formed_on_the_wire() {
    for command in Command::all() {
        let call = MethodCall::of(command);
        let message = Message::method_call(call.path, call.member)
            .destination(call.destination)
            .interface(call.interface)
            .build(&())
            .unwrap();
        let header = message.header();
        assert_eq!(header.destination().unwrap().as_str(), "dev.exvacuum.pomd");
        assert_eq!(header.path().unwrap().as_str(), "/dev/exvacuum/pomd");
        assert_eq!(header.interface().unwrap().as_str(), "dev.exvacuum.pomd");
        assert_eq!(header.member().unwrap().as_str(), command.member());
        assert!(message.body().is_empty());
    }
}

#[test]
fn classify_answers_by_the_error_alone() {
    let errors = [
        error_reply("org.freedesktop.DBus.Error.ServiceUnknown", "gone"),
        error_reply("org.freedesktop.DBus.Error.AccessDenied", "not yours"),
        error_reply("dev.exvacuum.pomd.Error.Broken", "it broke"),
        zbus::Error::from(zbus::fdo::Error::ServiceUnknown(String::from("gone"))),
        zbus::Error::InvalidReply,
        decode(Command::IsRunning, &counter_reply(1)).unwrap_err(),
    ];
    for error in errors {
        assert_eq!(classify(error.clone()), classify(error));
    }
    assert_eq!(
        classify(error_reply("org.freedesktop.DBus.Error.AccessDenied", "not yours")),
        Failure::Call(String::from("org.freedesktop.DBus.Error.AccessDenied: not yours"))
    );
}

fn word_reply(word: u32) -> Message {
    Message::method_return(&call().header()).build(&word).unwrap()
}

fn undecodable(command: Command, message: Message) {
    match answered(command, Ok(message.clone())) {
        Event::Failed(Failure::Call(detail)) => assert!(!detail.is_empty()),
        other => panic!("not a failed call: {:?}", other),
    }
    let (output, diagnostic, status) = printed(command, message);
    assert_eq!(output, None);
    assert_eq!(status, 1);
    let diagnostic = diagnostic.unwrap();
    assert!(diagnostic.starts_with("Error calling pomd command: "));
    assert_ne!(diagnostic, "Error: Failed to find pomd dbus interface, is pomd running?");
}

#[test]
fn a_span_just_short_of_a_minute_is_not_rounded_up() {
    assert_eq!(
        printed(Command::GetRemaining, span_reply(Duration::new(59, 999_999_999))),
        (Some(String::from("00:59")), None, 0)
    );
    assert_eq!(
        decode(Command::GetRemaining, &span_reply(Duration::new(59, 500_000_000))),
        Ok(Reply::Span(59))
    );
}

#[test]
fn a_counter_that_is_no_byte_shows_no_default() {
    undecodable(Command::GetIteration, empty_reply());
    undecodable(Command::GetIteration, flag_reply(true));
    undecodable(Command::GetIteration, text_reply("3"));
    undecodable(Command::GetIteration, word_reply(3));
}

#[test]
fn a_span_that_is_no_duration_shows_no_default() {
    undecodable(Command::GetRemaining, empty_reply());
    undecodable(Command::GetRemaining, flag_reply(false));
    undecodable(Command::GetRemaining, counter_reply(0));
}

#[test]
fn a_flag_that_is_no_boolean_shows_no_default() {
    for command in [Command::IsRunning, Command::IsOnBreak] {
        undecodable(command, empty_reply());
        undecodable(command, counter_reply(1));
        undecodable(command, word_reply(1));
    }
}
