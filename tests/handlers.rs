use blt::commands::{adder_response, echo_response, is_exit, sum};
use blt::heart_rate::{heart_rate_to_vector, next_heart_rate, vector_to_heart_rate};
use blt::server::{
    CommandAction, CommandEvent, CommandHandler, CommandLoop, StreamAction, StreamEvent,
    StreamLoop,
};

#[test]
fn sum_adds_two_numbers() {
    assert_eq!(sum("2 3"), "5");
}

#[test]
fn sum_names_first_invalid_token() {
    assert_eq!(sum("1 a"), "Invalid number 'a'");
    assert_eq!(sum("1 a b"), "Invalid number 'a'");
}

#[test]
fn sum_signs_and_single_value() {
    assert_eq!(sum("-5 +3"), "-2");
    assert_eq!(sum("7"), "7");
    assert_eq!(sum("0 0 0"), "0");
}

#[test]
fn sum_empty_tokens_are_invalid() {
    assert_eq!(sum(""), "Invalid number ''");
    assert_eq!(sum("2  3"), "Invalid number ''");
    assert_eq!(sum("2 3 "), "Invalid number ''");
}

#[test]
fn sum_out_of_range_token_is_invalid() {
    assert_eq!(sum("2147483648"), "Invalid number '2147483648'");
    assert_eq!(sum("2147483647 1"), "2147483648");
    assert_eq!(sum("-2147483648 -1"), "-2147483649");
}

#[test]
fn adder_exit_gives_termination_notice() {
    assert_eq!(adder_response("exit"), "stopping emulator");
    assert_eq!(adder_response("4 5 6"), "15");
    assert!(is_exit("exit"));
    assert!(!is_exit("exit "));
}

#[test]
fn echo_answers() {
    assert_eq!(echo_response("ping"), "pong");
    assert_eq!(echo_response("pong"), "ping");
    assert_eq!(echo_response("exit"), "stopping emulator");
    assert_eq!(echo_response("random"), "unknown command");
    assert_eq!(echo_response("PING"), "unknown command");
}

fn reply_of(a: CommandAction) -> (String, bool) {
    match a {
        CommandAction::Reply { text, stop_after } => (text, stop_after),
        other => panic!("expected a reply, got {:?}", other),
    }
}

#[test]
fn command_loop_needs_reader_and_writer() {
    let mut l = CommandLoop::new(CommandHandler::Arithmetic);
    assert!(!l.read_ready());
    let a = l.step(CommandEvent::Read { data: b"2 3".to_vec() });
    assert!(matches!(a, CommandAction::Continue));
    let a = l.step(CommandEvent::ReaderAccepted { mtu: 512 });
    assert!(matches!(a, CommandAction::Continue));
    assert_eq!(l.read_buffer_len(), 512);
    assert!(!l.read_ready());
    let a = l.step(CommandEvent::Read { data: b"2 3".to_vec() });
    assert!(matches!(a, CommandAction::Continue));
    let a = l.step(CommandEvent::WriterSubscribed);
    assert!(matches!(a, CommandAction::Continue));
    assert!(l.read_ready());
    let (text, stop) = reply_of(l.step(CommandEvent::Read { data: b"2 3".to_vec() }));
    assert_eq!(text, "5");
    assert!(!stop);
    assert!(l.running);
}

#[test]
fn command_loop_arithmetic_scenario() {
    let mut l = CommandLoop::new(CommandHandler::Arithmetic);
    l.step(CommandEvent::ReaderAccepted { mtu: 100 });
    l.step(CommandEvent::WriterSubscribed);
    let (text, stop) = reply_of(l.step(CommandEvent::Read { data: b"1 a".to_vec() }));
    assert_eq!(text, "Invalid number 'a'");
    assert!(!stop);
    let (text, stop) = reply_of(l.step(CommandEvent::Read { data: b"exit".to_vec() }));
    assert_eq!(text, "stopping emulator");
    assert!(stop);
    assert!(!l.running);
}

#[test]
fn command_loop_drops_reader_and_writer() {
    let mut l = CommandLoop::new(CommandHandler::Echo);
    l.step(CommandEvent::ReaderAccepted { mtu: 20 });
    l.step(CommandEvent::WriterSubscribed);
    let a = l.step(CommandEvent::Read { data: Vec::new() });
    assert!(matches!(a, CommandAction::Continue));
    assert_eq!(l.reader, None);
    assert!(l.writer);
    l.step(CommandEvent::ReaderAccepted { mtu: 30 });
    let a = l.step(CommandEvent::ReadFailed);
    assert!(matches!(a, CommandAction::Continue));
    assert_eq!(l.reader, None);
    l.step(CommandEvent::ReaderAccepted { mtu: 30 });
    let (text, _) = reply_of(l.step(CommandEvent::Read { data: b"ping".to_vec() }));
    assert_eq!(text, "pong");
    let a = l.step(CommandEvent::DeliveryFailed);
    assert!(matches!(a, CommandAction::Continue));
    assert!(!l.writer);
    assert!(l.running);
    let a = l.step(CommandEvent::Read { data: b"ping".to_vec() });
    assert!(matches!(a, CommandAction::Continue));
}

#[test]
fn command_loop_decodes_invalid_utf8_lossily() {
    let mut l = CommandLoop::new(CommandHandler::Arithmetic);
    l.step(CommandEvent::ReaderAccepted { mtu: 20 });
    l.step(CommandEvent::WriterSubscribed);
    let (text, stop) = reply_of(l.step(CommandEvent::Read { data: vec![b'1', b' ', 0xff] }));
    assert_eq!(text, "Invalid number '\u{fffd}'");
    assert!(!stop);
}

#[test]
fn command_loop_stops_on_shutdown_and_control_end() {
    let mut l = CommandLoop::new(CommandHandler::Echo);
    assert!(matches!(l.step(CommandEvent::Shutdown), CommandAction::Stop));
    assert!(!l.running);
    let mut l = CommandLoop::new(CommandHandler::Echo);
    assert!(matches!(l.step(CommandEvent::ControlEnded), CommandAction::Stop));
    assert!(!l.running);
}

#[test]
fn heart_rate_wire_form() {
    assert_eq!(vector_to_heart_rate(&[0x01, 0x2c]), 300);
    assert_eq!(vector_to_heart_rate(&[0x00, 80, 9]), 80);
    assert_eq!(heart_rate_to_vector(&300), vec![0x01, 0x2c]);
    assert_eq!(heart_rate_to_vector(&80), vec![0x00, 80]);
}

#[test]
fn heart_rate_walk_is_clamped() {
    assert_eq!(next_heart_rate(80, 5), 85);
    assert_eq!(next_heart_rate(80, -3), 77);
    assert_eq!(next_heart_rate(249, 10), 250);
    assert_eq!(next_heart_rate(61, -10), 60);
}

#[test]
fn stream_loop_notifies_only_with_writer() {
    let mut l = StreamLoop::new();
    assert_eq!(l.value, 80);
    let a = l.step(StreamEvent::Tick { change: 2 });
    assert!(matches!(a, StreamAction::Continue));
    assert_eq!(l.value, 82);
    l.step(StreamEvent::WriterSubscribed);
    match l.step(StreamEvent::Tick { change: -4 }) {
        StreamAction::Notify { data } => assert_eq!(data, vec![0, 78]),
        other => panic!("expected a notification, got {:?}", other),
    }
    let a = l.step(StreamEvent::NotifyFailed);
    assert!(matches!(a, StreamAction::Continue));
    assert!(!l.writer);
    assert!(matches!(l.step(StreamEvent::OtherControl), StreamAction::Stop));
    assert!(!l.running);
}
