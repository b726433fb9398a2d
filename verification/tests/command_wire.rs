use rhino_io::command::{handle_client_message, CommandQueue, OutputCommand};
use rhino_io::wire::decode_command_pin;

#[test]
fn decode_toggle_request() {
    // The canonical client request: next cycle must flip pin 20.
    let pin = decode_command_pin(br#"{"id":"20","message":"toggle"}"#);
    assert_eq!(pin, Some(20));
}

#[test]
fn decode_accepts_either_member_order() {
    assert_eq!(decode_command_pin(br#"{"message":"toggle","id":"20"}"#), Some(20));
}

#[test]
fn decode_accepts_blanks_between_tokens() {
    assert_eq!(
        decode_command_pin(b" { \"id\" : \"7\" , \"message\" : \"x\" } \r\n"),
        Some(7)
    );
}

#[test]
fn decode_accepts_signs_and_range() {
    assert_eq!(decode_command_pin(br#"{"id":"+20","message":"t"}"#), Some(20));
    assert_eq!(decode_command_pin(br#"{"id":"-3","message":"t"}"#), Some(-3));
    assert_eq!(
        decode_command_pin(br#"{"id":"2147483647","message":"t"}"#),
        Some(2147483647)
    );
    assert_eq!(
        decode_command_pin(br#"{"id":"-2147483648","message":"t"}"#),
        Some(-2147483648)
    );
    assert_eq!(decode_command_pin(br#"{"id":"2147483648","message":"t"}"#), None);
    assert_eq!(decode_command_pin(br#"{"id":"-2147483649","message":"t"}"#), None);
}

#[test]
fn decode_accepts_escapes_in_the_message_text() {
    assert_eq!(
        decode_command_pin(br#"{"id":"20","message":"say \"hi\"\nA"}"#),
        Some(20)
    );
}

#[test]
fn decode_rejects_malformed_shapes() {
    // Not an object.
    assert_eq!(decode_command_pin(b"toggle 20"), None);
    assert_eq!(decode_command_pin(b""), None);
    // Missing or misnamed members.
    assert_eq!(decode_command_pin(br#"{"id":"20"}"#), None);
    assert_eq!(decode_command_pin(br#"{"pin":"20","message":"t"}"#), None);
    assert_eq!(decode_command_pin(br#"{"id":"20","text":"t"}"#), None);
    // The same member twice.
    assert_eq!(decode_command_pin(br#"{"id":"20","id":"21"}"#), None);
    assert_eq!(decode_command_pin(br#"{"message":"a","message":"b"}"#), None);
    // The identifier must be a quoted number.
    assert_eq!(decode_command_pin(br#"{"id":20,"message":"t"}"#), None);
    assert_eq!(decode_command_pin(br#"{"id":"","message":"t"}"#), None);
    assert_eq!(decode_command_pin(br#"{"id":"2a","message":"t"}"#), None);
    assert_eq!(decode_command_pin(br#"{"id":" 20","message":"t"}"#), None);
    // Unterminated, trailing content, bad escapes, raw control bytes.
    assert_eq!(decode_command_pin(br#"{"id":"20","message":"t"#), None);
    assert_eq!(decode_command_pin(br#"{"id":"20","message":"t"}x"#), None);
    assert_eq!(decode_command_pin(br#"{"id":"20","message":"\q"}"#), None);
    assert_eq!(decode_command_pin(b"{\"id\":\"20\",\"message\":\"a\x01b\"}"), None);
    assert_eq!(decode_command_pin(br#"{"id":"20","message":"\u00g1"}"#), None);
}

#[test]
fn queue_starts_empty() {
    let mut q = CommandQueue::new(4);
    assert_eq!(q.take_next(), None);
}

#[test]
fn queue_keeps_submission_order() {
    // A single session's commands are applied in the order submitted.
    let mut q = CommandQueue::new(8);
    assert!(q.submit(OutputCommand::LedToggle(20)));
    assert!(q.submit(OutputCommand::LedToggle(21)));
    assert!(q.submit(OutputCommand::LedToggle(22)));
    assert_eq!(q.take_next(), Some(OutputCommand::LedToggle(20)));
    assert_eq!(q.take_next(), Some(OutputCommand::LedToggle(21)));
    assert_eq!(q.take_next(), Some(OutputCommand::LedToggle(22)));
    assert_eq!(q.take_next(), None);
}

#[test]
fn full_queue_drops_the_newest_command() {
    let mut q = CommandQueue::new(2);
    assert!(q.submit(OutputCommand::LedToggle(1)));
    assert!(q.submit(OutputCommand::LedToggle(2)));
    // The queue is full: the third command is dropped, not queued.
    assert!(!q.submit(OutputCommand::LedToggle(3)));
    assert_eq!(q.take_next(), Some(OutputCommand::LedToggle(1)));
    assert_eq!(q.take_next(), Some(OutputCommand::LedToggle(2)));
    assert_eq!(q.take_next(), None);
}

#[test]
fn decode_failure_does_not_end_the_intake() {
    // Two well-formed commands with a malformed message between them: the
    // malformed one is dropped alone, both commands arrive in order.
    let mut q = CommandQueue::new(8);
    assert!(handle_client_message(&mut q, br#"{"id":"20","message":"first"}"#));
    assert!(!handle_client_message(&mut q, b"not a command"));
    assert!(handle_client_message(&mut q, br#"{"id":"21","message":"second"}"#));
    assert_eq!(q.take_next(), Some(OutputCommand::LedToggle(20)));
    assert_eq!(q.take_next(), Some(OutputCommand::LedToggle(21)));
    assert_eq!(q.take_next(), None);
}

#[test]
fn intake_into_full_queue_reports_no_delivery() {
    let mut q = CommandQueue::new(1);
    assert!(handle_client_message(&mut q, br#"{"id":"20","message":"t"}"#));
    assert!(!handle_client_message(&mut q, br#"{"id":"21","message":"t"}"#));
    assert_eq!(q.take_next(), Some(OutputCommand::LedToggle(20)));
    assert_eq!(q.take_next(), None);
}
