use chat_session::messages::{ChatMessage, MyPaymentService, PaymentRequest};
use chat_session::session::{
    forward_lines, outbound_for_line, outbound_messages, render_inbound, ConsumerState,
    LineOutcome, ProducerState, Session, SessionError,
};

#[test]
fn blank_lines_produce_no_outbound_message() {
    assert!(outbound_for_line("user_123", String::new()).is_none());
    assert!(outbound_for_line("user_123", "   ".to_string()).is_none());
    assert!(outbound_for_line("user_123", "\t \u{00A0}\u{2003}".to_string()).is_none());
    let m = outbound_for_line("user_123", " hi ".to_string()).unwrap();
    assert_eq!(m.user_id, "user_123");
    assert_eq!(m.message, " hi ");
}

#[test]
fn outbound_messages_keep_the_typed_order_and_the_identity() {
    let lines = vec!["first".to_string(), "second".to_string(), "third".to_string()];
    let out = outbound_messages("user_123", lines);
    assert_eq!(out.len(), 3);
    assert_eq!(out[0].message, "first");
    assert_eq!(out[1].message, "second");
    assert_eq!(out[2].message, "third");
    assert!(out.iter().all(|m| m.user_id == "user_123"));
}

#[test]
fn end_to_end_scenario_hello_blank_spaces_bye() {
    let lines =
        vec!["hello".to_string(), "".to_string(), "  ".to_string(), "bye".to_string()];
    let out = outbound_messages("user_123", lines);
    assert_eq!(out.len(), 2);
    assert_eq!(out[0].user_id, "user_123");
    assert_eq!(out[0].message, "hello");
    assert_eq!(out[1].user_id, "user_123");
    assert_eq!(out[1].message, "bye");
}

#[test]
fn whole_session_under_backpressure_loses_and_reorders_nothing() {
    // Capacity one forces the producer to wait on every second line; the
    // transport still observes every non-blank line, in the order typed.
    let lines = vec![
        "one".to_string(),
        "".to_string(),
        "two".to_string(),
        "three".to_string(),
        "   ".to_string(),
        "four".to_string(),
    ];
    let out = forward_lines("user_123".to_string(), lines, 1);
    let payloads: Vec<&str> = out.iter().map(|m| m.message.as_str()).collect();
    assert_eq!(payloads, ["one", "two", "three", "four"]);
    assert!(out.iter().all(|m| m.user_id == "user_123"));
}

#[test]
fn whole_session_scenario_hello_blank_spaces_bye() {
    let lines =
        vec!["hello".to_string(), "".to_string(), "  ".to_string(), "bye".to_string()];
    let out = forward_lines("user_123".to_string(), lines, 32);
    assert_eq!(out.len(), 2);
    assert_eq!(out[0].message, "hello");
    assert_eq!(out[1].message, "bye");
}

#[test]
fn session_forwards_messages_in_the_order_typed() {
    let mut s = Session::start("user_123".to_string(), 8);
    assert_eq!(s.offer_line("one".to_string()), LineOutcome::Accepted);
    assert_eq!(s.offer_line(" ".to_string()), LineOutcome::Skipped);
    assert_eq!(s.offer_line("two".to_string()), LineOutcome::Accepted);
    let first = s.next_outbound().unwrap();
    let second = s.next_outbound().unwrap();
    assert_eq!(first.user_id, "user_123");
    assert_eq!(first.message, "one");
    assert_eq!(second.message, "two");
    assert!(s.next_outbound().is_none());
}

#[test]
fn full_session_queue_makes_the_producer_wait() {
    let mut s = Session::start("user_123".to_string(), 2);
    assert_eq!(s.offer_line("one".to_string()), LineOutcome::Accepted);
    assert_eq!(s.offer_line("two".to_string()), LineOutcome::Accepted);
    assert_eq!(s.offer_line("three".to_string()), LineOutcome::MustWait);
    assert_eq!(s.pending_len(), 2);
    // The transport drains one message, and the same line goes through.
    assert_eq!(s.next_outbound().unwrap().message, "one");
    assert_eq!(s.offer_line("three".to_string()), LineOutcome::Accepted);
    assert_eq!(s.next_outbound().unwrap().message, "two");
    assert_eq!(s.next_outbound().unwrap().message, "three");
}

#[test]
fn dropped_receiver_stops_the_producer_but_not_the_consumer() {
    let mut s = Session::start("user_123".to_string(), 4);
    assert_eq!(s.offer_line("one".to_string()), LineOutcome::Accepted);
    s.receiver_dropped();
    assert_eq!(s.offer_line("two".to_string()), LineOutcome::ProducerStopped);
    assert_eq!(s.producer_status(), ProducerState::Stopped);
    // The consumer activity is untouched and keeps draining inbound messages.
    assert_eq!(s.consumer_status(), ConsumerState::Running);
    let shown = s.on_inbound(ChatMessage {
        user_id: "server".to_string(),
        message: "still here".to_string(),
    });
    assert_eq!(shown, "Server says: server: still here");
}

#[test]
fn normal_inbound_end_terminates_the_consumer_without_error() {
    let mut s = Session::start("user_123".to_string(), 4);
    s.inbound_ended();
    assert_eq!(s.consumer_status(), ConsumerState::Ended);
    assert_ne!(s.consumer_status(), ConsumerState::Failed);
}

#[test]
fn inbound_fault_surfaces_a_stream_error() {
    let mut s = Session::start("user_123".to_string(), 4);
    let e = s.inbound_fault();
    assert_eq!(e, SessionError::StreamError);
    assert_eq!(s.consumer_status(), ConsumerState::Failed);
}

#[test]
fn input_exhaustion_ends_the_producer_normally() {
    let mut s = Session::start("user_123".to_string(), 4);
    s.input_exhausted();
    assert_eq!(s.producer_status(), ProducerState::InputDone);
    assert_eq!(s.consumer_status(), ConsumerState::Running);
}

#[test]
fn rendering_an_inbound_message() {
    let m = ChatMessage { user_id: "alice".to_string(), message: "hi there".to_string() };
    assert_eq!(render_inbound(&m), "Server says: alice: hi there");
}

#[test]
fn error_diagnostics() {
    assert_eq!(
        SessionError::ConnectionError.describe(),
        "failed to establish the stream"
    );
    assert_eq!(
        SessionError::QueueClosedError.describe(),
        "failed to send message to server"
    );
    assert_eq!(SessionError::StreamError.describe(), "fault on the inbound stream");
}

#[test]
fn payment_handler_always_reports_success() {
    let service = MyPaymentService::new();
    let response = service.process_payment(&PaymentRequest {
        amount_cents: 10000,
        user_id: "user_123".to_string(),
    });
    assert!(response.success);
    let default_service = MyPaymentService::default();
    let response = default_service.process_payment(&PaymentRequest {
        amount_cents: 0,
        user_id: String::new(),
    });
    assert!(response.success);
}
