use line_relay::message::Message;
use line_relay::queue::Dequeue;
use line_relay::steps::{
    endpoint_from_args, on_inbound_dequeued, on_line_read, on_outbound_dequeued, on_received,
    InboundAction, OutboundAction, StartupError, TransportError, QUEUE_CAPACITY,
};

fn err() -> TransportError {
    TransportError { detail: "bad frame".to_string() }
}

#[test]
fn line_becomes_text_message_with_terminator() {
    let r = on_line_read(Some("hello\n".to_string()));
    assert_eq!(r, Some(Message::Text("hello\n".to_string())));
    assert!(r.unwrap().is_text());
}

#[test]
fn end_of_input_or_empty_read_stops_reader() {
    assert_eq!(on_line_read(None), None);
    assert_eq!(on_line_read(Some(String::new())), None);
}

#[test]
fn writer_writes_text_only() {
    assert_eq!(on_inbound_dequeued(Message::Text("hi\n".to_string())), Some("hi\n".to_string()));
    assert_eq!(on_inbound_dequeued(Message::Binary(vec![1, 2])), None);
    assert_eq!(on_inbound_dequeued(Message::Ping(vec![])), None);
    assert_eq!(on_inbound_dequeued(Message::Pong(vec![])), None);
    assert_eq!(on_inbound_dequeued(Message::Close), None);
    assert!(!Message::Close.is_text());
}

#[test]
fn inbound_loop_forwards_skips_and_finishes() {
    match on_received(Some(Ok(Message::Text("a".to_string())))) {
        InboundAction::Forward(m) => assert_eq!(m, Message::Text("a".to_string())),
        _ => panic!("expected forward"),
    }
    assert!(matches!(on_received(Some(Err(err()))), InboundAction::Skip));
    assert!(matches!(on_received(None), InboundAction::Finish));
}

#[test]
fn outbound_loop_follows_queue() {
    match on_outbound_dequeued(Dequeue::Item(Message::Text("x\n".to_string()))) {
        OutboundAction::Send(m) => assert_eq!(m, Message::Text("x\n".to_string())),
        _ => panic!("expected send"),
    }
    assert!(matches!(on_outbound_dequeued(Dequeue::Wait), OutboundAction::Wait));
    assert!(matches!(on_outbound_dequeued(Dequeue::Finished), OutboundAction::Finish));
}

#[test]
fn missing_endpoint_is_a_startup_error() {
    let args = vec!["relay".to_string()];
    assert_eq!(endpoint_from_args(&args), Err(StartupError::MissingEndpoint));
    assert_eq!(endpoint_from_args(&vec![]), Err(StartupError::MissingEndpoint));
}

#[test]
fn endpoint_is_first_argument() {
    let args = vec!["relay".to_string(), "ws://localhost:9000".to_string(), "x".to_string()];
    assert_eq!(endpoint_from_args(&args), Ok("ws://localhost:9000".to_string()));
}

#[test]
fn queues_have_thirty_two_slots() {
    assert_eq!(QUEUE_CAPACITY, 32);
}
