use signalrs::errors::SignalRClientError;
use signalrs::response::{ResponseStream, StreamEvent, StreamPull};

#[test]
fn items_are_delivered_in_arrival_order() {
    let mut rs = ResponseStream::new();
    rs.feed(StreamEvent::Item("1".to_string())).unwrap();
    rs.feed(StreamEvent::Item("2".to_string())).unwrap();
    rs.feed(StreamEvent::Completion).unwrap();
    assert_eq!(rs.next(), StreamPull::Item("1".to_string()));
    assert_eq!(rs.next(), StreamPull::Item("2".to_string()));
    assert_eq!(rs.next(), StreamPull::Ended);
    assert_eq!(rs.next(), StreamPull::Ended);
}

#[test]
fn pull_is_pending_until_an_event_arrives() {
    let mut rs = ResponseStream::new();
    assert_eq!(rs.next(), StreamPull::Pending);
    rs.feed(StreamEvent::Item("7".to_string())).unwrap();
    assert_eq!(rs.next(), StreamPull::Item("7".to_string()));
    assert_eq!(rs.next(), StreamPull::Pending);
}

#[test]
fn an_error_terminates_exactly_once() {
    let mut rs = ResponseStream::new();
    rs.feed(StreamEvent::Item("1".to_string())).unwrap();
    rs.feed(StreamEvent::Error("boom".to_string())).unwrap();
    assert_eq!(rs.next(), StreamPull::Item("1".to_string()));
    assert_eq!(rs.next(), StreamPull::Failed("boom".to_string()));
    assert_eq!(rs.next(), StreamPull::Ended);
    assert_eq!(rs.next(), StreamPull::Ended);
}

#[test]
fn feeding_after_termination_is_a_protocol_error() {
    let mut rs = ResponseStream::new();
    rs.feed(StreamEvent::Completion).unwrap();
    let refused = rs.feed(StreamEvent::Item("late".to_string()));
    match refused {
        Err(SignalRClientError::ProtocolError { .. }) => (),
        other => panic!("expected a protocol error, got {:?}", other),
    }
    assert_eq!(rs.next(), StreamPull::Ended);
}

#[test]
fn error_messages_are_exposed() {
    let s = SignalRClientError::SerializationError { message: "s".to_string() };
    let t = SignalRClientError::TransportError { message: "t".to_string() };
    let p = SignalRClientError::ProtocolError { message: "p".to_string() };
    assert_eq!(s.message(), "s");
    assert_eq!(t.message(), "t");
    assert_eq!(p.message(), "p");
}
