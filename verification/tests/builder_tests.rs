use signalrs::builder::{InvocationPart, SendBuilder};
use signalrs::messages::ClientMessage;

fn json_text(message: &ClientMessage) -> &str {
    match message {
        ClientMessage::Json(t) => t.as_str(),
        ClientMessage::Binary(_) => panic!("expected a JSON message"),
    }
}

#[test]
fn send_without_arguments_has_no_id_and_no_argument_list() {
    let out = SendBuilder::new("target".to_string()).send();
    assert!(out.invocation_id.is_none());
    assert!(out.streams.is_empty());
    assert_eq!(
        json_text(&out.message),
        "{\"type\":1,\"target\":\"target\",\"streamIds\":[]}"
    );
}

#[test]
fn one_plain_and_one_stream_argument() {
    let b = SendBuilder::new("m".to_string());
    let b = b.arg(InvocationPart::Argument(serde_json::Value::from(42))).unwrap();
    let b = b
        .arg(InvocationPart::Stream(vec![
            serde_json::Value::from(1),
            serde_json::Value::from(2),
            serde_json::Value::from(3),
        ]))
        .unwrap();
    let mut out = b.send();
    assert!(out.invocation_id.is_none());
    assert_eq!(out.streams.len(), 1);
    let sid = out.streams[0].get_stream_id();
    let expected = format!(
        "{{\"type\":1,\"target\":\"m\",\"arguments\":[42],\"streamIds\":[\"{}\"]}}",
        sid
    );
    assert_eq!(json_text(&out.message), expected);

    let frames = out.streams[0].produce_frames();
    assert_eq!(frames.len(), 4);
    assert_eq!(
        json_text(&frames[0]),
        format!("{{\"type\":2,\"invocationId\":\"{}\",\"item\":1}}", sid)
    );
    assert_eq!(
        json_text(&frames[1]),
        format!("{{\"type\":2,\"invocationId\":\"{}\",\"item\":2}}", sid)
    );
    assert_eq!(
        json_text(&frames[2]),
        format!("{{\"type\":2,\"invocationId\":\"{}\",\"item\":3}}", sid)
    );
    assert_eq!(
        json_text(&frames[3]),
        format!("{{\"type\":3,\"invocationId\":\"{}\"}}", sid)
    );
}

#[test]
fn interleaved_arguments_keep_plain_order_and_stream_order() {
    let b = SendBuilder::new("m".to_string());
    let b = b.arg(InvocationPart::Argument(serde_json::Value::from("first"))).unwrap();
    let b = b.arg(InvocationPart::Stream(vec![serde_json::Value::from(10)])).unwrap();
    let b = b.arg(InvocationPart::Argument(serde_json::Value::from("second"))).unwrap();
    let b = b.arg(InvocationPart::Stream(Vec::new())).unwrap();
    let out = b.send();
    assert_eq!(out.streams.len(), 2);
    let sid0 = out.streams[0].get_stream_id();
    let sid1 = out.streams[1].get_stream_id();
    assert_ne!(sid0, sid1);
    let expected = format!(
        "{{\"type\":1,\"target\":\"m\",\"arguments\":[\"first\",\"second\"],\"streamIds\":[\"{}\",\"{}\"]}}",
        sid0, sid1
    );
    assert_eq!(json_text(&out.message), expected);
}

#[test]
fn empty_stream_argument_yields_only_a_completion_frame() {
    let b = SendBuilder::new("m".to_string());
    let b = b.arg(InvocationPart::Stream(Vec::new())).unwrap();
    let mut out = b.send();
    let sid = out.streams[0].get_stream_id();
    let frames = out.streams[0].produce_frames();
    assert_eq!(frames.len(), 1);
    assert_eq!(
        json_text(&frames[0]),
        format!("{{\"type\":3,\"invocationId\":\"{}\"}}", sid)
    );
}

#[test]
fn invoke_without_arguments_carries_id_and_empty_stream_list() {
    let out = SendBuilder::new("m".to_string()).invoke();
    let id = out.invocation_id.clone().unwrap();
    let expected = format!(
        "{{\"type\":1,\"invocationId\":\"{}\",\"target\":\"m\",\"streamIds\":[]}}",
        id
    );
    assert_eq!(json_text(&out.message), expected);
}

#[test]
fn invoke_id_differs_from_every_stream_id() {
    let b = SendBuilder::new("m".to_string());
    let b = b.arg(InvocationPart::Stream(vec![serde_json::Value::from(1)])).unwrap();
    let b = b.arg(InvocationPart::Stream(vec![serde_json::Value::from(2)])).unwrap();
    let out = b.invoke();
    let id = out.invocation_id.clone().unwrap();
    assert_ne!(id, out.streams[0].get_stream_id());
    assert_ne!(id, out.streams[1].get_stream_id());
}

#[test]
fn concurrent_builders_do_not_collide() {
    let first = SendBuilder::new("a".to_string())
        .arg(InvocationPart::Stream(Vec::new()))
        .unwrap()
        .invoke();
    let second = SendBuilder::new("b".to_string())
        .arg(InvocationPart::Stream(Vec::new()))
        .unwrap()
        .invoke();
    let mut ids = vec![
        first.invocation_id.clone().unwrap(),
        first.streams[0].get_stream_id(),
        second.invocation_id.clone().unwrap(),
        second.streams[0].get_stream_id(),
    ];
    ids.sort();
    ids.dedup();
    assert_eq!(ids.len(), 4);
}

#[test]
fn invoke_stream_always_carries_an_argument_list() {
    let out = SendBuilder::new("m".to_string()).invoke_stream();
    let id = out.invocation_id.clone().unwrap();
    let expected = format!(
        "{{\"type\":4,\"invocationId\":\"{}\",\"target\":\"m\",\"arguments\":[],\"streamIds\":[]}}",
        id
    );
    assert_eq!(json_text(&out.message), expected);
}

#[test]
fn invoke_stream_with_arguments_and_stream() {
    let b = SendBuilder::new("m".to_string());
    let b = b.arg(InvocationPart::Argument(serde_json::Value::from(7))).unwrap();
    let b = b.arg(InvocationPart::Stream(vec![serde_json::Value::from(8)])).unwrap();
    let out = b.invoke_stream();
    let id = out.invocation_id.clone().unwrap();
    let sid = out.streams[0].get_stream_id();
    assert_ne!(id, sid);
    let expected = format!(
        "{{\"type\":4,\"invocationId\":\"{}\",\"target\":\"m\",\"arguments\":[7],\"streamIds\":[\"{}\"]}}",
        id, sid
    );
    assert_eq!(json_text(&out.message), expected);
}

#[test]
fn method_names_are_json_escaped() {
    let out = SendBuilder::new("we\"ird".to_string()).send();
    assert_eq!(
        json_text(&out.message),
        "{\"type\":1,\"target\":\"we\\\"ird\",\"streamIds\":[]}"
    );
}

#[test]
fn fresh_ids_avoid_the_existing_ones() {
    let existing = vec!["a".to_string(), "b".to_string()];
    assert!(signalrs::ids::is_fresh_id(&existing, &"c".to_string()));
    assert!(!signalrs::ids::is_fresh_id(&existing, &"a".to_string()));
    let id = signalrs::ids::allocate_id(&existing);
    assert!(signalrs::ids::is_fresh_id(&existing, &id));
}
