use signalrs::builder::{InvocationPart, SendBuilder};
use signalrs::messages::{ClientMessage, MessageEncoding};

fn bin(message: &ClientMessage) -> &[u8] {
    match message {
        ClientMessage::Binary(b) => b.as_slice(),
        ClientMessage::Json(_) => panic!("expected a binary message"),
    }
}

fn le(n: u64) -> Vec<u8> {
    n.to_le_bytes().to_vec()
}

fn text_block(s: &str) -> Vec<u8> {
    let mut out = le(s.len() as u64);
    out.extend_from_slice(s.as_bytes());
    out
}

#[test]
fn binary_send_with_one_argument() {
    let b = SendBuilder::new_with_encoding("m".to_string(), MessageEncoding::Binary);
    let b = b.arg(InvocationPart::Argument(serde_json::Value::from(42))).unwrap();
    let out = b.send();
    let mut expected = vec![1u8];
    expected.extend_from_slice(&text_block("m"));
    expected.push(0);
    expected.push(1);
    expected.extend_from_slice(&le(1));
    expected.extend_from_slice(&text_block("42"));
    expected.extend_from_slice(&le(0));
    assert_eq!(bin(&out.message), expected.as_slice());
}

#[test]
fn binary_invoke_without_arguments() {
    let out = SendBuilder::new_with_encoding("m".to_string(), MessageEncoding::Binary).invoke();
    let id = out.invocation_id.clone().unwrap();
    let mut expected = vec![1u8];
    expected.extend_from_slice(&text_block("m"));
    expected.push(1);
    expected.extend_from_slice(&text_block(&id));
    expected.push(0);
    expected.extend_from_slice(&le(0));
    assert_eq!(bin(&out.message), expected.as_slice());
}

#[test]
fn binary_stream_frames() {
    let b = SendBuilder::new_with_encoding("m".to_string(), MessageEncoding::Binary);
    let b = b.arg(InvocationPart::Stream(vec![serde_json::Value::from(5)])).unwrap();
    let mut out = b.send();
    let sid = out.streams[0].get_stream_id();
    let frames = out.streams[0].produce_frames();
    assert_eq!(frames.len(), 2);
    let mut item = vec![2u8];
    item.extend_from_slice(&text_block(&sid));
    item.extend_from_slice(&text_block("5"));
    assert_eq!(bin(&frames[0]), item.as_slice());
    let mut completion = vec![3u8];
    completion.extend_from_slice(&text_block(&sid));
    assert_eq!(bin(&frames[1]), completion.as_slice());
}

#[test]
fn binary_invoke_stream_without_arguments() {
    let out =
        SendBuilder::new_with_encoding("m".to_string(), MessageEncoding::Binary).invoke_stream();
    let id = out.invocation_id.clone().unwrap();
    let mut expected = vec![4u8];
    expected.extend_from_slice(&text_block(&id));
    expected.extend_from_slice(&text_block("m"));
    expected.extend_from_slice(&le(0));
    expected.extend_from_slice(&le(0));
    assert_eq!(bin(&out.message), expected.as_slice());
}
