use web_gpt::fragment::{BodyKind, HttpReply};
use web_gpt::relay::{handle_chat_response, sse_frame, ChatResponse};

#[test]
fn hello_frame() {
    assert_eq!(sse_frame("hello"), "data: hello\n\n");
}

#[test]
fn empty_payload_frame() {
    assert_eq!(sse_frame(""), "data: \n\n");
}

#[test]
fn payload_is_not_altered() {
    assert_eq!(sse_frame("data: x"), "data: data: x\n\n");
    assert_eq!(sse_frame("a\nb"), "data: a\nb\n\n");
    assert_eq!(sse_frame(" caf\u{e9} "), "data:  caf\u{e9} \n\n");
}

#[test]
fn frame_is_eight_bytes_longer_than_an_ascii_payload() {
    let payload = "twelve bytes";
    assert_eq!(sse_frame(payload).len(), payload.len() + 8);
}

#[test]
fn chat_response_is_framed() {
    let reply = handle_chat_response(&ChatResponse { content: "hello".to_string() });
    assert_eq!(
        reply,
        HttpReply { status: 200, kind: BodyKind::Html, body: "data: hello\n\n".to_string() }
    );
}

#[test]
fn empty_chat_response_is_framed() {
    let reply = handle_chat_response(&ChatResponse { content: String::new() });
    assert_eq!(reply.status, 200);
    assert_eq!(reply.kind, BodyKind::Html);
    assert_eq!(reply.body, "data: \n\n");
}
