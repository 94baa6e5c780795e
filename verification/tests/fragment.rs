use web_gpt::fragment::{
    chunk_fragment, failure_reply, fragment_reply, html_reply, BodyKind, ChunkFragment, HttpReply,
    RenderError, STATUS_INTERNAL_SERVER_ERROR, STATUS_OK,
};

#[test]
fn status_codes() {
    assert_eq!(STATUS_OK, 200);
    assert_eq!(STATUS_INTERNAL_SERVER_ERROR, 500);
}

#[test]
fn chunk_fragment_wraps_the_text() {
    assert_eq!(chunk_fragment("hello".to_string()), ChunkFragment { text: "hello".to_string() });
    assert_eq!(chunk_fragment(String::new()).text, "");
}

#[test]
fn rendered_page_is_sent_as_html() {
    let reply = html_reply(Ok("<ul><li>cats</li></ul>".to_string()));
    assert_eq!(
        reply,
        HttpReply {
            status: 200,
            kind: BodyKind::Html,
            body: "<ul><li>cats</li></ul>".to_string(),
        }
    );
}

#[test]
fn failed_page_hides_the_cause() {
    let reply = html_reply(Err(RenderError { message: "formatting error".to_string() }));
    assert_eq!(
        reply,
        HttpReply {
            status: 500,
            kind: BodyKind::PlainText,
            body: "Internal server error".to_string(),
        }
    );
}

#[test]
fn failed_page_with_empty_message() {
    let reply = html_reply(Err(RenderError { message: String::new() }));
    assert_eq!(reply.status, 500);
    assert_eq!(reply.kind, BodyKind::PlainText);
    assert_eq!(reply.body, "Internal server error");
}

#[test]
fn every_failure_gives_the_same_reply() {
    let first = html_reply(Err(RenderError { message: "boom".to_string() }));
    let second = html_reply(Err(RenderError { message: "another cause".to_string() }));
    assert_eq!(first, second);
    assert_eq!(first, failure_reply());
    assert_eq!(fragment_reply(Err(RenderError { message: "boom".to_string() })), failure_reply());
    assert!(!first.body.contains("boom"));
}

#[test]
fn failure_reply_is_generic() {
    assert_eq!(
        failure_reply(),
        HttpReply {
            status: 500,
            kind: BodyKind::PlainText,
            body: "Internal server error".to_string(),
        }
    );
}

#[test]
fn rendered_chunk_fragment_is_sent() {
    let reply = fragment_reply(Ok("<div>hi</div>".to_string()));
    assert_eq!(
        reply,
        HttpReply { status: 200, kind: BodyKind::PlainText, body: "<div>hi</div>".to_string() }
    );
}

#[test]
fn failed_chunk_fragment_hides_the_cause() {
    let reply = fragment_reply(Err(RenderError { message: "formatting error".to_string() }));
    assert_eq!(
        reply,
        HttpReply {
            status: 500,
            kind: BodyKind::PlainText,
            body: "Internal server error".to_string(),
        }
    );
}
