//! Relaying one chunk to a connected client as a server-push event.

use vstd::prelude::*;
use crate::fragment::{BodyKind, HttpReply, STATUS_OK};

verus! {

/// The body of a relay request: the text of one chunk.
#[derive(Clone, Debug, PartialEq, Eq)]
pub struct ChatResponse {
    pub content: String,
}

/// A push-event frame: the marker `data: `, the payload, and two line feeds.
pub open spec fn sse_frame_of(payload: Seq<char>) -> Seq<char> {
    "data: "@ + payload + "\n\n"@
}

/// The push-event frame that carries `payload`.
pub fn sse_frame(payload: &str) -> (frame: String)
    ensures
        frame@ == sse_frame_of(payload@),
{
    let mut frame = "data: ".to_owned();
    frame.append(payload);
    frame.append("\n\n");
    frame
}

/// The reply to a relay request: the chunk's text as one push-event frame,
/// labelled as HTML.
pub fn handle_chat_response(chat_response: &ChatResponse) -> (reply: HttpReply)
    ensures
        reply.status == STATUS_OK,
        reply.kind == BodyKind::Html,
        reply.body@ == sse_frame_of(chat_response.content@),
{
    HttpReply {
        status: STATUS_OK,
        kind: BodyKind::Html,
        body: sse_frame(chat_response.content.as_str()),
    }
}

/// A frame is its payload and eight characters more; the payload stands
/// behind the marker, unchanged, and the two line feeds end the frame.
pub proof fn lemma_sse_frame_shape(payload: Seq<char>)
    ensures
        sse_frame_of(payload).len() == payload.len() + 8,
        sse_frame_of(payload).take(6) == "data: "@,
        sse_frame_of(payload).skip(6).take(payload.len() as int) == payload,
        sse_frame_of(payload).skip(6 + payload.len() as int) == "\n\n"@,
{
    reveal_strlit("data: ");
    reveal_strlit("\n\n");
}

} // verus!
