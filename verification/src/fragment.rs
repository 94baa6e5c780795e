//! View-models and replies: what a handler hands to a page template, and what
//! goes back to the client once the template was rendered, or could not be.

use vstd::prelude::*;

verus! {

/// Status of a reply that carries what was asked for.
pub const STATUS_OK: u16 = 200;

/// Status of a reply to a request whose fragment could not be rendered.
pub const STATUS_INTERNAL_SERVER_ERROR: u16 = 500;

/// The data of the history list, before any markup: one item per query,
/// oldest first.
#[derive(Clone, Debug, PartialEq, Eq)]
pub struct HistoryFragment {
    pub queries: Vec<String>,
}

impl View for HistoryFragment {
    type V = Seq<Seq<char>>;

    open spec fn view(&self) -> Seq<Seq<char>> {
        self.queries.deep_view()
    }
}

/// The data of the fragment that shows one chunk: its text.
#[derive(Clone, Debug, PartialEq, Eq)]
pub struct ChunkFragment {
    pub text: String,
}

impl View for ChunkFragment {
    type V = Seq<char>;

    open spec fn view(&self) -> Seq<char> {
        self.text@
    }
}

/// A template that failed to render, with the renderer's own words. They are
/// for the server's log: no reply carries them.
#[derive(Clone, Debug, PartialEq, Eq)]
pub struct RenderError {
    pub message: String,
}

/// How the body of a reply is labelled for the client.
#[derive(Clone, Copy, Debug, PartialEq, Eq, Structural)]
pub enum BodyKind {
    /// `text/html`
    Html,
    /// `text/plain`
    PlainText,
}

/// A reply, ready to be sent.
#[derive(Clone, Debug, PartialEq, Eq)]
pub struct HttpReply {
    pub status: u16,
    pub kind: BodyKind,
    pub body: String,
}

/// What the client reads when a fragment or a page failed to render: one
/// fixed text, whatever the failure was. The renderer's own message is never
/// sent.
pub open spec fn generic_failure_body() -> Seq<char> {
    "Internal server error"@
}

/// The fragment that shows `text`: the text itself, nothing added or removed.
pub fn chunk_fragment(text: String) -> (fragment: ChunkFragment)
    ensures
        fragment@ == text@,
{
    ChunkFragment { text }
}

/// The reply to a request whose page or fragment failed to render: status
/// 500 and the fixed text, as plain text. It takes no error: every failure
/// gives this same reply.
pub fn failure_reply() -> (reply: HttpReply)
    ensures
        reply.status == STATUS_INTERNAL_SERVER_ERROR,
        reply.kind == BodyKind::PlainText,
        reply.body@ == generic_failure_body(),
{
    HttpReply {
        status: STATUS_INTERNAL_SERVER_ERROR,
        kind: BodyKind::PlainText,
        body: "Internal server error".to_owned(),
    }
}

/// The reply for a page template: the markup as HTML with status 200 where it
/// rendered; where it did not, status 500 and the fixed text, which tells
/// nothing of the cause.
pub fn html_reply(rendered: Result<String, RenderError>) -> (reply: HttpReply)
    ensures
        match rendered {
            Ok(html) => {
                &&& reply.status == STATUS_OK
                &&& reply.kind == BodyKind::Html
                &&& reply.body@ == html@
            },
            Err(_) => {
                &&& reply.status == STATUS_INTERNAL_SERVER_ERROR
                &&& reply.kind == BodyKind::PlainText
                &&& reply.body@ == generic_failure_body()
            },
        },
{
    match rendered {
        Ok(html) => HttpReply { status: STATUS_OK, kind: BodyKind::Html, body: html },
        Err(_) => failure_reply(),
    }
}

/// The reply for the chunk fragment: the rendered text with status 200; where
/// rendering failed, status 500 and the fixed text, which tells nothing of
/// the cause.
pub fn fragment_reply(rendered: Result<String, RenderError>) -> (reply: HttpReply)
    ensures
        reply.kind == BodyKind::PlainText,
        match rendered {
            Ok(body) => reply.status == STATUS_OK && reply.body@ == body@,
            Err(_) => reply.status == STATUS_INTERNAL_SERVER_ERROR && reply.body@
                == generic_failure_body(),
        },
{
    match rendered {
        Ok(body) => HttpReply { status: STATUS_OK, kind: BodyKind::PlainText, body },
        Err(_) => failure_reply(),
    }
}

} // verus!
