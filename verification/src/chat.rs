//! One streamed chat turn: the request that opens it, the chunks that the
//! completion provider yields, and what the driver of the turn does with each.
//!
//! The driver is a state machine. Whoever talks to the provider hands it one
//! [`StreamEvent`] at a time, performs the [`DriverAction`] that comes back,
//! and goes on until the action is [`DriverAction::Finish`].

use vstd::prelude::*;

verus! {

/// The options of a completion call.
#[derive(Clone, Debug, PartialEq, Eq)]
pub struct CompletionOptions {
    /// The identifier of the model that is to answer.
    pub model: String,
    /// The most tokens that the answer may have.
    pub max_tokens: u16,
}

/// A completion request: the options and one message in the user's role.
#[derive(Clone, Debug, PartialEq, Eq)]
pub struct ChatRequest {
    pub options: CompletionOptions,
    pub prompt: String,
}

/// One element of a completion stream.
#[derive(Clone, Debug, PartialEq, Eq)]
pub enum ChatChunk {
    /// The next piece of generated text.
    Text(String),
    /// The provider reported an error in place of a piece; its description.
    Error(String),
}

/// The pieces of `contents` that are present, joined in order.
pub open spec fn joined_contents(contents: Seq<Option<Seq<char>>>) -> Seq<char>
    decreases contents.len(),
{
    if contents.len() == 0 {
        Seq::empty()
    } else {
        joined_contents(contents.drop_last()) + match contents.last() {
            Some(text) => text,
            None => Seq::empty(),
        }
    }
}

/// What starts a diagnostic line.
pub open spec fn diagnostic_prefix() -> Seq<char> {
    "error: "@
}

/// The diagnostic line for an error with this description.
pub open spec fn diagnostic_line(description: Seq<char>) -> Seq<char> {
    diagnostic_prefix() + description + "\n"@
}

impl ChatChunk {
    /// What the driver writes to its sink for this chunk: the text of a piece
    /// as it is, a diagnostic line for an error.
    pub open spec fn written(&self) -> Seq<char> {
        match self {
            ChatChunk::Text(text) => text@,
            ChatChunk::Error(description) => diagnostic_line(description@),
        }
    }

    /// The chunk of one stream response. A response carries one slot per
    /// choice, and a slot may be empty; the chunk's text is what the slots
    /// hold, joined in order.
    pub fn from_choices(contents: &Vec<Option<String>>) -> (chunk: ChatChunk)
        ensures
            chunk matches ChatChunk::Text(text) && text@ == joined_contents(
                contents.deep_view(),
            ),
    {
        let ghost slots = contents.deep_view();
        let mut text = String::new();
        let mut i: usize = 0;
        while i < contents.len()
            invariant
                i <= contents.len(),
                slots == contents.deep_view(),
                slots.len() == contents.len(),
                text@ == joined_contents(slots.take(i as int)),
            decreases contents.len() - i,
        {
            proof {
                assert(slots.take(i + 1).drop_last() =~= slots.take(i as int));
            }
            if let Some(piece) = &contents[i] {
                text.append(piece.as_str());
            }
            i += 1;
        }
        assert(slots.take(i as int) =~= slots);
        ChatChunk::Text(text)
    }

    /// The text that the driver writes to its sink for this chunk.
    pub fn sink_text(&self) -> (text: String)
        ensures
            text@ == self.written(),
    {
        match self {
            ChatChunk::Text(piece) => piece.clone(),
            ChatChunk::Error(description) => {
                let mut line = "error: ".to_owned();
                line.append(description.as_str());
                line.append("\n");
                line
            },
        }
    }
}

/// Where a chat turn stands.
#[derive(Clone, Copy, Debug, PartialEq, Eq, Structural)]
pub enum TurnState {
    /// No request was issued yet.
    Idle,
    /// The stream is open and may yield more.
    Streaming,
    /// The stream ended by itself.
    Completed,
    /// The request could not be issued, or the stream was cut off.
    Failed,
}

/// What happened at the provider's end, or at the sink.
#[derive(Clone, Debug, PartialEq, Eq)]
pub enum StreamEvent {
    /// A request was issued and its stream is open.
    Opened,
    /// A request could not be issued.
    OpenFailed,
    /// The stream yielded an element.
    Chunk(ChatChunk),
    /// The stream ended: the provider has no more to say.
    Ended,
    /// The connection or the sink closed with an error.
    Aborted,
}

/// What the caller is to do next.
#[derive(Clone, Debug, PartialEq, Eq)]
pub enum DriverAction {
    /// Write this text to the sink and flush it, then wait for the next event.
    Emit(String),
    /// Wait for the next event.
    Wait,
    /// The turn is over: ask the stream for nothing more.
    Finish,
}

/// A [`DriverAction`], its text as a sequence.
pub enum ActionView {
    Emit(Seq<char>),
    Wait,
    Finish,
}

impl View for DriverAction {
    type V = ActionView;

    open spec fn view(&self) -> ActionView {
        match self {
            DriverAction::Emit(text) => ActionView::Emit(text@),
            DriverAction::Wait => ActionView::Wait,
            DriverAction::Finish => ActionView::Finish,
        }
    }
}

/// The state that follows `state` on `event`.
///
/// An open stream stays open on every element, an error element too, and
/// closes only when it ends or is cut off. A turn that is not streaming moves
/// only when a request is issued. Every other event leaves the state as it is.
pub open spec fn next_state(state: TurnState, event: StreamEvent) -> TurnState {
    match state {
        TurnState::Streaming => match event {
            StreamEvent::Ended => TurnState::Completed,
            StreamEvent::Aborted => TurnState::Failed,
            _ => TurnState::Streaming,
        },
        _ => match event {
            StreamEvent::Opened => TurnState::Streaming,
            StreamEvent::OpenFailed => TurnState::Failed,
            _ => state,
        },
    }
}

/// The action that answers `event` in `state`: an element of an open stream
/// is written out; otherwise the caller waits while the stream is open and
/// stops when it is not.
pub open spec fn action_for(state: TurnState, event: StreamEvent) -> ActionView {
    match (state, event) {
        (TurnState::Streaming, StreamEvent::Chunk(chunk)) => ActionView::Emit(chunk.written()),
        _ => if next_state(state, event) == TurnState::Streaming {
            ActionView::Wait
        } else {
            ActionView::Finish
        },
    }
}

/// The state of a turn that was in `state` and has handled `events`, first
/// to last.
pub open spec fn state_after(state: TurnState, events: Seq<StreamEvent>) -> TurnState
    decreases events.len(),
{
    if events.len() == 0 {
        state
    } else {
        next_state(state_after(state, events.drop_last()), events.last())
    }
}

/// The texts written, in order, while a turn that was in `state` handled
/// `events`, first to last.
pub open spec fn written_during(state: TurnState, events: Seq<StreamEvent>) -> Seq<Seq<char>>
    decreases events.len(),
{
    if events.len() == 0 {
        Seq::empty()
    } else {
        let earlier = written_during(state, events.drop_last());
        match action_for(state_after(state, events.drop_last()), events.last()) {
            ActionView::Emit(text) => earlier.push(text),
            _ => earlier,
        }
    }
}

/// The events of a stream that yields `chunks` and has not ended yet.
pub open spec fn chunk_events(chunks: Seq<ChatChunk>) -> Seq<StreamEvent> {
    Seq::new(chunks.len(), |i: int| StreamEvent::Chunk(chunks[i]))
}

/// What is written for `chunks`, element by element.
pub open spec fn written_for(chunks: Seq<ChatChunk>) -> Seq<Seq<char>> {
    Seq::new(chunks.len(), |i: int| chunks[i].written())
}

/// What a sink holds after `writes` were written to it, first to last: what
/// it held, then each text in turn.
pub open spec fn sink_after(sink: Seq<char>, writes: Seq<Seq<char>>) -> Seq<char>
    decreases writes.len(),
{
    if writes.len() == 0 {
        sink
    } else {
        sink_after(sink, writes.drop_last()) + writes.last()
    }
}

/// The number of diagnostic lines among what is written for `chunks`: one
/// for each error element, none for a piece.
pub open spec fn diagnostics_in(chunks: Seq<ChatChunk>) -> nat
    decreases chunks.len(),
{
    if chunks.len() == 0 {
        0
    } else {
        diagnostics_in(chunks.drop_last()) + if chunks.last() is Error {
            1nat
        } else {
            0nat
        }
    }
}

/// One step of the driver: the next state and what to do.
pub fn step(state: TurnState, event: StreamEvent) -> (next: (TurnState, DriverAction))
    ensures
        next.0 == next_state(state, event),
        next.1@ == action_for(state, event),
{
    match state {
        TurnState::Streaming => match event {
            StreamEvent::Chunk(chunk) => (TurnState::Streaming, DriverAction::Emit(chunk.sink_text())),
            StreamEvent::Ended => (TurnState::Completed, DriverAction::Finish),
            StreamEvent::Aborted => (TurnState::Failed, DriverAction::Finish),
            _ => (TurnState::Streaming, DriverAction::Wait),
        },
        _ => match event {
            StreamEvent::Opened => (TurnState::Streaming, DriverAction::Wait),
            StreamEvent::OpenFailed => (TurnState::Failed, DriverAction::Finish),
            _ => (state, DriverAction::Finish),
        },
    }
}

/// Drains a stream that has already been collected: what the driver writes
/// for each element, in the order of the elements. A piece is written as it
/// is. An error element gives its diagnostic line, and the elements behind it
/// are written as well.
pub fn drain(chunks: &Vec<ChatChunk>) -> (writes: Vec<String>)
    ensures
        writes.deep_view() == written_for(chunks@),
        writes.len() == chunks.len(),
        forall|i: int|
            0 <= i < chunks.len() ==> (#[trigger] writes[i])@ == match chunks[i] {
                ChatChunk::Text(piece) => piece@,
                ChatChunk::Error(description) => diagnostic_line(description@),
            },
{
    let mut writes: Vec<String> = Vec::new();
    let mut i: usize = 0;
    while i < chunks.len()
        invariant
            i <= chunks.len(),
            writes.len() == i,
            forall|k: int| 0 <= k < i ==> (#[trigger] writes[k])@ == chunks[k].written(),
        decreases chunks.len() - i,
    {
        writes.push(chunks[i].sink_text());
        i += 1;
    }
    assert(writes.deep_view() =~= written_for(chunks@));
    writes
}

/// Drains a stream that has already been collected into `sink`: the sink
/// keeps what it held, and behind it stands what the driver writes for each
/// element, in the order of the elements.
pub fn drain_into(chunks: &Vec<ChatChunk>, sink: &mut String)
    ensures
        final(sink)@ == sink_after(old(sink)@, written_for(chunks@)),
{
    let ghost writes = written_for(chunks@);
    let mut i: usize = 0;
    while i < chunks.len()
        invariant
            i <= chunks.len(),
            writes == written_for(chunks@),
            sink@ == sink_after(old(sink)@, writes.take(i as int)),
        decreases chunks.len() - i,
    {
        proof {
            assert(writes.take(i + 1).drop_last() =~= writes.take(i as int));
            assert(writes.take(i + 1).last() == chunks[i as int].written());
        }
        let text = chunks[i].sink_text();
        sink.append(text.as_str());
        i += 1;
    }
    assert(writes.take(i as int) =~= writes);
}

/// A stream is drained to its end, whatever it yields: an open stream that
/// yields `chunks`, pieces and errors in any mix, stays open through all of
/// them, one text is written for each element, in the order of the elements,
/// and the turn is completed when the stream ends after them.
pub proof fn lemma_stream_is_drained(chunks: Seq<ChatChunk>)
    ensures
        state_after(TurnState::Streaming, chunk_events(chunks)) == TurnState::Streaming,
        written_during(TurnState::Streaming, chunk_events(chunks)) == written_for(chunks),
        state_after(TurnState::Streaming, chunk_events(chunks).push(StreamEvent::Ended))
            == TurnState::Completed,
        written_during(TurnState::Streaming, chunk_events(chunks).push(StreamEvent::Ended))
            == written_for(chunks),
    decreases chunks.len(),
{
    let events = chunk_events(chunks);
    if chunks.len() > 0 {
        lemma_stream_is_drained(chunks.drop_last());
        assert(events.drop_last() =~= chunk_events(chunks.drop_last()));
        assert(written_for(chunks.drop_last()).push(chunks.last().written()) =~= written_for(
            chunks,
        ));
    } else {
        assert(written_for(chunks) =~= Seq::<Seq<char>>::empty());
    }
    let ended = events.push(StreamEvent::Ended);
    assert(ended.drop_last() =~= events);
    assert(ended.last() == StreamEvent::Ended);
    assert(state_after(TurnState::Streaming, events) == TurnState::Streaming);
    assert(next_state(TurnState::Streaming, StreamEvent::Ended) == TurnState::Completed);
    assert(action_for(TurnState::Streaming, StreamEvent::Ended) == ActionView::Finish);
    assert(written_during(TurnState::Streaming, ended) == written_during(
        TurnState::Streaming,
        events,
    ));
}

/// A diagnostic line is one line that names the error: the marker `error: `,
/// the description as it came, and a line feed at the end.
pub proof fn lemma_diagnostic_line_shape(description: Seq<char>)
    ensures
        diagnostic_line(description).len() == description.len() + 8,
        diagnostic_line(description).take(7) == diagnostic_prefix(),
        diagnostic_line(description).skip(7).take(description.len() as int) == description,
        diagnostic_line(description).last() == '\n',
{
    reveal_strlit("error: ");
    reveal_strlit("\n");
    assert(diagnostic_line(description).take(7) =~= diagnostic_prefix());
    assert(diagnostic_line(description).skip(7).take(description.len() as int) =~= description);
}

/// What is written follows the stream, element by element: as many texts as
/// elements, the text for an earlier element before the text for a later
/// one; for a piece the piece itself, for an error its diagnostic line.
/// Diagnostic lines are written for the error elements and for no other: as
/// many as the stream has error elements.
pub proof fn lemma_writes_follow_the_stream(chunks: Seq<ChatChunk>)
    ensures
        written_for(chunks).len() == chunks.len(),
        forall|i: int|
            0 <= i < chunks.len() ==> #[trigger] written_for(chunks)[i] == match chunks[i] {
                ChatChunk::Text(piece) => piece@,
                ChatChunk::Error(description) => diagnostic_line(description@),
            },
        written_during(TurnState::Streaming, chunk_events(chunks)) == written_for(chunks),
        diagnostics_in(chunks) <= chunks.len(),
        diagnostics_in(chunks) == chunks.filter(|chunk: ChatChunk| chunk is Error).len(),
        diagnostics_in(chunks) == 0 <==> forall|i: int|
            0 <= i < chunks.len() ==> #[trigger] chunks[i] is Text,
    decreases chunks.len(),
{
    lemma_stream_is_drained(chunks);
    let is_error = |chunk: ChatChunk| chunk is Error;
    if chunks.len() > 0 {
        let earlier = chunks.drop_last();
        lemma_writes_follow_the_stream(earlier);
        assert(earlier.push(chunks.last()) =~= chunks);
        earlier.lemma_filter_push(chunks.last(), is_error);
        if diagnostics_in(chunks) == 0 {
            assert forall|i: int| 0 <= i < chunks.len() implies #[trigger] chunks[i] is Text by {
                if i < earlier.len() {
                    assert(earlier[i] is Text);
                }
            }
        }
        if forall|i: int| 0 <= i < chunks.len() ==> #[trigger] chunks[i] is Text {
            assert forall|i: int| 0 <= i < earlier.len() implies #[trigger] earlier[i] is Text by {
                assert(chunks[i] is Text);
            }
            assert(chunks[chunks.len() - 1] is Text);
        }
    } else {
        assert(chunks.filter(is_error) =~= Seq::<ChatChunk>::empty()) by {
            chunks.lemma_filter_len(is_error);
        }
    }
}

/// An error between two pieces: the stream yields the piece `first`, an
/// error described by `description`, and the piece `last`, and then ends.
/// The turn is completed. Three texts are written: `first`, then the one
/// diagnostic line, then `last`. A sink that was empty holds them in that
/// order and nothing else.
pub proof fn lemma_error_between_pieces(first: String, description: String, last: String)
    ensures
        ({
            let chunks = seq![
                ChatChunk::Text(first),
                ChatChunk::Error(description),
                ChatChunk::Text(last),
            ];
            let events = chunk_events(chunks).push(StreamEvent::Ended);
            &&& state_after(TurnState::Streaming, events) == TurnState::Completed
            &&& written_during(TurnState::Streaming, events) == written_for(chunks)
            &&& written_for(chunks) == seq![first@, diagnostic_line(description@), last@]
            &&& sink_after(Seq::empty(), written_for(chunks)) == first@ + diagnostic_line(
                description@,
            ) + last@
            &&& diagnostics_in(chunks) == 1
        }),
{
    let chunks = seq![ChatChunk::Text(first), ChatChunk::Error(description), ChatChunk::Text(last)];
    let writes = written_for(chunks);
    lemma_stream_is_drained(chunks);
    assert(writes =~= seq![first@, diagnostic_line(description@), last@]);
    let two = writes.drop_last();
    let one = two.drop_last();
    assert(two =~= seq![first@, diagnostic_line(description@)]);
    assert(one =~= seq![first@]);
    assert(one.drop_last() =~= Seq::<Seq<char>>::empty());
    assert(sink_after(Seq::empty(), one.drop_last()) == Seq::<char>::empty());
    assert(sink_after(Seq::empty(), one) =~= first@);
    assert(sink_after(Seq::empty(), two) =~= first@ + diagnostic_line(description@));
    assert(sink_after(Seq::empty(), writes) =~= first@ + diagnostic_line(description@) + last@);
    let c2 = chunks.drop_last();
    let c1 = c2.drop_last();
    assert(c1.drop_last() =~= Seq::<ChatChunk>::empty());
    assert(diagnostics_in(c1.drop_last()) == 0);
    assert(diagnostics_in(c1) == 0);
    assert(diagnostics_in(c2) == 1);
    assert(diagnostics_in(chunks) == 1);
}

/// An open stream outlives its error elements: every element, a piece or an
/// error, is written out and leaves the stream open. The turn ends only with
/// the stream, and a turn that has ended starts streaming again only on a
/// new request.
pub proof fn lemma_turn_transitions(state: TurnState, event: StreamEvent)
    ensures
        event is Chunk && state == TurnState::Streaming ==> next_state(state, event)
            == TurnState::Streaming && action_for(state, event) == ActionView::Emit(
            event->Chunk_0.written(),
        ),
        action_for(state, event) is Emit ==> state == TurnState::Streaming && event is Chunk,
        action_for(state, event) is Finish <==> next_state(state, event) != TurnState::Streaming,
        state != TurnState::Streaming && next_state(state, event) == TurnState::Streaming
            ==> event is Opened,
        state == TurnState::Streaming && next_state(state, event) != TurnState::Streaming ==> (
        event is Ended && next_state(state, event) == TurnState::Completed) || (event is Aborted
            && next_state(state, event) == TurnState::Failed),
        next_state(state, event) != TurnState::Idle || state == TurnState::Idle,
{
}

} // verus!
