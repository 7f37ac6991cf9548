//! Reading a request body to its end. The stream is read elsewhere; what each
//! read produced is handed in, one event at a time.

use vstd::prelude::*;

verus! {

/// How many bytes one read asks the stream for.
pub const READ_SIZE: u64 = 16384;

/// What one read of the stream produced.
#[derive(Debug, Clone, PartialEq, Eq)]
pub enum ReadEvent {
    /// Bytes, possibly none.
    Data(Vec<u8>),
    /// The stream is closed: the body has ended.
    Closed,
    /// The last operation on the stream failed; the stream's message.
    Failed(String),
}

/// The bytes of a body that have arrived so far.
#[derive(Debug, Clone, PartialEq, Eq)]
pub struct BodyReader {
    buffer: Vec<u8>,
}

impl View for BodyReader {
    type V = Seq<u8>;

    closed spec fn view(&self) -> Seq<u8> {
        self.buffer@
    }
}

/// Where the reading of a body stands.
#[derive(Debug, Clone, PartialEq, Eq)]
pub enum ReadStep {
    /// The stream is to be read again.
    More(BodyReader),
    /// The body has ended; all its bytes.
    Complete(Vec<u8>),
    /// The stream failed; its message. No bytes are handed out.
    Broken(String),
}

/// Where the reading of a body stands, over the bytes and texts themselves.
pub enum ReadState {
    More(Seq<u8>),
    Complete(Seq<u8>),
    Broken(Seq<char>),
}

impl View for ReadEvent {
    type V = ReadEventView;

    open spec fn view(&self) -> ReadEventView {
        match self {
            ReadEvent::Data(chunk) => ReadEventView::Data(chunk@),
            ReadEvent::Closed => ReadEventView::Closed,
            ReadEvent::Failed(message) => ReadEventView::Failed(message@),
        }
    }
}

pub enum ReadEventView {
    Data(Seq<u8>),
    Closed,
    Failed(Seq<char>),
}

impl View for ReadStep {
    type V = ReadState;

    open spec fn view(&self) -> ReadState {
        match self {
            ReadStep::More(reader) => ReadState::More(reader@),
            ReadStep::Complete(body) => ReadState::Complete(body@),
            ReadStep::Broken(message) => ReadState::Broken(message@),
        }
    }
}

/// One step of reading: bytes are appended to what has arrived, a closed
/// stream ends the body with all that has arrived, a failure ends the reading
/// without a body.
pub open spec fn read_step(arrived: Seq<u8>, event: ReadEventView) -> ReadState {
    match event {
        ReadEventView::Data(chunk) => ReadState::More(arrived + chunk),
        ReadEventView::Closed => ReadState::Complete(arrived),
        ReadEventView::Failed(message) => ReadState::Broken(message),
    }
}

/// Reading from `state` through a sequence of events. Once the reading has
/// ended, later events change nothing.
pub open spec fn read_through(state: ReadState, events: Seq<ReadEventView>) -> ReadState
    decreases events.len(),
{
    if events.len() == 0 {
        state
    } else {
        match state {
            ReadState::More(arrived) => read_through(
                read_step(arrived, events.first()),
                events.drop_first(),
            ),
            _ => state,
        }
    }
}

/// The bytes of a sequence of chunks, in their order.
pub open spec fn joined(chunks: Seq<Seq<u8>>) -> Seq<u8>
    decreases chunks.len(),
{
    if chunks.len() == 0 {
        Seq::empty()
    } else {
        chunks.first() + joined(chunks.drop_first())
    }
}

/// The events of a stream that hands out the given chunks.
pub open spec fn data_events(chunks: Seq<Seq<u8>>) -> Seq<ReadEventView> {
    chunks.map_values(|chunk: Seq<u8>| ReadEventView::Data(chunk))
}

impl BodyReader {
    /// A reader before the first read.
    pub fn new() -> (reader: BodyReader)
        ensures
            reader@ == Seq::<u8>::empty(),
    {
        BodyReader { buffer: Vec::new() }
    }

    /// Takes what one read produced.
    pub fn accept(self, event: ReadEvent) -> (step: ReadStep)
        ensures
            step@ == read_step(self@, event@),
    {
        match event {
            ReadEvent::Data(chunk) => {
                let mut buffer = self.buffer;
                let mut chunk = chunk;
                buffer.append(&mut chunk);
                ReadStep::More(BodyReader { buffer })
            },
            ReadEvent::Closed => ReadStep::Complete(self.buffer),
            ReadEvent::Failed(message) => ReadStep::Broken(message),
        }
    }
}

/// After any chunks the reader holds all their bytes, in the order of
/// arrival, behind what it held before; a read without bytes changes nothing.
pub proof fn lemma_chunks_accumulate(arrived: Seq<u8>, chunks: Seq<Seq<u8>>)
    ensures
        read_through(ReadState::More(arrived), data_events(chunks)) == ReadState::More(
            arrived + joined(chunks),
        ),
        read_step(arrived, ReadEventView::Data(Seq::empty())) == ReadState::More(arrived),
    decreases chunks.len(),
{
    if chunks.len() > 0 {
        let events = data_events(chunks);
        assert(events.drop_first() =~= data_events(chunks.drop_first()));
        lemma_chunks_accumulate(arrived + chunks.first(), chunks.drop_first());
        assert(arrived + chunks.first() + joined(chunks.drop_first()) =~= arrived + joined(
            chunks,
        ));
    }
}

/// Reading through two runs of events is reading through the first, then
/// through the second.
pub proof fn lemma_read_through_concat(
    state: ReadState,
    first: Seq<ReadEventView>,
    second: Seq<ReadEventView>,
)
    ensures
        read_through(state, first + second) == read_through(read_through(state, first), second),
    decreases first.len(),
{
    if first.len() > 0 {
        assert((first + second).drop_first() =~= first.drop_first() + second);
        match state {
            ReadState::More(arrived) => {
                lemma_read_through_concat(
                    read_step(arrived, first.first()),
                    first.drop_first(),
                    second,
                );
            },
            _ => {
                lemma_read_ended(state, second);
            },
        }
    }
}

/// Once the reading has ended, no event changes its result.
pub proof fn lemma_read_ended(state: ReadState, events: Seq<ReadEventView>)
    requires
        !(state is More),
    ensures
        read_through(state, events) == state,
{
}

/// A stream that hands out chunks and is then closed yields exactly the bytes
/// of the chunks, in their order, whatever follows.
pub proof fn lemma_closed_stream_is_complete(chunks: Seq<Seq<u8>>, rest: Seq<ReadEventView>)
    ensures
        read_through(
            ReadState::More(Seq::empty()),
            data_events(chunks) + seq![ReadEventView::Closed] + rest,
        ) == ReadState::Complete(joined(chunks)),
{
    let start = ReadState::More(Seq::<u8>::empty());
    lemma_chunks_accumulate(Seq::empty(), chunks);
    lemma_read_through_concat(start, data_events(chunks) + seq![ReadEventView::Closed], rest);
    lemma_read_through_concat(start, data_events(chunks), seq![ReadEventView::Closed]);
    let closed = seq![ReadEventView::Closed];
    assert(read_through(ReadState::More(joined(chunks)), closed) == ReadState::Complete(
        joined(chunks),
    )) by {
        reveal_with_fuel(read_through, 2);
    }
    lemma_read_ended(ReadState::Complete(joined(chunks)), rest);
}

/// A stream that fails after some chunks yields no body: the failure is
/// reported, and the chunks that arrived before it are not handed out.
pub proof fn lemma_failed_stream_is_broken(
    chunks: Seq<Seq<u8>>,
    message: Seq<char>,
    rest: Seq<ReadEventView>,
)
    ensures
        read_through(
            ReadState::More(Seq::empty()),
            data_events(chunks) + seq![ReadEventView::Failed(message)] + rest,
        ) == ReadState::Broken(message),
{
    let start = ReadState::More(Seq::<u8>::empty());
    let failed = seq![ReadEventView::Failed(message)];
    lemma_chunks_accumulate(Seq::empty(), chunks);
    lemma_read_through_concat(start, data_events(chunks) + failed, rest);
    lemma_read_through_concat(start, data_events(chunks), failed);
    assert(read_through(ReadState::More(Seq::<u8>::empty() + joined(chunks)), failed)
        == ReadState::Broken(message)) by {
        reveal_with_fuel(read_through, 2);
    }
    lemma_read_ended(ReadState::Broken(message), rest);
}

} // verus!
