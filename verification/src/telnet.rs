//! The telnet framer: it keeps the bytes that were received and not yet
//! resolved into an event, says when to decode and when to read, and builds
//! the frames that go out.
//!
//! The framer performs no input or output and holds no decoder. Whoever drives
//! it runs the decoder on the pending bytes, reads from the accessor, and
//! reports each outcome to [`TelnetStream::poll_next`].

use crate::buffer::{buffered, contents, discard_front};
use crate::escape::{
    escape_iacs, escaped, lemma_escape_round_trip, lemma_escaped_len, unescaped, well_escaped,
};
use crate::protocol::{wire, EventView, NegotiationVerb, TelnetEvent, TelnetOption};
use bytes::BytesMut;
use vstd::prelude::*;
use vstd::string::StringSliceAdditionalSpecFns;

verus! {

/// The most bytes that one read from the accessor may deliver.
pub const BUFFER_SIZE: usize = 16;

/// Why a send did not complete.
#[derive(Clone, Copy, Debug, PartialEq, Eq)]
pub enum TelnetError {
    /// The accessor took fewer bytes than the frame holds.
    ShortWrite,
}

/// What has happened since the previous step of `next`.
#[derive(Debug)]
pub enum FramerInput<E> {
    /// Nothing yet: `next` has just been called.
    Started,
    /// The decoder looked at the pending bytes. It found either nothing
    /// complete, or an event and the number of bytes, counted from the front,
    /// that the event took up.
    Decoded(Option<(E, usize)>),
    /// A read from the accessor delivered these bytes; none means that the
    /// stream has ended.
    Received(Vec<u8>),
    /// A read from the accessor failed.
    ReadFailed,
}

/// A `FramerInput` with its bytes as a sequence and its count as a number.
pub enum FramerInputView<E> {
    Started,
    Decoded(Option<(E, nat)>),
    Received(Seq<u8>),
    ReadFailed,
}

impl<E> View for FramerInput<E> {
    type V = FramerInputView<E>;

    open spec fn view(&self) -> FramerInputView<E> {
        match *self {
            FramerInput::Started => FramerInputView::Started,
            FramerInput::Decoded(None) => FramerInputView::Decoded(None),
            FramerInput::Decoded(Some((event, consumed))) => FramerInputView::Decoded(
                Some((event, consumed as nat)),
            ),
            FramerInput::Received(chunk) => FramerInputView::Received(chunk@),
            FramerInput::ReadFailed => FramerInputView::ReadFailed,
        }
    }
}

/// What the driver of `next` does now.
#[derive(Debug, PartialEq, Eq)]
pub enum FramerStep<E> {
    /// Run the decoder on the pending bytes and report `Decoded`.
    Decode,
    /// Read at most this many bytes from the accessor and report `Received`
    /// or `ReadFailed`.
    Read(usize),
    /// `next` is complete with this result; `None` is the end of the stream.
    Yield(Option<E>),
}

/// One step of `next`: the pending bytes and the step that follow from the
/// pending bytes and an input.
///
/// The decoder is asked first and again after every read that delivered
/// something. Bytes leave only with a decoded event, and then exactly the bytes
/// that the event took up; what a read delivers is put behind what is pending.
/// A read that delivers nothing and a read that fails both end the stream.
pub open spec fn advance<E>(pending: Seq<u8>, input: FramerInputView<E>) -> (Seq<u8>, FramerStep<E>) {
    match input {
        FramerInputView::Started => (pending, FramerStep::Decode),
        FramerInputView::Decoded(Some((event, consumed))) => (
            pending.skip(consumed as int),
            FramerStep::Yield(Some(event)),
        ),
        FramerInputView::Decoded(None) => (pending, FramerStep::Read(BUFFER_SIZE)),
        FramerInputView::Received(chunk) => if chunk.len() == 0 {
            (pending, FramerStep::Yield(None))
        } else {
            (pending + chunk, FramerStep::Decode)
        },
        FramerInputView::ReadFailed => (pending, FramerStep::Yield(None)),
    }
}

/// The events that `next` yields, call after call, until it reports the end of
/// the stream: `pending` is what the framer holds at the start, `reads` is what
/// the reads deliver in turn, and after the last of them the stream has ended.
/// Every step is one of `advance`, with `decoder` answering each `Decode`.
pub open spec fn events<E>(
    decoder: spec_fn(Seq<u8>) -> Option<(E, nat)>,
    pending: Seq<u8>,
    reads: Seq<Seq<u8>>,
) -> Seq<E>
    decreases reads.len(), pending.len(),
{
    let (rest, step) = advance(pending, FramerInputView::Decoded(decoder(pending)));
    match step {
        FramerStep::Yield(Some(event)) => if rest.len() < pending.len() {
            seq![event] + events(decoder, rest, reads)
        } else {
            seq![event]
        },
        FramerStep::Read(_) => if reads.len() == 0 {
            Seq::empty()
        } else {
            let (grown, then) = advance(pending, FramerInputView::<E>::Received(reads[0]));
            if then is Decode {
                events(decoder, grown, reads.drop_first())
            } else {
                Seq::empty()
            }
        },
        _ => Seq::empty(),
    }
}

/// A decoder that works incrementally: an event takes up at least one byte and
/// no more than the decoder was shown, and once the decoder has found an event
/// at the front, bytes that arrive behind do not change what it finds.
pub open spec fn incremental<E>(decoder: spec_fn(Seq<u8>) -> Option<(E, nat)>) -> bool {
    &&& forall|buffer: Seq<u8>| #[trigger]
        decoder(buffer) matches Some((_, consumed)) ==> 0 < consumed <= buffer.len()
    &&& forall|buffer: Seq<u8>, more: Seq<u8>|
        decoder(buffer) is Some ==> #[trigger] decoder(buffer + more) == decoder(buffer)
}

/// Whether every read delivered at least one byte.
pub open spec fn all_delivered(reads: Seq<Seq<u8>>) -> bool {
    forall|i: int| 0 <= i < reads.len() ==> (#[trigger] reads[i]).len() > 0
}

/// The reads that deliver `stream` one byte at a time.
pub open spec fn bytewise(stream: Seq<u8>) -> Seq<Seq<u8>> {
    Seq::new(stream.len(), |i: int| seq![stream[i]])
}

/// With an incremental decoder, reads that each deliver something yield the
/// events that the same bytes yield when all of them are pending from the
/// start.
pub proof fn lemma_events_of_whole<E>(
    decoder: spec_fn(Seq<u8>) -> Option<(E, nat)>,
    pending: Seq<u8>,
    reads: Seq<Seq<u8>>,
)
    requires
        incremental(decoder),
        all_delivered(reads),
    ensures
        events(decoder, pending, reads) == events(
            decoder,
            pending + reads.flatten(),
            Seq::empty(),
        ),
    decreases reads.len(), pending.len(),
{
    let behind = reads.flatten();
    let whole = pending + behind;
    match decoder(pending) {
        Some((event, consumed)) => {
            assert(decoder(whole) == decoder(pending));
            let rest = pending.skip(consumed as int);
            lemma_events_of_whole(decoder, rest, reads);
            assert(whole.skip(consumed as int) =~= rest + behind);
        },
        None => {
            if reads.len() == 0 {
                assert(whole =~= pending);
            } else {
                let tail = reads.drop_first();
                assert(reads[0].len() > 0);
                assert(all_delivered(tail)) by {
                    assert forall|i: int| 0 <= i < tail.len() implies (#[trigger] tail[i]).len()
                        > 0 by {
                        assert(tail[i] == reads[i + 1]);
                    }
                }
                lemma_events_of_whole(decoder, pending + reads[0], tail);
                assert((pending + reads[0]) + tail.flatten() =~= whole);
            }
        },
    }
}

/// How a stream is cut into reads does not show in the events: with an
/// incremental decoder, two runs of reads that deliver the same bytes, each
/// read at least one of them, yield the same events in the same order.
pub proof fn lemma_fragmentation<E>(
    decoder: spec_fn(Seq<u8>) -> Option<(E, nat)>,
    pending: Seq<u8>,
    first: Seq<Seq<u8>>,
    second: Seq<Seq<u8>>,
)
    requires
        incremental(decoder),
        all_delivered(first),
        all_delivered(second),
        first.flatten() == second.flatten(),
    ensures
        events(decoder, pending, first) == events(decoder, pending, second),
{
    lemma_events_of_whole(decoder, pending, first);
    lemma_events_of_whole(decoder, pending, second);
}

/// Reading a stream byte by byte yields the events that one read of the whole
/// stream yields, whatever the stream holds.
pub proof fn lemma_bytewise<E>(decoder: spec_fn(Seq<u8>) -> Option<(E, nat)>, stream: Seq<u8>)
    requires
        incremental(decoder),
    ensures
        events(decoder, Seq::empty(), bytewise(stream)) == events(
            decoder,
            Seq::empty(),
            seq![stream],
        ),
{
    let nothing = Seq::<u8>::empty();
    lemma_bytewise_flatten(stream);
    lemma_events_of_whole(decoder, nothing, bytewise(stream));
    assert(nothing + bytewise(stream).flatten() =~= stream);
    if stream.len() == 0 {
        assert(bytewise(stream) =~= Seq::<Seq<u8>>::empty());
    } else {
        seq![stream].lemma_flatten_one_element();
        lemma_events_of_whole(decoder, nothing, seq![stream]);
        assert(nothing + seq![stream].flatten() =~= stream);
    }
}

/// The reads of `bytewise` deliver `stream` and nothing else.
pub proof fn lemma_bytewise_flatten(stream: Seq<u8>)
    ensures
        bytewise(stream).flatten() == stream,
    decreases stream.len(),
{
    let reads = bytewise(stream);
    if stream.len() == 0 {
        assert(reads.flatten() =~= stream);
    } else {
        lemma_bytewise_flatten(stream.drop_first());
        assert(reads.drop_first() =~= bytewise(stream.drop_first()));
        assert(reads.first() =~= seq![stream[0]]);
        assert(seq![stream[0]] + stream.drop_first() =~= stream);
    }
}

/// A decoder that reads payload by the doubling rule: shown nothing it finds
/// nothing, and shown a wire text that keeps the rule it finds one payload,
/// the text read back, that takes up all it was shown. Events stand here by
/// their views.
pub open spec fn gathers_payload(decoder: spec_fn(Seq<u8>) -> Option<(EventView, nat)>) -> bool {
    &&& decoder(Seq::empty()) is None
    &&& forall|wire: Seq<u8>|
        wire.len() > 0 && well_escaped(wire) ==> {
            #[trigger] decoder(wire) == Some((EventView::Data(unescaped(wire)), wire.len()))
        }
}

/// A text that was escaped and is delivered by one read arrives as one
/// payload that holds the text as it was, provided that the text is not empty
/// and that the decoder reads payload by the doubling rule.
pub proof fn lemma_escaped_text_arrives(
    decoder: spec_fn(Seq<u8>) -> Option<(EventView, nat)>,
    text: Seq<u8>,
)
    requires
        gathers_payload(decoder),
        text.len() > 0,
    ensures
        events(decoder, Seq::empty(), seq![escaped(text)]) == seq![EventView::Data(text)],
{
    let nothing = Seq::<u8>::empty();
    let frame = escaped(text);
    lemma_escaped_len(text);
    lemma_escape_round_trip(text);
    assert(nothing + frame =~= frame);
    assert(frame.skip(frame.len() as int) =~= nothing);
    assert(seq![frame].drop_first() =~= Seq::<Seq<u8>>::empty());
    reveal_with_fuel(events, 3);
    assert(events(decoder, nothing, seq![frame]) =~= seq![EventView::Data(text)]);
}

/// A telnet connection over an accessor, which is carried along and never used
/// here.
pub struct TelnetStream<Accessor> {
    accessor: Accessor,
    rx_buffer: BytesMut,
}

impl<Accessor> TelnetStream<Accessor> {
    /// The bytes that were received and belong to no event yet, oldest first.
    pub closed spec fn pending(&self) -> Seq<u8> {
        buffered(self.rx_buffer)
    }

    /// The accessor that the stream was made from.
    pub closed spec fn accessor(&self) -> Accessor {
        self.accessor
    }

    /// Makes the stream of a connection on which nothing has been received.
    pub fn from_accessor(accessor: Accessor) -> (stream: Self)
        ensures
            stream.accessor() == accessor,
            stream.pending() == Seq::<u8>::empty(),
    {
        TelnetStream { accessor, rx_buffer: BytesMut::with_capacity(BUFFER_SIZE) }
    }

    /// Lends the accessor for reading and writing. The pending bytes stay.
    pub fn accessor_mut(&mut self) -> (accessor: &mut Accessor)
        ensures
            *accessor == old(self).accessor(),
            final(self).accessor() == *final(accessor),
            final(self).pending() == old(self).pending(),
    {
        &mut self.accessor
    }

    /// Gives the accessor back and drops what is pending.
    pub fn into_accessor(self) -> (accessor: Accessor)
        ensures
            accessor == self.accessor(),
    {
        self.accessor
    }

    /// The pending bytes, for the decoder to look at.
    pub fn pending_bytes(&self) -> (bytes: &[u8])
        ensures
            bytes@ == self.pending(),
    {
        contents(&self.rx_buffer)
    }

    /// Takes one step of `next`, as `advance` describes it.
    ///
    /// A decoder cannot take up more bytes than it was shown, and the buffer
    /// cannot grow beyond what the machine can address.
    pub fn poll_next<E>(&mut self, input: FramerInput<E>) -> (step: FramerStep<E>)
        requires
            input@ matches FramerInputView::Decoded(Some((_, consumed))) ==> consumed <= old(
                self,
            ).pending().len(),
            input@ matches FramerInputView::Received(chunk) ==> old(self).pending().len()
                + chunk.len() <= isize::MAX,
        ensures
            (final(self).pending(), step) == advance(old(self).pending(), input@),
            !(step matches FramerStep::Yield(Some(_))) ==> old(self).pending().is_prefix_of(
                final(self).pending(),
            ),
            final(self).accessor() == old(self).accessor(),
    {
        match input {
            FramerInput::Started => FramerStep::Decode,
            FramerInput::Decoded(Some((event, consumed))) => {
                discard_front(&mut self.rx_buffer, consumed);
                FramerStep::Yield(Some(event))
            },
            FramerInput::Decoded(None) => FramerStep::Read(BUFFER_SIZE),
            FramerInput::Received(chunk) => {
                if chunk.len() == 0 {
                    FramerStep::Yield(None)
                } else {
                    self.rx_buffer.extend_from_slice(chunk.as_slice());
                    FramerStep::Decode
                }
            },
            FramerInput::ReadFailed => FramerStep::Yield(None),
        }
    }

    /// The frame that carries `event`.
    pub fn send_event(&self, event: TelnetEvent) -> (frame: Vec<u8>)
        ensures
            frame@ == wire(event@),
    {
        event.into_bytes()
    }

    /// The frame that offers to use `option`.
    pub fn send_will(&self, option: TelnetOption) -> (frame: Vec<u8>)
        ensures
            frame@ == wire(EventView::Negotiation(NegotiationVerb::Will, option)),
    {
        self.send_event(TelnetEvent::will(option))
    }

    /// The frame that asks the other end to use `option`.
    pub fn send_do(&self, option: TelnetOption) -> (frame: Vec<u8>)
        ensures
            frame@ == wire(EventView::Negotiation(NegotiationVerb::Do, option)),
    {
        self.send_event(TelnetEvent::do_(option))
    }

    /// The frame that refuses to use `option`.
    pub fn send_wont(&self, option: TelnetOption) -> (frame: Vec<u8>)
        ensures
            frame@ == wire(EventView::Negotiation(NegotiationVerb::Wont, option)),
    {
        self.send_event(TelnetEvent::wont(option))
    }

    /// The frame that asks the other end not to use `option`.
    pub fn send_dont(&self, option: TelnetOption) -> (frame: Vec<u8>)
        ensures
            frame@ == wire(EventView::Negotiation(NegotiationVerb::Dont, option)),
    {
        self.send_event(TelnetEvent::dont(option))
    }

    /// The frame that carries `text` as literal data: its bytes with every
    /// introducer byte doubled.
    pub fn send_str(&self, text: &str) -> (frame: Vec<u8>)
        ensures
            frame@ == escaped(text.spec_bytes()),
    {
        escape_iacs(text.as_bytes())
    }

    /// The frame that carries `data` as it is. Nothing is doubled: a payload
    /// that may hold an introducer byte has to be escaped by the caller.
    pub fn send_data(&self, data: &[u8]) -> (frame: Vec<u8>)
        ensures
            frame@ == data@,
            frame@ == wire(EventView::Data(data@)),
    {
        self.send_event(TelnetEvent::Data(vstd::slice::slice_to_vec(data)))
    }

    /// Judges a write of a frame of `length` bytes of which the accessor took
    /// `written`. Only a frame that was taken whole may be flushed.
    pub fn check_written(&self, length: usize, written: usize) -> (outcome: Result<(), TelnetError>)
        ensures
            outcome is Ok <==> written == length,
            outcome is Err ==> outcome == Err::<(), TelnetError>(TelnetError::ShortWrite),
    {
        if written != length {
            Err(TelnetError::ShortWrite)
        } else {
            Ok(())
        }
    }
}

} // verus!
