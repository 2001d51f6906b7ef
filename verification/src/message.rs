//! Communication structures for the protocol. This is generally for internal use by gipc.
//! It is exposed as any change to the protocol is useful for the general consumer, as well as
//! allowing for custom implementations of connections should that be required.
//!
//! On the wire a message is one frame (see [`raw`]) whose body is the envelope: the CBOR
//! encoding of the message as an enum. The shutdown signal is the text `ClosingConnection`;
//! user data is a map of one entry, from the text `Data` to the encoded payload. This module
//! writes and recognises the envelope; the payload inside it is bytes that the caller has
//! encoded and will decode. What is recognised is what is written, byte for byte: no other
//! encoding of the same CBOR value is taken for an envelope.

pub mod raw;

use vstd::prelude::*;
use crate::error::Error;
use crate::transport::{Channel, ConnectionImpl};

verus! {

/// The core of gipc's protocol.
/// This is primarily for internal use.
#[derive(Debug)]
pub enum Message<T> {
    /// Indicates that the connection is about to be closed.
    ClosingConnection,
    /// Container for user-defined data.
    /// This is the main variant used for communication using connections and listeners.
    Data(T),
}

impl<T: Clone> Clone for Message<T> {
    fn clone(&self) -> Self {
        match self {
            Message::ClosingConnection => Message::ClosingConnection,
            Message::Data(data) => Message::Data(data.clone()),
        }
    }
}

impl<T: Copy> Copy for Message<T> {

}

impl<T: View> View for Message<T> {
    type V = Message<T::V>;

    open spec fn view(&self) -> Message<T::V> {
        match *self {
            Message::ClosingConnection => Message::ClosingConnection,
            Message::Data(payload) => Message::Data(payload@),
        }
    }
}

/// The envelope of the shutdown signal: a CBOR text of 17 bytes that reads `ClosingConnection`.
pub open spec fn closing_envelope() -> Seq<u8> {
    seq![
        0x71u8, 0x43, 0x6c, 0x6f, 0x73, 0x69, 0x6e, 0x67, 0x43, 0x6f, 0x6e, 0x6e, 0x65, 0x63, 0x74,
        0x69, 0x6f, 0x6e,
    ]
}

/// What stands before the payload in the envelope of user data: the head of a CBOR map of one
/// entry, then as its key a CBOR text of 4 bytes that reads `Data`.
pub open spec fn data_header() -> Seq<u8> {
    seq![0xa1u8, 0x64, 0x44, 0x61, 0x74, 0x61]
}

/// The envelope of a message whose payload is already encoded.
pub open spec fn envelope(message: Message<Seq<u8>>) -> Seq<u8> {
    match message {
        Message::ClosingConnection => closing_envelope(),
        Message::Data(payload) => data_header() + payload,
    }
}

/// The message that an envelope holds, if `bytes` is an envelope.
///
/// Only the canonical encoding is an envelope: the very bytes that [`envelope`] gives. The
/// shutdown signal is its eighteen bytes and nothing else, so a byte behind it makes the bytes
/// no envelope. User data is the six bytes of the header and then the payload, which is all
/// that follows. A CBOR tag in front, a text or a map of indefinite length, or a length written
/// in more bytes than it needs would read as the same value to a general CBOR decoder; here
/// they are no envelope, and a receiver that opens envelopes with this function reports a
/// deserialisation error and stays open. A caller that wants such bytes taken reads the frame
/// alone, opens it with a decoder of its own and hands the message over for delivery.
pub open spec fn parse_envelope(bytes: Seq<u8>) -> Option<Message<Seq<u8>>> {
    if bytes == closing_envelope() {
        Some(Message::ClosingConnection)
    } else if data_header().is_prefix_of(bytes) {
        Some(Message::Data(bytes.skip(data_header().len() as int)))
    } else {
        None
    }
}

/// What the error for bytes that are no envelope says.
pub open spec fn no_envelope_text() -> Seq<char> {
    "the bytes are not a message envelope"@
}

/// Everything that goes over the wire for one message: the frame around its envelope.
pub open spec fn wire(message: Message<Seq<u8>>) -> Seq<u8> {
    raw::frame(envelope(message))
}

/// The first message of a stream of bytes, if the stream begins with a whole frame and the
/// frame holds an envelope.
pub open spec fn first_message(stream: Seq<u8>) -> Option<Message<Seq<u8>>> {
    match raw::first_frame(stream) {
        Some(body) => parse_envelope(body),
        None => None,
    }
}

/// Whether a payload is short enough for its envelope to fit a frame.
pub open spec fn fits_frame(message: Message<Seq<u8>>) -> bool {
    envelope(message).len() <= u64::MAX
}

/// Reading an envelope gives back the message that was put into it.
pub proof fn lemma_envelope_round_trip(message: Message<Seq<u8>>)
    ensures
        parse_envelope(envelope(message)) == Some(message),
{
    match message {
        Message::ClosingConnection => {},
        Message::Data(payload) => {
            let bytes = data_header() + payload;
            assert(bytes.skip(data_header().len() as int) =~= payload);
        },
    }
}

/// An envelope is the envelope of the one message that reading it gives.
pub proof fn lemma_envelope_of_parsed(bytes: Seq<u8>)
    requires
        parse_envelope(bytes) is Some,
    ensures
        envelope(parse_envelope(bytes).unwrap()) == bytes,
{
    if bytes != closing_envelope() {
    }
}

/// Whatever message is sent, the reader of the stream gets that message back, payload
/// unchanged, whatever follows it on the stream.
pub proof fn lemma_wire_round_trip(message: Message<Seq<u8>>, rest: Seq<u8>)
    requires
        fits_frame(message),
    ensures
        first_message(wire(message) + rest) == Some(message),
{
    raw::lemma_first_frame_of_frame(envelope(message), rest);
    lemma_envelope_round_trip(message);
}

/// Two messages that look the same on the wire are the same message.
pub proof fn lemma_wire_injective(a: Message<Seq<u8>>, b: Message<Seq<u8>>)
    requires
        fits_frame(a),
        fits_frame(b),
        wire(a) == wire(b),
    ensures
        a == b,
{
    lemma_wire_round_trip(a, Seq::empty());
    lemma_wire_round_trip(b, Seq::empty());
}

/// What is on the wire when the messages of `messages` have been sent one after the other:
/// their wire forms, each whole, in that order.
pub open spec fn stream(messages: Seq<Message<Seq<u8>>>) -> Seq<u8>
    decreases messages.len(),
{
    if messages.len() == 0 {
        Seq::empty()
    } else {
        wire(messages.first()) + stream(messages.drop_first())
    }
}

/// The first `count` messages of a stream of bytes, if the stream begins with that many.
pub open spec fn first_messages(bytes: Seq<u8>, count: nat) -> Option<Seq<Message<Seq<u8>>>>
    decreases count,
{
    if count == 0 {
        Some(Seq::empty())
    } else {
        match first_message(bytes) {
            None => None,
            Some(message) => match first_messages(
                bytes.skip(wire(message).len() as int),
                (count - 1) as nat,
            ) {
                None => None,
                Some(rest) => Some(seq![message] + rest),
            },
        }
    }
}

/// Whether each of the messages fits a frame.
pub open spec fn all_fit(messages: Seq<Message<Seq<u8>>>) -> bool {
    forall|i: int| 0 <= i < messages.len() ==> #[trigger] fits_frame(messages[i])
}

/// Skipping the front part of two joined byte strings leaves the back part.
pub(crate) proof fn lemma_skip_front(front: Seq<u8>, back: Seq<u8>)
    ensures
        (front + back).skip(front.len() as int) == back,
{
}

/// Three byte strings joined give the same whichever two are joined first.
pub(crate) proof fn lemma_join_three(a: Seq<u8>, b: Seq<u8>, c: Seq<u8>)
    ensures
        (a + b) + c == a + (b + c),
{
    assert((a + b) + c =~= a + (b + c));
}

/// Sending one more message puts its wire form behind what is on the wire.
pub proof fn lemma_stream_push(messages: Seq<Message<Seq<u8>>>, message: Message<Seq<u8>>)
    ensures
        stream(messages.push(message)) == stream(messages) + wire(message),
    decreases messages.len(),
{
    let all = messages.push(message);
    if messages.len() == 0 {
        let sent = wire(message);
        assert(all.first() == message);
        assert(stream(all.drop_first()) == Seq::<u8>::empty());
        assert(stream(messages) == Seq::<u8>::empty());
        assert(sent + Seq::<u8>::empty() =~= Seq::<u8>::empty() + sent);
    } else {
        lemma_stream_push(messages.drop_first(), message);
        assert(all.drop_first() =~= messages.drop_first().push(message));
    }
}

/// However many messages are sent one after the other, a reader of the wire gets exactly
/// those messages, in the order in which they were sent, whatever follows them: no frame
/// stands inside another.
pub proof fn lemma_stream_round_trip(messages: Seq<Message<Seq<u8>>>, rest: Seq<u8>)
    requires
        all_fit(messages),
    ensures
        first_messages(stream(messages) + rest, messages.len()) == Some(messages),
    decreases messages.len(),
{
    if messages.len() == 0 {
        assert(messages =~= Seq::empty());
    } else {
        let head = messages.first();
        let tail = messages.drop_first();
        let front = wire(head);
        let behind = stream(tail) + rest;
        assert(fits_frame(messages[0]));
        assert(all_fit(tail)) by {
            assert forall|i: int| 0 <= i < tail.len() implies #[trigger] fits_frame(tail[i]) by {
                assert(fits_frame(messages[i + 1]));
            }
        }
        lemma_join_three(front, stream(tail), rest);
        lemma_wire_round_trip(head, behind);
        lemma_skip_front(front, behind);
        lemma_stream_round_trip(tail, rest);
        assert(seq![head] + tail =~= messages);
    }
}

/// Whether `bytes` begins with `pattern`.
fn starts_with(bytes: &[u8], pattern: &Vec<u8>) -> (b: bool)
    ensures
        b == pattern@.is_prefix_of(bytes@),
{
    if bytes.len() < pattern.len() {
        return false;
    }
    let mut i: usize = 0;
    while i < pattern.len()
        invariant
            i <= pattern@.len() <= bytes@.len(),
            forall|j: int| 0 <= j < i ==> bytes@[j] == pattern@[j],
        decreases pattern@.len() - i,
    {
        if bytes[i] != pattern[i] {
            return false;
        }
        i = i + 1;
    }
    true
}

/// Appends to `bytes` what `tail` holds from index `from` on.
fn append(bytes: &mut Vec<u8>, tail: &[u8], from: usize)
    requires
        from <= tail@.len(),
    ensures
        final(bytes)@ == old(bytes)@ + tail@.skip(from as int),
{
    let mut i: usize = from;
    while i < tail.len()
        invariant
            from <= i <= tail@.len(),
            bytes@ == old(bytes)@ + tail@.subrange(from as int, i as int),
        decreases tail@.len() - i,
    {
        bytes.push(tail[i]);
        i = i + 1;
    }
}

/// The envelope of the shutdown signal, as bytes to send and to compare with.
fn closing_signal() -> (bytes: Vec<u8>)
    ensures
        bytes@ == closing_envelope(),
{
    vec![
        0x71u8, 0x43, 0x6c, 0x6f, 0x73, 0x69, 0x6e, 0x67, 0x43, 0x6f, 0x6e, 0x6e, 0x65, 0x63, 0x74,
        0x69, 0x6f, 0x6e,
    ]
}

/// What stands before the payload of user data, as bytes to send and to compare with.
fn header() -> (bytes: Vec<u8>)
    ensures
        bytes@ == data_header(),
{
    vec![0xa1u8, 0x64, 0x44, 0x61, 0x74, 0x61]
}

impl Message<Vec<u8>> {
    /// The envelope of this message.
    pub fn to_bytes(&self) -> (bytes: Vec<u8>)
        ensures
            bytes@ == envelope(self@),
    {
        match self {
            Message::ClosingConnection => closing_signal(),
            Message::Data(payload) => {
                let mut bytes = header();
                append(&mut bytes, payload.as_slice(), 0);
                bytes
            },
        }
    }

    /// Reads an envelope. Bytes that are no envelope are an [`Error::Deserialise`] that says so.
    pub fn from_bytes(bytes: &[u8]) -> (r: Result<Self, Error>)
        ensures
            match parse_envelope(bytes@) {
                Some(message) => r matches Ok(got) && got@ == message,
                None => r matches Err(Error::Deserialise(text)) && text@ == no_envelope_text(),
            },
    {
        let closing = closing_signal();
        let header = header();
        if bytes.len() == closing.len() && starts_with(bytes, &closing) {
            assert(bytes@ =~= closing@);
            Ok(Message::ClosingConnection)
        } else if starts_with(bytes, &header) {
            let mut payload: Vec<u8> = Vec::new();
            append(&mut payload, bytes, header.len());
            Ok(Message::Data(payload))
        } else {
            Err(Error::Deserialise("the bytes are not a message envelope".to_string()))
        }
    }

    /// Reads a [`Message`] from `reader`: one frame, then the envelope inside it.
    ///
    /// Trouble with the transport is an [`Error::Io`], and a frame that holds no envelope is an
    /// [`Error::Deserialise`]. Either way the bytes that were taken from the transport are gone.
    pub fn read_from<R: ConnectionImpl>(reader: &mut Channel<R>) -> (r: Result<Self, Error>)
        ensures
            final(reader).same_writing(*old(reader)),
            final(reader).same_closing(*old(reader)),
            final(reader).read_one_frame(*old(reader)),
            match r {
                Ok(message) => {
                    &&& fits_frame(message@)
                    &&& final(reader).consumed() == old(reader).consumed() + wire(message@)
                    &&& final(reader).failed_reads() == old(reader).failed_reads()
                    &&& final(reader).last_failure() == old(reader).last_failure()
                },
                Err(Error::Io(e)) => {
                    &&& final(reader).last_failure() == Some(e)
                    &&& final(reader).failed_reads() == old(reader).failed_reads() + 1
                    &&& old(reader).consumed().is_prefix_of(final(reader).consumed())
                    &&& final(reader).consumed().len() <= old(reader).consumed().len() + 8
                },
                Err(Error::Deserialise(text)) => {
                    &&& text@ == no_envelope_text()
                    &&& final(reader).failed_reads() == old(reader).failed_reads()
                    &&& final(reader).last_failure() == old(reader).last_failure()
                    &&& exists|body: Seq<u8>|
                        {
                            &&& body.len() <= u64::MAX
                            &&& parse_envelope(body) is None
                            &&& final(reader).consumed() == old(reader).consumed()
                                + #[trigger] raw::frame(body)
                        }
                },
                Err(_) => false,
            },
    {
        let body = raw::read_from(reader)?;
        let r = Self::from_bytes(body.as_slice());
        proof {
            if r is Ok {
                lemma_envelope_of_parsed(body@);
            }
        }
        r
    }

    /// Writes this [`Message`] to `writer`: its envelope in one frame, then a flush.
    ///
    /// Succeeds if and only if the transport fails neither the write nor the flush; a failure
    /// of either is an [`Error::Io`]. The frame goes out in one write, and the flush is asked
    /// for once, if and only if the write has succeeded.
    pub fn write_to<W: ConnectionImpl>(&self, writer: &mut Channel<W>) -> (r: Result<(), Error>)
        ensures
            final(writer).same_reading(*old(writer)),
            final(writer).same_closing(*old(writer)),
            final(writer).wrote_then_flushed(*old(writer), wire(self@)),
            match r {
                Ok(_) => {
                    &&& final(writer).failed_writes() == old(writer).failed_writes()
                    &&& final(writer).failed_flushes() == old(writer).failed_flushes()
                    &&& final(writer).last_failure() == old(writer).last_failure()
                },
                Err(e) => {
                    &&& final(writer).last_failure() matches Some(inner) && e == Error::Io(inner)
                    &&& final(writer).failed_writes() + final(writer).failed_flushes() == old(
                        writer,
                    ).failed_writes() + old(writer).failed_flushes() + 1
                },
            },
    {
        let serialised = self.to_bytes();
        match raw::write_to(writer, &serialised) {
            Ok(_) => {},
            Err(e) => { return Err(e); },
        }
        match writer.flush() {
            Ok(_) => Ok(()),
            Err(e) => Err(Error::Io(e)),
        }
    }
}

} // verus!
