//! Synchronous connections.
//!
//! # Synchronous connection module
//!
//! This module provides the blocking form of [`Listener`] and [`Connection`]. An instance has
//! one owner, every operation takes it by exclusive reference and returns when the transport
//! does. These are well-suited for clients that don't have a need to be asynchronous.
//!
//! A payload is a string of bytes here: the caller encodes what it sends and decodes what it
//! receives.

use vstd::prelude::*;
use crate::connection::lifecycle::{delivered, guard, Lifecycle};
use crate::error::Error;
use crate::message::raw::{frame, lemma_frame_injective};
use crate::message::{
    all_fit, closing_envelope, first_message, first_messages, fits_frame, lemma_join_three,
    lemma_skip_front, lemma_stream_push, lemma_stream_round_trip, lemma_wire_injective,
    lemma_wire_round_trip, no_envelope_text, parse_envelope, stream, wire, Message,
};
use crate::transport::{Channel, Gate};

pub use crate::transport::{ConnectionImpl, ListenerImpl};

verus! {

/// How sending `message` relates what a connection had written `before` to what it has
/// written `after`, and to what the sender reports.
///
/// Whatever the transport makes of it, the sender hands it the whole wire form of the message,
/// in one piece, right behind what went before. A send fails with an I/O error or not at all.
pub open spec fn sent(
    before: Seq<u8>,
    after: Seq<u8>,
    message: Message<Seq<u8>>,
    r: Result<(), Error>,
) -> bool {
    &&& after == before + wire(message)
    &&& r matches Err(e) ==> e is Io
}

/// How a receive on an open connection relates the bytes that its transport had handed out
/// `before` to those it has handed out `after`, to whether the connection is closed afterwards,
/// and to what the receiver reports.
pub open spec fn received(
    before: Seq<u8>,
    after: Seq<u8>,
    closed_after: bool,
    r: Result<Vec<u8>, Error>,
) -> bool {
    match r {
        Ok(payload) => !closed_after && fits_frame(Message::Data(payload@)) && after == before
            + wire(Message::Data(payload@)),
        Err(Error::Closed(by_operation)) => by_operation && closed_after && after == before + wire(
            Message::ClosingConnection,
        ),
        Err(Error::Deserialise(text)) => !closed_after && text@ == no_envelope_text() && exists|
            body: Seq<u8>,
        |
            body.len() <= u64::MAX && parse_envelope(body) is None && after == before
                + #[trigger] frame(body),
        Err(Error::Io(_)) => !closed_after && before.is_prefix_of(after) && after.len()
            <= before.len() + 8,
        Err(_) => false,
    }
}

/// What follows a common beginning of two equal byte strings is equal too.
proof fn lemma_same_tail(before: Seq<u8>, a: Seq<u8>, b: Seq<u8>)
    requires
        before + a == before + b,
    ensures
        a == b,
{
    assert((before + b).skip(before.len() as int) =~= b);
}

/// A receiver whose transport hands out the peer's shutdown signal reports `Closed(true)` and
/// is closed afterwards, without having been asked to close.
pub proof fn lemma_signal_closes_receiver(
    before: Seq<u8>,
    after: Seq<u8>,
    closed_after: bool,
    r: Result<Vec<u8>, Error>,
)
    requires
        received(before, after, closed_after, r),
        after == before + wire(Message::ClosingConnection),
    ensures
        r matches Err(Error::Closed(true)),
        closed_after,
{
    let signal = Message::<Seq<u8>>::ClosingConnection;
    match r {
        Ok(payload) => {
            lemma_same_tail(before, wire(Message::Data(payload@)), wire(signal));
            lemma_wire_injective(Message::Data(payload@), signal);
        },
        Err(Error::Deserialise(_)) => {
            let body = choose|body: Seq<u8>|
                body.len() <= u64::MAX && parse_envelope(body) is None && after == before
                    + #[trigger] frame(body);
            lemma_same_tail(before, frame(body), wire(signal));
            lemma_frame_injective(body, closing_envelope());
        },
        _ => {},
    }
}

/// A receiver whose transport hands out what the sending of a payload has put on the wire
/// returns that payload, unchanged, and stays open.
pub proof fn lemma_data_is_received_unchanged(
    before: Seq<u8>,
    after: Seq<u8>,
    closed_after: bool,
    r: Result<Vec<u8>, Error>,
    payload: Seq<u8>,
)
    requires
        received(before, after, closed_after, r),
        fits_frame(Message::Data(payload)),
        after == before + wire(Message::Data(payload)),
    ensures
        r matches Ok(got) && got@ == payload,
        !closed_after,
{
    let data = Message::Data(payload);
    match r {
        Ok(got) => {
            lemma_same_tail(before, wire(Message::Data(got@)), wire(data));
            lemma_wire_injective(Message::Data(got@), data);
        },
        Err(Error::Closed(_)) => {
            lemma_same_tail(before, wire(Message::ClosingConnection), wire(data));
            lemma_wire_injective(Message::ClosingConnection, data);
        },
        Err(Error::Deserialise(_)) => {
            let body = choose|body: Seq<u8>|
                body.len() <= u64::MAX && parse_envelope(body) is None && after == before
                    + #[trigger] frame(body);
            lemma_same_tail(before, frame(body), wire(data));
            lemma_frame_injective(body, crate::message::envelope(data));
        },
        _ => {},
    }
}

/// Two sends that succeed one after the other leave two whole frames on the wire, the first
/// before the second. No byte of one stands inside the other: a reader of the stream gets the
/// first message, and behind it the second.
pub proof fn lemma_sends_do_not_interleave(
    before: Seq<u8>,
    between: Seq<u8>,
    after: Seq<u8>,
    x: Message<Seq<u8>>,
    y: Message<Seq<u8>>,
)
    requires
        fits_frame(x),
        fits_frame(y),
        sent(before, between, x, Ok(())),
        sent(between, after, y, Ok(())),
    ensures
        after == before + wire(x) + wire(y),
        first_message(after.skip(before.len() as int)) == Some(x),
        first_message(after.skip((before.len() + wire(x).len()) as int)) == Some(y),
{
    assert(after.skip(before.len() as int) =~= wire(x) + wire(y));
    assert(after.skip((before.len() + wire(x).len()) as int) =~= wire(y) + Seq::<u8>::empty());
    lemma_wire_round_trip(x, wire(y));
    lemma_wire_round_trip(y, Seq::empty());
}

/// Two sends that succeed leave the two frames whole on the wire, in the order in which the
/// sends were let in, whichever of the two that was.
pub proof fn lemma_two_sends_in_either_order(
    before: Seq<u8>,
    between: Seq<u8>,
    after: Seq<u8>,
    x: Message<Seq<u8>>,
    y: Message<Seq<u8>>,
)
    requires
        (sent(before, between, x, Ok(())) && sent(between, after, y, Ok(()))) || (sent(
            before,
            between,
            y,
            Ok(()),
        ) && sent(between, after, x, Ok(()))),
    ensures
        after == before + wire(x) + wire(y) || after == before + wire(y) + wire(x),
{
}

/// Any number of sends, each let in after the one before has returned, leave on the wire the
/// frames of their messages, whole and in that order: one more send puts one more frame
/// behind them, and a reader of the wire gets back exactly the messages sent.
pub proof fn lemma_sends_make_a_stream(
    before: Seq<u8>,
    so_far: Seq<u8>,
    after: Seq<u8>,
    messages: Seq<Message<Seq<u8>>>,
    message: Message<Seq<u8>>,
    r: Result<(), Error>,
)
    requires
        all_fit(messages),
        fits_frame(message),
        so_far == before + stream(messages),
        sent(so_far, after, message, r),
    ensures
        after == before + stream(messages.push(message)),
        first_messages(after.skip(before.len() as int), messages.len() + 1) == Some(
            messages.push(message),
        ),
{
    let all = messages.push(message);
    lemma_stream_push(messages, message);
    lemma_skip_front(before, stream(all));
    assert(all_fit(all)) by {
        assert forall|i: int| 0 <= i < all.len() implies #[trigger] fits_frame(all[i]) by {
            if i < messages.len() {
                assert(fits_frame(messages[i]));
            }
        }
    }
    lemma_stream_round_trip(all, Seq::empty());
}

/// Connections represent a two-way bidirectional stream that you can send and receive messages
/// through.
pub struct Connection<C: ConnectionImpl> {
    internal: Channel<C>,
    state: Lifecycle,
}

impl<C: ConnectionImpl> Connection<C> {
    /// The transport that this connection owns, with the record of what has gone through it.
    pub closed spec fn channel(&self) -> Channel<C> {
        self.internal
    }

    /// The transport that this connection owns.
    pub open spec fn transport(&self) -> C {
        self.channel().transport()
    }

    /// Whether this connection is closed.
    pub closed spec fn closed(&self) -> bool {
        self.state.closed()
    }

    /// Every byte that this connection has handed to its transport for writing.
    pub open spec fn written(&self) -> Seq<u8> {
        self.channel().written()
    }

    /// Every byte that this connection has read from its transport.
    pub open spec fn consumed(&self) -> Seq<u8> {
        self.channel().consumed()
    }

    /// Whether everything that this connection has written was followed by a flush.
    pub open spec fn flushed(&self) -> bool {
        self.channel().flushed() == self.written().len()
    }

    /// Whether this connection has asked its transport to close.
    pub open spec fn transport_closed(&self) -> bool {
        self.channel().shut()
    }

    /// How many times this connection has asked its transport to close.
    pub open spec fn close_requests(&self) -> nat {
        self.channel().close_requests()
    }

    /// How many reads the transport of this connection has failed.
    pub open spec fn read_failures(&self) -> nat {
        self.channel().failed_reads()
    }

    /// How many writes and flushes the transport of this connection has failed.
    pub open spec fn write_failures(&self) -> nat {
        self.channel().failed_writes() + self.channel().failed_flushes()
    }

    /// The error of the read, write or flush that the transport of this connection failed
    /// last, if it has failed any.
    pub open spec fn last_failure(&self) -> Option<std::io::Error> {
        self.channel().last_failure()
    }

    /// Whether `r`, if it is an I/O error, is the error that the transport of this connection
    /// has failed with last, unchanged; any other `r` leaves the latest failure as it was
    /// `before`.
    pub open spec fn hands_on<V>(&self, before: Self, r: Result<V, Error>) -> bool {
        match r {
            Err(Error::Io(e)) => self.last_failure() == Some(e),
            _ => self.last_failure() == before.last_failure(),
        }
    }

    /// An open connection on a transport of which nothing has been asked yet.
    pub closed spec fn fresh(internal: C) -> Connection<C> {
        Connection { internal: Channel::fresh(internal), state: Lifecycle::fresh() }
    }

    /// What is new about a new connection: it is open, it owns the transport, and nothing has
    /// been asked of the transport, no read, no write, no flush and no close.
    pub proof fn lemma_fresh(internal: C)
        ensures
            !Connection::fresh(internal).closed(),
            Connection::fresh(internal).channel() == Channel::fresh(internal),
            Connection::fresh(internal).transport() == internal,
            Connection::fresh(internal).channel().untouched(),
    {
        Channel::<C>::lemma_fresh(internal);
        Lifecycle::lemma_fresh();
    }

    /// Creates a new, open connection based on a specified [`ConnectionImpl`].
    /// Generally, you won't call this directly unless you're extending gipc.
    ///
    /// Nothing is asked of the transport in doing so.
    pub fn new(internal: C) -> (connection: Self)
        ensures
            connection == Connection::fresh(internal),
            !connection.closed(),
            connection.channel() == Channel::fresh(internal),
            connection.transport() == internal,
            connection.channel().untouched(),
    {
        Connection { internal: Channel::new(internal), state: Lifecycle::new() }
    }

    /// Check if this connection is closed.
    pub fn is_closed(&self) -> (closed: bool)
        ensures
            closed == self.closed(),
    {
        self.state.is_closed()
    }

    /// The check that stands before every send and receive: fails with
    /// [`Error::Closed(false)`](Error::Closed) if and only if this connection is closed.
    pub fn check_open(&self) -> (r: Result<(), Error>)
        ensures
            r == guard(self.closed()),
    {
        self.state.check_open()
    }

    /// What a send on an open connection asks of the transport, and what it reports: the wire
    /// form of the message in one write and then, if that write did not fail, one flush;
    /// nothing is read and nothing is closed. The send succeeds if and only if the transport
    /// fails neither.
    pub open spec fn sent_since(
        &self,
        before: Self,
        message: Message<Seq<u8>>,
        r: Result<(), Error>,
    ) -> bool {
        &&& sent(before.written(), self.written(), message, r)
        &&& self.channel().wrote_then_flushed(before.channel(), wire(message))
        &&& self.channel().same_reading(before.channel())
        &&& self.channel().same_closing(before.channel())
        &&& self.write_failures() == before.write_failures() + (if r is Ok {
            0nat
        } else {
            1nat
        })
        &&& self.closed() == before.closed()
    }

    /// What a receive on an open connection asks of the transport, and what it reports: the
    /// reads of one frame, no write and no flush. The transport is asked to close, once and
    /// last of all, if and only if the frame was the shutdown signal, which is if and only if
    /// the connection is closed afterwards.
    pub open spec fn received_since(&self, before: Self, r: Result<Vec<u8>, Error>) -> bool {
        &&& received(before.consumed(), self.consumed(), self.closed(), r)
        &&& self.channel().same_writing(before.channel())
        &&& self.channel().read_one_frame(before.channel())
        &&& self.read_failures() == before.read_failures() + (if r matches Err(Error::Io(_)) {
            1nat
        } else {
            0nat
        })
        &&& if self.closed() {
            self.channel().closed_once(before.channel())
        } else {
            self.channel().same_closing(before.channel())
        }
    }

    /// Send a message through this connection.
    /// Will immediately fail with [`Error::Closed(false)`](Error::Closed) if this connection is
    /// already closed, without touching the transport. A failure of the transport is reported
    /// and does not close the connection.
    pub fn send(&mut self, message_data: &Vec<u8>) -> (r: Result<(), Error>)
        ensures
            old(self).closed() ==> r == Err::<(), Error>(Error::Closed(false)) && *final(self)
                == *old(self),
            !old(self).closed() ==> final(self).sent_since(
                *old(self),
                Message::Data(message_data@),
                r,
            ),
            r is Ok ==> final(self).flushed(),
            final(self).hands_on(*old(self), r),
    {
        match self.state.check_open() {
            Ok(_) => {},
            Err(e) => { return Err(e); },
        }
        let message = Message::Data(message_data.clone());
        message.write_to(&mut self.internal)
    }

    /// What reading one frame on an open connection asks of the transport, and what it
    /// reports: the reads of one frame and nothing else. A body comes back if and only if the
    /// transport gave what it was asked for, and then the bytes taken are the frame of that
    /// body; a failure leaves at most the prefix consumed. The connection stays open.
    pub open spec fn took_frame_since(&self, before: Self, r: Result<Vec<u8>, Error>) -> bool {
        &&& !self.closed()
        &&& self.channel().same_writing(before.channel())
        &&& self.channel().same_closing(before.channel())
        &&& self.channel().read_one_frame(before.channel())
        &&& match r {
            Ok(body) => {
                &&& self.consumed() == before.consumed() + frame(body@)
                &&& self.read_failures() == before.read_failures()
            },
            Err(e) => {
                &&& e is Io
                &&& self.read_failures() == before.read_failures() + 1
                &&& before.consumed().is_prefix_of(self.consumed())
                &&& self.consumed().len() <= before.consumed().len() + 8
            },
        }
    }

    /// What an open connection does with a message that has arrived, and what it reports.
    ///
    /// Data is handed on unchanged and changes nothing. The shutdown signal closes the
    /// connection: the transport is asked to close, once and last of all, nothing is read or
    /// written, and the report is `Closed(true)`.
    pub open spec fn delivered_since<T>(
        &self,
        before: Self,
        message: Message<T>,
        r: Result<T, Error>,
    ) -> bool {
        &&& r == delivered(message)
        &&& match message {
            Message::Data(_) => *self == before,
            Message::ClosingConnection => {
                &&& self.closed()
                &&& self.channel().closed_once(before.channel())
                &&& self.channel().same_writing(before.channel())
                &&& self.channel().same_reading(before.channel())
                &&& self.last_failure() == before.last_failure()
            },
        }
    }

    /// Reads the next frame from this connection and returns what it carries, unopened: the
    /// first half of [`receive`](Self::receive), for a caller that opens envelopes itself
    /// and hands the message to [`deliver`](Self::deliver).
    /// Will immediately fail with [`Error::Closed(false)`](Error::Closed) if this connection is
    /// already closed, without touching the transport.
    pub fn receive_frame(&mut self) -> (r: Result<Vec<u8>, Error>)
        ensures
            old(self).closed() ==> r == Err::<Vec<u8>, Error>(Error::Closed(false)) && *final(self)
                == *old(self),
            !old(self).closed() ==> final(self).took_frame_since(*old(self), r),
            final(self).hands_on(*old(self), r),
    {
        match self.state.check_open() {
            Ok(_) => {},
            Err(e) => { return Err(e); },
        }
        crate::message::raw::read_from(&mut self.internal)
    }

    /// Takes in a message that has arrived on this connection: the second half of
    /// [`receive`](Self::receive). Data is returned unchanged. The shutdown signal closes this
    /// connection and its transport and is reported as [`Error::Closed(true)`](Error::Closed):
    /// it never reaches the caller as data.
    /// Will immediately fail with [`Error::Closed(false)`](Error::Closed) if this connection is
    /// already closed, without touching the transport.
    pub fn deliver<T>(&mut self, message: Message<T>) -> (r: Result<T, Error>)
        ensures
            old(self).closed() ==> r == Err::<T, Error>(Error::Closed(false)) && *final(self)
                == *old(self),
            !old(self).closed() ==> final(self).delivered_since(*old(self), message, r),
    {
        match self.state.check_open() {
            Ok(_) => {},
            Err(e) => { return Err(e); },
        }
        let r = self.state.deliver(message);
        if self.state.is_closed() {
            self.internal.close();
        }
        r
    }

    /// Receive a message from this connection.
    /// Will immediately fail with [`Error::Closed(false)`](Error::Closed) if this connection is
    /// already closed, or fail with [`Error::Closed(true)`](Error::Closed) if the peer's
    /// shutdown signal arrived in place of a message: the connection is then closed, and its
    /// transport has been asked to close, once.
    pub fn receive(&mut self) -> (r: Result<Vec<u8>, Error>)
        ensures
            old(self).closed() ==> r == Err::<Vec<u8>, Error>(Error::Closed(false)) && *final(self)
                == *old(self),
            !old(self).closed() ==> final(self).received_since(*old(self), r),
            final(self).hands_on(*old(self), r),
    {
        match self.state.check_open() {
            Ok(_) => {},
            Err(e) => { return Err(e); },
        }
        let message = match Message::read_from(&mut self.internal) {
            Ok(message) => message,
            Err(e) => { return Err(e); },
        };
        self.deliver(message)
    }

    /// How a send that is followed by a receive leaves an open connection.
    ///
    /// The send has run. If the transport has failed it, that is the error, and nothing has
    /// been asked of the transport since: nothing is read, nothing is closed. If not, the
    /// receive has run.
    pub open spec fn send_then_receive(
        before: Self,
        after: Self,
        data: Seq<u8>,
        r: Result<Vec<u8>, Error>,
    ) -> bool {
        &&& after.written() == before.written() + wire(Message::Data(data))
        &&& after.channel().wrote_then_flushed(before.channel(), wire(Message::Data(data)))
        &&& if after.write_failures() == before.write_failures() {
            &&& after.flushed()
            &&& received(before.consumed(), after.consumed(), after.closed(), r)
            &&& after.channel().read_one_frame(before.channel())
            &&& after.read_failures() == before.read_failures() + (if r matches Err(
                Error::Io(_),
            ) {
                1nat
            } else {
                0nat
            })
            &&& if after.closed() {
                after.channel().closed_once(before.channel())
            } else {
                after.channel().same_closing(before.channel())
            }
        } else {
            &&& after.write_failures() == before.write_failures() + 1
            &&& r matches Err(Error::Io(_))
            &&& after.channel().same_reading(before.channel())
            &&& after.channel().same_closing(before.channel())
            &&& !after.closed()
        }
    }

    /// Shorthand for calling [`send`](Self::send) and [`receive`](Self::receive) after one
    /// another. If the send fails, nothing is received and the error of the send is returned.
    pub fn send_and_receive(&mut self, data: &Vec<u8>) -> (r: Result<Vec<u8>, Error>)
        ensures
            old(self).closed() ==> r == Err::<Vec<u8>, Error>(Error::Closed(false)) && *final(self)
                == *old(self),
            !old(self).closed() ==> Self::send_then_receive(*old(self), *final(self), data@, r),
            final(self).hands_on(*old(self), r),
    {
        match self.send(data) {
            Ok(_) => {},
            Err(e) => { return Err(e); },
        }
        self.receive()
    }

    /// Closes this connection if it isn't already closed.
    /// This operation can never fail, and after the first call it does nothing.
    ///
    /// Closing tells the peer: the shutdown signal is sent, as a courtesy whose failure is
    /// ignored. Then the transport is asked to close, once, whatever became of the signal,
    /// and nothing is asked of it afterwards.
    pub fn close(&mut self)
        ensures
            final(self).closed(),
            old(self).closed() ==> *final(self) == *old(self),
            !old(self).closed() ==> {
                &&& final(self).channel().wrote_then_flushed(
                    old(self).channel(),
                    wire(Message::ClosingConnection),
                )
                &&& final(self).channel().closed_once(old(self).channel())
                &&& final(self).channel().same_reading(old(self).channel())
            },
    {
        if self.state.close() {
            let signal: Message<Vec<u8>> = Message::ClosingConnection;
            // it doesn't matter whether this succeeds since we're closing it either way
            let _ = signal.write_to(&mut self.internal);
            self.internal.close();
        }
    }
}

/// What a listener makes of the answer of its transport to an accept: a new stream is wrapped
/// into a new, open connection, and an error is handed on as it is.
pub open spec fn admitted<S: ConnectionImpl>(answer: Result<S, Error>) -> Result<
    Connection<S>,
    Error,
> {
    match answer {
        Ok(stream) => Ok(Connection::fresh(stream)),
        Err(e) => Err(e),
    }
}

/// Listeners allow you to wait until new [`Connection`s](Connection) can be established.
pub struct Listener<L: ListenerImpl> {
    internal: Gate<L>,
    state: Lifecycle,
}

impl<L: ListenerImpl> Listener<L> {
    /// The listening transport that this listener owns, with the record of what it has
    /// answered.
    pub closed spec fn gate(&self) -> Gate<L> {
        self.internal
    }

    /// The listening transport that this listener owns.
    pub open spec fn transport(&self) -> L {
        self.gate().transport()
    }

    /// Whether this listener is closed.
    pub closed spec fn closed(&self) -> bool {
        self.state.closed()
    }

    /// Every answer of the transport to a request for a new stream, oldest first.
    pub open spec fn accept_answers(&self) -> Seq<Result<L::Stream, Error>> {
        self.gate().accept_answers()
    }

    /// Every answer of the transport to a request to close, oldest first.
    pub open spec fn close_answers(&self) -> Seq<Result<(), Error>> {
        self.gate().close_answers()
    }

    /// Creates a new, open listener based on a specified [`ListenerImpl`].
    /// Generally, you won't call this directly unless you're extending gipc.
    pub fn new(internal: L) -> (listener: Self)
        ensures
            !listener.closed(),
            listener.gate() == Gate::fresh(internal),
            listener.transport() == internal,
            listener.gate().untouched(),
    {
        Listener { internal: Gate::new(internal), state: Lifecycle::new() }
    }

    /// Check if this listener is closed.
    pub fn is_closed(&self) -> (closed: bool)
        ensures
            closed == self.closed(),
    {
        self.state.is_closed()
    }

    /// Wraps what the transport has answered to an accept: a new stream becomes a new, open
    /// [`Connection`], an error stays the error it is.
    pub fn welcome(answer: Result<L::Stream, Error>) -> (r: Result<Connection<L::Stream>, Error>)
        ensures
            r == admitted(answer),
    {
        match answer {
            Ok(stream) => Ok(Connection::new(stream)),
            Err(e) => Err(e),
        }
    }

    /// Accept a new connection: asks the transport, once, for a new stream, waits until it
    /// yields one and wraps it into an open [`Connection`]. Fails with
    /// [`Error::Closed(false)`](Error::Closed) if this listener is already closed, without
    /// touching the transport. Accepting never closes the listener: the caller loops, and
    /// decides when to stop.
    pub fn accept(&mut self) -> (r: Result<Connection<L::Stream>, Error>)
        ensures
            final(self).closed() == old(self).closed(),
            final(self).close_answers() == old(self).close_answers(),
            old(self).closed() ==> (r matches Err(Error::Closed(false))) && *final(self) == *old(
                self,
            ),
            !old(self).closed() ==> {
                &&& final(self).accept_answers().len() == old(self).accept_answers().len() + 1
                &&& final(self).accept_answers().drop_last() == old(self).accept_answers()
                &&& r == admitted(final(self).accept_answers().last())
            },
    {
        match self.state.check_open() {
            Ok(_) => {},
            Err(e) => { return Err(e); },
        }
        let answer = self.internal.accept();
        Self::welcome(answer)
    }

    /// Closes this listener, returning any error that occurred whilst closing it.
    /// After calling this function, all other methods will immediately return
    /// [`Error::Closed(false)`](Error::Closed) if called, and so will this one: the listener
    /// is closed whatever the transport answers, and the transport is asked once.
    pub fn close(&mut self) -> (r: Result<(), Error>)
        ensures
            final(self).closed(),
            final(self).accept_answers() == old(self).accept_answers(),
            old(self).closed() ==> (r matches Err(Error::Closed(false))) && *final(self) == *old(
                self,
            ),
            !old(self).closed() ==> final(self).close_answers() == old(self).close_answers().push(
                r,
            ),
    {
        match self.state.close_once() {
            Ok(_) => {},
            Err(e) => { return Err(e); },
        }
        self.internal.close()
    }
}

/// A connection that a listener has accepted is open, and nothing has been asked of its
/// transport yet: no read, no write, no flush and no close.
pub proof fn lemma_accepted_connection_is_new<S: ConnectionImpl>(stream: S)
    ensures
        admitted(Ok::<S, Error>(stream)) matches Ok(connection) && !connection.closed()
            && connection.channel() == Channel::fresh(stream) && connection.transport() == stream
            && connection.channel().untouched(),
{
    Connection::<S>::lemma_fresh(stream);
}

/// Whether `states` are the states of a connection that is open at first and is then closed
/// again and again: the first close asks what a close of an open connection asks, and every
/// close after it leaves the connection as it found it.
pub open spec fn closed_repeatedly<C: ConnectionImpl>(states: Seq<Connection<C>>) -> bool {
    &&& states.len() >= 2
    &&& !states[0].closed()
    &&& states[1].closed()
    &&& states[1].channel().closed_once(states[0].channel())
    &&& forall|i: int| 2 <= i < states.len() ==> #[trigger] states[i] == states[i - 1]
}

/// However often a connection is closed, its transport is asked to close once, after the
/// shutdown signal, and nothing is asked of it afterwards.
pub proof fn lemma_closes_ask_once<C: ConnectionImpl>(states: Seq<Connection<C>>, n: int)
    requires
        closed_repeatedly(states),
        1 <= n < states.len(),
    ensures
        states[n] == states[1],
        states[n].closed(),
        states[n].close_requests() == states[0].close_requests() + 1,
        states[n].channel().written_at_close() == states[n].written().len(),
        states[n].channel().closed_last(),
    decreases n,
{
    if n > 1 {
        lemma_closes_ask_once(states, n - 1);
        assert(states[n] == states[n - 1]);
    }
}

} // verus!
