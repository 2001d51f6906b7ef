//! The capabilities that a connection and a listener need from whatever carries their bytes.
//!
//! The protocol is written once against the two traits of this module. A transport is anything
//! that can read and write bytes and be closed; a listening transport is anything that can hand
//! out new transports and be closed. Nothing is assumed of an implementation: the protocol
//! states what it hands to a transport and what it makes of everything that may come back.
//!
//! A [`Channel`] is a transport together with the record of what has been asked of it: the
//! bytes handed to it, the bytes taken from it, how often it has been asked for each thing,
//! and what had gone before when it was asked to close. A [`Gate`] is the same for a
//! listening transport. The records exist in proofs only, and only this module can write
//! them. They are what the contracts of this crate are stated over: what a connection has
//! written, byte for byte, which bytes a result was read from, and that a transport is asked
//! to close once, after everything else.

use vstd::prelude::*;
use crate::error::Error;

verus! {

/// Internal implementation for a connection: a duplex byte stream.
pub trait ConnectionImpl {
    /// Reads exactly `len` bytes, waiting for them as long as it takes. Fails if the stream
    /// ends or errors before that many bytes have arrived.
    fn read_exact(&mut self, len: u64) -> Result<Vec<u8>, std::io::Error>;

    /// Writes all of `bytes`. On failure some leading part of them may have gone out.
    fn write_all(&mut self, bytes: &[u8]) -> Result<(), std::io::Error>;

    /// Pushes buffered bytes out to the peer.
    fn flush(&mut self) -> Result<(), std::io::Error>;

    /// Closes this connection implementation, as well as it can.
    /// After this function is called, no more functions will be called from the implementation.
    fn close(&mut self);
}

/// Internal implementation for a listener: a source of new transports.
pub trait ListenerImpl {
    /// The transport of each connection that this listener accepts.
    type Stream: ConnectionImpl;

    /// Accept a new connection.
    /// This function should _block_ until a connection can be established.
    fn accept(&mut self) -> Result<Self::Stream, Error>;

    /// Closes this listener implementation.
    /// After this function is called, no more functions will be called from the implementation.
    fn close(&mut self) -> Result<(), Error>;
}

/// `std::io::Error::from` on `ErrorKind::InvalidData`: the error for a transport that answers
/// a read with another number of bytes than it was asked for. Nothing is claimed of the value.
#[verifier::external_body]
fn invalid_data() -> std::io::Error {
    std::io::Error::from(std::io::ErrorKind::InvalidData)
}

/// A transport and the record of what has gone through it.
///
/// The record can be written by the methods of this type alone, and each of them writes it
/// around the one call that it makes to the transport.
pub struct Channel<T: ConnectionImpl> {
    transport: T,
    written: Ghost<Seq<u8>>,
    consumed: Ghost<Seq<u8>>,
    flushed: Ghost<nat>,
    reads: Ghost<nat>,
    writes: Ghost<nat>,
    flushes: Ghost<nat>,
    closes: Ghost<nat>,
    written_at_close: Ghost<nat>,
    closed_last: Ghost<bool>,
    failed_reads: Ghost<nat>,
    failed_writes: Ghost<nat>,
    failed_flushes: Ghost<nat>,
    failure: Ghost<Option<std::io::Error>>,
}

impl<T: ConnectionImpl> Channel<T> {
    /// The transport inside.
    pub closed spec fn transport(&self) -> T {
        self.transport
    }

    /// Every byte that has been handed to the transport for writing, oldest first, whether or
    /// not the transport reported success.
    pub closed spec fn written(&self) -> Seq<u8> {
        self.written@
    }

    /// Every byte that the transport has handed out in a read that succeeded, oldest first.
    pub closed spec fn consumed(&self) -> Seq<u8> {
        self.consumed@
    }

    /// How many bytes had been written when the transport was last asked to flush.
    pub closed spec fn flushed(&self) -> nat {
        self.flushed@
    }

    /// How many times the transport has been asked to read.
    pub closed spec fn read_requests(&self) -> nat {
        self.reads@
    }

    /// How many times the transport has been asked to write.
    pub closed spec fn write_requests(&self) -> nat {
        self.writes@
    }

    /// How many times the transport has been asked to flush.
    pub closed spec fn flush_requests(&self) -> nat {
        self.flushes@
    }

    /// How many times the transport has been asked to close.
    pub closed spec fn close_requests(&self) -> nat {
        self.closes@
    }

    /// How many bytes had been written when the transport was last asked to close.
    pub closed spec fn written_at_close(&self) -> nat {
        self.written_at_close@
    }

    /// Whether the latest thing asked of the transport was to close: nothing has been asked
    /// of it since.
    pub closed spec fn closed_last(&self) -> bool {
        self.closed_last@
    }

    /// Whether the transport has been asked to close.
    pub open spec fn shut(&self) -> bool {
        self.close_requests() > 0
    }

    /// How many reads have not given what was asked for.
    pub closed spec fn failed_reads(&self) -> nat {
        self.failed_reads@
    }

    /// How many writes the transport has failed.
    pub closed spec fn failed_writes(&self) -> nat {
        self.failed_writes@
    }

    /// How many flushes the transport has failed.
    pub closed spec fn failed_flushes(&self) -> nat {
        self.failed_flushes@
    }

    /// The error of the read, write or flush that failed last, if any has failed.
    pub closed spec fn last_failure(&self) -> Option<std::io::Error> {
        self.failure@
    }

    /// Whether no write and no flush has been asked of the transport since `before`.
    pub open spec fn same_writing(&self, before: Self) -> bool {
        &&& self.written() == before.written()
        &&& self.flushed() == before.flushed()
        &&& self.write_requests() == before.write_requests()
        &&& self.flush_requests() == before.flush_requests()
        &&& self.failed_writes() == before.failed_writes()
        &&& self.failed_flushes() == before.failed_flushes()
    }

    /// Whether no read has been asked of the transport since `before`.
    pub open spec fn same_reading(&self, before: Self) -> bool {
        &&& self.consumed() == before.consumed()
        &&& self.read_requests() == before.read_requests()
        &&& self.failed_reads() == before.failed_reads()
    }

    /// Whether the transport has not been asked to close since `before`.
    pub open spec fn same_closing(&self, before: Self) -> bool {
        &&& self.close_requests() == before.close_requests()
        &&& self.written_at_close() == before.written_at_close()
    }

    /// Whether what has been asked of the transport since `before`, apart from reads and a
    /// close, is to write `bytes` in one piece and then, if and only if the transport did not
    /// fail that write, to flush once.
    pub open spec fn wrote_then_flushed(&self, before: Self, bytes: Seq<u8>) -> bool {
        &&& self.written() == before.written() + bytes
        &&& self.write_requests() == before.write_requests() + 1
        &&& if self.failed_writes() == before.failed_writes() {
            &&& self.flush_requests() == before.flush_requests() + 1
            &&& self.flushed() == self.written().len()
            &&& self.failed_flushes() <= before.failed_flushes() + 1
        } else {
            &&& self.failed_writes() == before.failed_writes() + 1
            &&& self.flush_requests() == before.flush_requests()
            &&& self.flushed() == before.flushed()
            &&& self.failed_flushes() == before.failed_flushes()
        }
    }

    /// Whether the reads asked of the transport since `before` are those of one frame: one for
    /// the prefix and, if and only if that gave eight bytes, one for what the prefix announces.
    pub open spec fn read_one_frame(&self, before: Self) -> bool {
        self.read_requests() == before.read_requests() + (if self.consumed()
            == before.consumed() {
            1nat
        } else {
            2nat
        })
    }

    /// Whether the transport has been asked to close exactly once since `before`, after
    /// everything that has been written, and has been asked nothing since.
    pub open spec fn closed_once(&self, before: Self) -> bool {
        &&& self.close_requests() == before.close_requests() + 1
        &&& self.written_at_close() == self.written().len()
        &&& self.closed_last()
    }

    /// Whether `r` brings the news of this channel's latest failure or, being a success, leaves
    /// the channel with the same latest failure as `before`.
    pub open spec fn reports<V>(&self, before: Self, r: Result<V, std::io::Error>) -> bool {
        match r {
            Ok(_) => self.last_failure() == before.last_failure(),
            Err(e) => self.last_failure() == Some(e),
        }
    }

    /// A transport of which nothing has been asked yet.
    pub closed spec fn fresh(transport: T) -> Channel<T> {
        Channel {
            transport,
            written: Ghost(Seq::empty()),
            consumed: Ghost(Seq::empty()),
            flushed: Ghost(0),
            reads: Ghost(0),
            writes: Ghost(0),
            flushes: Ghost(0),
            closes: Ghost(0),
            written_at_close: Ghost(0),
            closed_last: Ghost(false),
            failed_reads: Ghost(0),
            failed_writes: Ghost(0),
            failed_flushes: Ghost(0),
            failure: Ghost(None),
        }
    }

    /// Whether nothing has been asked of the transport yet: no read, no write, no flush and no
    /// close, so that nothing has been written, consumed or failed.
    pub open spec fn untouched(&self) -> bool {
        &&& self.written() == Seq::<u8>::empty()
        &&& self.consumed() == Seq::<u8>::empty()
        &&& self.flushed() == 0
        &&& self.read_requests() == 0
        &&& self.write_requests() == 0
        &&& self.flush_requests() == 0
        &&& self.close_requests() == 0
        &&& self.written_at_close() == 0
        &&& !self.closed_last()
        &&& self.failed_reads() == 0
        &&& self.failed_writes() == 0
        &&& self.failed_flushes() == 0
        &&& self.last_failure() is None
    }

    /// What is new about a new channel.
    pub proof fn lemma_fresh(transport: T)
        ensures
            Channel::fresh(transport).transport() == transport,
            Channel::fresh(transport).untouched(),
    {
    }

    /// Starts the record of a transport, of which nothing is asked in doing so.
    pub fn new(transport: T) -> (channel: Self)
        ensures
            channel == Channel::fresh(transport),
            channel.transport() == transport,
            channel.untouched(),
    {
        Channel {
            transport,
            written: Ghost(Seq::empty()),
            consumed: Ghost(Seq::empty()),
            flushed: Ghost(0),
            reads: Ghost(0),
            writes: Ghost(0),
            flushes: Ghost(0),
            closes: Ghost(0),
            written_at_close: Ghost(0),
            closed_last: Ghost(false),
            failed_reads: Ghost(0),
            failed_writes: Ghost(0),
            failed_flushes: Ghost(0),
            failure: Ghost(None),
        }
    }

    /// Asks the transport once for exactly `len` bytes. What comes back has that length or is
    /// an error: an answer of another length is turned into one.
    pub fn read_exact(&mut self, len: u64) -> (r: Result<Vec<u8>, std::io::Error>)
        ensures
            final(self).same_writing(*old(self)),
            final(self).same_closing(*old(self)),
            final(self).read_requests() == old(self).read_requests() + 1,
            !final(self).closed_last(),
            final(self).reports(*old(self), r),
            match r {
                Ok(bytes) => {
                    &&& bytes@.len() == len
                    &&& final(self).consumed() == old(self).consumed() + bytes@
                    &&& final(self).failed_reads() == old(self).failed_reads()
                },
                Err(_) => {
                    &&& final(self).consumed() == old(self).consumed()
                    &&& final(self).failed_reads() == old(self).failed_reads() + 1
                },
            },
    {
        proof {
            self.reads@ = self.reads@ + 1;
            self.closed_last@ = false;
        }
        let answer = self.transport.read_exact(len);
        match answer {
            Ok(bytes) => {
                if bytes.len() as u64 == len {
                    proof {
                        self.consumed@ = self.consumed@ + bytes@;
                    }
                    Ok(bytes)
                } else {
                    let e = invalid_data();
                    proof {
                        self.failed_reads@ = self.failed_reads@ + 1;
                        self.failure@ = Some(e);
                    }
                    Err(e)
                }
            },
            Err(e) => {
                proof {
                    self.failed_reads@ = self.failed_reads@ + 1;
                    self.failure@ = Some(e);
                }
                Err(e)
            },
        }
    }

    /// Asks the transport once to write all of `bytes`.
    pub fn write_all(&mut self, bytes: &[u8]) -> (r: Result<(), std::io::Error>)
        ensures
            final(self).same_reading(*old(self)),
            final(self).same_closing(*old(self)),
            final(self).written() == old(self).written() + bytes@,
            final(self).write_requests() == old(self).write_requests() + 1,
            final(self).flushed() == old(self).flushed(),
            final(self).flush_requests() == old(self).flush_requests(),
            final(self).failed_flushes() == old(self).failed_flushes(),
            !final(self).closed_last(),
            final(self).reports(*old(self), r),
            final(self).failed_writes() == old(self).failed_writes() + (if r is Ok {
                0nat
            } else {
                1nat
            }),
    {
        proof {
            self.written@ = self.written@ + bytes@;
            self.writes@ = self.writes@ + 1;
            self.closed_last@ = false;
        }
        match self.transport.write_all(bytes) {
            Ok(_) => Ok(()),
            Err(e) => {
                proof {
                    self.failed_writes@ = self.failed_writes@ + 1;
                    self.failure@ = Some(e);
                }
                Err(e)
            },
        }
    }

    /// Asks the transport once to push buffered bytes out to the peer.
    pub fn flush(&mut self) -> (r: Result<(), std::io::Error>)
        ensures
            final(self).same_reading(*old(self)),
            final(self).same_closing(*old(self)),
            final(self).written() == old(self).written(),
            final(self).write_requests() == old(self).write_requests(),
            final(self).failed_writes() == old(self).failed_writes(),
            final(self).flushed() == old(self).written().len(),
            final(self).flush_requests() == old(self).flush_requests() + 1,
            !final(self).closed_last(),
            final(self).reports(*old(self), r),
            final(self).failed_flushes() == old(self).failed_flushes() + (if r is Ok {
                0nat
            } else {
                1nat
            }),
    {
        proof {
            self.flushed@ = self.written@.len();
            self.flushes@ = self.flushes@ + 1;
            self.closed_last@ = false;
        }
        match self.transport.flush() {
            Ok(_) => Ok(()),
            Err(e) => {
                proof {
                    self.failed_flushes@ = self.failed_flushes@ + 1;
                    self.failure@ = Some(e);
                }
                Err(e)
            },
        }
    }

    /// Asks the transport once to close.
    pub fn close(&mut self)
        ensures
            final(self).same_writing(*old(self)),
            final(self).same_reading(*old(self)),
            final(self).last_failure() == old(self).last_failure(),
            final(self).close_requests() == old(self).close_requests() + 1,
            final(self).written_at_close() == old(self).written().len(),
            final(self).closed_last(),
    {
        proof {
            self.closes@ = self.closes@ + 1;
            self.written_at_close@ = self.written@.len();
            self.closed_last@ = true;
        }
        self.transport.close()
    }
}

/// A listening transport and the record of what it has answered.
///
/// The record can be written by the methods of this type alone, and each of them writes it
/// around the one call that it makes to the transport.
pub struct Gate<L: ListenerImpl> {
    transport: L,
    accepted: Ghost<Seq<Result<L::Stream, Error>>>,
    closed: Ghost<Seq<Result<(), Error>>>,
}

impl<L: ListenerImpl> Gate<L> {
    /// The listening transport inside.
    pub closed spec fn transport(&self) -> L {
        self.transport
    }

    /// Every answer of the transport to a request for a new stream, oldest first.
    pub closed spec fn accept_answers(&self) -> Seq<Result<L::Stream, Error>> {
        self.accepted@
    }

    /// Every answer of the transport to a request to close, oldest first.
    pub closed spec fn close_answers(&self) -> Seq<Result<(), Error>> {
        self.closed@
    }

    /// A listening transport of which nothing has been asked yet.
    pub closed spec fn fresh(transport: L) -> Gate<L> {
        Gate { transport, accepted: Ghost(Seq::empty()), closed: Ghost(Seq::empty()) }
    }

    /// Whether nothing has been asked of the listening transport yet.
    pub open spec fn untouched(&self) -> bool {
        &&& self.accept_answers() == Seq::<Result<L::Stream, Error>>::empty()
        &&& self.close_answers() == Seq::<Result<(), Error>>::empty()
    }

    /// What is new about a new gate.
    pub proof fn lemma_fresh(transport: L)
        ensures
            Gate::fresh(transport).transport() == transport,
            Gate::fresh(transport).untouched(),
    {
    }

    /// Starts the record of a listening transport, of which nothing is asked in doing so.
    pub fn new(transport: L) -> (gate: Self)
        ensures
            gate == Gate::fresh(transport),
            gate.transport() == transport,
            gate.untouched(),
    {
        Gate { transport, accepted: Ghost(Seq::empty()), closed: Ghost(Seq::empty()) }
    }

    /// Asks the transport once for a new stream and hands its answer on.
    pub fn accept(&mut self) -> (r: Result<L::Stream, Error>)
        ensures
            final(self).accept_answers() == old(self).accept_answers().push(r),
            final(self).close_answers() == old(self).close_answers(),
    {
        let answer = self.transport.accept();
        proof {
            self.accepted@ = self.accepted@.push(answer);
        }
        answer
    }

    /// Asks the transport once to close and hands its answer on.
    pub fn close(&mut self) -> (r: Result<(), Error>)
        ensures
            final(self).close_answers() == old(self).close_answers().push(r),
            final(self).accept_answers() == old(self).accept_answers(),
    {
        let answer = self.transport.close();
        proof {
            self.closed@ = self.closed@.push(answer);
        }
        answer
    }
}

} // verus!
