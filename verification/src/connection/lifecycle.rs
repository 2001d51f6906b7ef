//! The open/closed state machine that connections and listeners share.
//!
//! Nothing here touches a transport. Each step takes the state and what has happened and gives
//! the next state and what to report, so that a blocking caller and a caller under a scheduler
//! come to the same decisions.

use vstd::prelude::*;
use crate::error::Error;
use crate::message::Message;

verus! {

/// What an operation that needs an open instance reports before it does anything.
pub open spec fn guard(closed: bool) -> Result<(), Error> {
    if closed {
        Err(Error::Closed(false))
    } else {
        Ok(())
    }
}

/// What the receiver of a message reports: the data unchanged, or that the peer's shutdown
/// signal has closed the connection in this very operation.
pub open spec fn delivered<T>(message: Message<T>) -> Result<T, Error> {
    match message {
        Message::ClosingConnection => Err(Error::Closed(true)),
        Message::Data(data) => Ok(data),
    }
}

/// Whether an instance is closed after it has received `message`.
pub open spec fn closed_after_delivery<T>(closed: bool, message: Message<T>) -> bool {
    closed || message is ClosingConnection
}

/// The state of a connection or of a listener: open, or closed for good.
#[derive(Debug)]
pub struct Lifecycle {
    closed: bool,
}

impl Lifecycle {
    /// Whether the instance is closed.
    pub closed spec fn closed(&self) -> bool {
        self.closed
    }

    /// The state of a new instance.
    pub closed spec fn fresh() -> Lifecycle {
        Lifecycle { closed: false }
    }

    /// A new instance is open.
    pub proof fn lemma_fresh()
        ensures
            !Lifecycle::fresh().closed(),
    {
    }

    /// The state of a new instance: open.
    pub fn new() -> (state: Self)
        ensures
            state == Lifecycle::fresh(),
            !state.closed(),
    {
        Lifecycle { closed: false }
    }

    /// Check if the instance is closed.
    pub fn is_closed(&self) -> (closed: bool)
        ensures
            closed == self.closed(),
    {
        self.closed
    }

    /// The check that stands before every send, receive and accept: fails with
    /// [`Error::Closed(false)`](Error::Closed) if and only if the instance is already closed.
    pub fn check_open(&self) -> (r: Result<(), Error>)
        ensures
            r == guard(self.closed()),
    {
        if self.closed {
            Err(Error::Closed(false))
        } else {
            Ok(())
        }
    }

    /// Takes in a message that has arrived. Data is handed on unchanged and leaves the state as
    /// it is. The shutdown signal closes the instance and is reported as
    /// [`Error::Closed(true)`](Error::Closed): it never reaches the caller as data.
    pub fn deliver<T>(&mut self, message: Message<T>) -> (r: Result<T, Error>)
        ensures
            r == delivered(message),
            final(self).closed() == closed_after_delivery(old(self).closed(), message),
            message is Data ==> *final(self) == *old(self),
    {
        match message {
            Message::ClosingConnection => {
                self.closed = true;
                Err(Error::Closed(true))
            },
            Message::Data(data) => Ok(data),
        }
    }

    /// Closes the instance, as a connection closes: any number of times. Returns whether this
    /// call was the one that closed it, that is, whether the peer is still to be told and the
    /// transport still to be closed.
    pub fn close(&mut self) -> (was_open: bool)
        ensures
            final(self).closed(),
            was_open == !old(self).closed(),
            old(self).closed() ==> *final(self) == *old(self),
    {
        let was_open = !self.closed;
        self.closed = true;
        was_open
    }

    /// Closes the instance, as a listener closes: once. A second call fails with
    /// [`Error::Closed(false)`](Error::Closed).
    pub fn close_once(&mut self) -> (r: Result<(), Error>)
        ensures
            final(self).closed(),
            r == guard(old(self).closed()),
            old(self).closed() ==> *final(self) == *old(self),
    {
        if self.closed {
            Err(Error::Closed(false))
        } else {
            self.closed = true;
            Ok(())
        }
    }
}

/// Once closed, every operation that needs an open instance fails with `Closed(false)`.
pub proof fn lemma_closed_is_refused(state: Lifecycle)
    requires
        state.closed(),
    ensures
        guard(state.closed()) == Err::<(), Error>(Error::Closed(false)),
{
}

/// No message that arrives reopens an instance: closed stays closed.
pub proof fn lemma_closed_stays_closed<T>(closed: bool, message: Message<T>)
    requires
        closed,
    ensures
        closed_after_delivery(closed, message),
{
}

/// The shutdown signal closes the receiver and is reported as closed by the operation; data
/// never does either.
pub proof fn lemma_only_the_signal_closes<T>(closed: bool, message: Message<T>)
    ensures
        message is ClosingConnection ==> closed_after_delivery(closed, message) && delivered(
            message,
        ) == Err::<T, Error>(Error::Closed(true)),
        message matches Message::Data(data) ==> closed_after_delivery(closed, message) == closed
            && delivered(message) == Ok::<T, Error>(data),
{
}

} // verus!
