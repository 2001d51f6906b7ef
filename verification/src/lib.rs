//! **General Interprocess Communication** (or *gipc*) abstracts away the common parts of
//! interprocess communication: framing, the message envelope, and the orderly shutdown of a
//! connection.
//!
//! ## Crate structure
//!
//! The [`connection`] module holds the connection and listener state machines, written once
//! against the transport capabilities of the [`transport`] module.
//! The [`message`] module describes the protocol that goes over the wire, down to the byte.
//! Any error the crate can return is in the [`error`] module.
//!
//! The crate is verified: each function is proved to keep the contract in its header. The few
//! calls that leave the crate, into `byteorder`, `tokio` and parts of the standard library,
//! stand in functions of their own whose contracts are taken on trust and say so.

pub mod connection;
pub mod error;
pub mod message;
pub mod text;
pub mod transport;

pub use error::Error;
