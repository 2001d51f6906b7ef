//! Connection and listener implementations.
//!
//! ## Connections
//! Connections represent bidirectional streams that gipc can communicate through.
//!
//! ## Listeners
//! Listeners allow programs to accept connections from other programs.
//!
//! ## Lifecycle
//! Both are open until they are closed and closed ever after. The decisions that hang on that
//! state are written once, in [`lifecycle`], for every way of driving a transport.

pub mod interprocess;
pub mod lifecycle;
pub mod sync;

pub use lifecycle::Lifecycle;
pub use sync::{Connection, Listener};
