//! Core of an event-driven static file server.
//!
//! The library holds everything the server decides: resolving a request line
//! to a status and a file path, assembling the wire bytes of a response, the
//! per-connection state machine, the generation-checked connection table, and
//! the bookkeeping model of the bounded worker pool.  The surrounding binary
//! performs the socket, file and thread work and feeds plain values in and
//! out of these functions.

pub mod conn;
pub mod pool;
pub mod reactor;
pub mod table;
pub mod response;
pub mod wire;
