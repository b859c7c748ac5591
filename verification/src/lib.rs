//! Per-connection driver core for a peer-to-peer networking stack.
//!
//! The driver sits between a stream multiplexer and an application-level
//! handler and orchestrates substream negotiation, upgrade timing,
//! keep-alive, and orderly shutdown.  Everything here is the synchronous
//! decision core: each poll of the surrounding event loop gathers the
//! answers of the asynchronous collaborators (handler, muxer, upgrade
//! futures) as plain values and hands them to [`connection::Connection::step`],
//! which applies the priority ladder and returns the action to take.

pub mod endpoint;
pub mod error;
pub mod id;
pub mod keep_alive;
pub mod protocols;
pub mod substream;
pub mod connection;
