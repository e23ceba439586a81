//! Client-side protocol engine for a remote time-series store reachable over
//! a persistent TCP connection.
//!
//! The library holds the verified core: request and response framing,
//! command classification, reply interpretation, the subscription state
//! machine, and endpoint configuration defaults. Socket I/O, threads and
//! environment lookup live outside the library and hand it plain values.

pub mod error;
pub mod frame;
pub mod text;
pub mod dispatch;
pub mod snapshot;
pub mod subscribe;
pub mod config;

pub use error::SeismicError;
