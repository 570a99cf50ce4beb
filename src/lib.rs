//! The connection and transaction layer of a MongoDB connector: which handle
//! may use the session, how transactions are started and ended, and how
//! router results and driver failures reach the caller.

pub mod connection;
pub mod error;
pub mod laws;
pub mod outcome;
