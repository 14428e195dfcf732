//! An echo server's core: a single-writer store of integers fed by update
//! records, and the per-connection decision of what to send back.
pub mod connection;
pub mod store;
