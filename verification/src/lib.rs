//! Named-pipe fan-out multiplexer: configuration model, INI-driven setup, and
//! the reader/writer coordination logic that replicates lines from source
//! FIFOs onto sets of destination FIFOs.
//!
//! This crate holds the decision logic of the engine: configuration parsing,
//! the per-group run/close/exit signalling discipline, the fan-out over
//! bounded channels, and the writer's broken-pipe recovery. The surrounding
//! binary owns the threads, the readiness polling and the file descriptors,
//! and drives these functions in its loops.

pub mod config;
pub mod parser;
pub mod signal;
pub mod channel;
pub mod fifo;
pub mod reader;
pub mod writer;

