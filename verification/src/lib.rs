//! A verified core for a bidirectional TCP throughput benchmark.
//!
//! Two endpoints sweep a fixed list of packet sizes; for each size, each end
//! first plays one role (sender or receiver) and then the other, measures the
//! bytes moved during a fixed window, and prints a human-scaled bit rate.
//! This crate holds the protocol logic: the role pair, the packet-size sweep
//! and its phase state machine, the rate formatting, and the run-configuration
//! rules. The surrounding binary performs the socket I/O and drives the state
//! machine with the outcomes of each operation.

pub mod config;
pub mod engine;
pub mod rate;
pub mod role;
