//! Remote-control protocol layer for a live audio-processing graph.
//!
//! Datagram-encoded commands are decoded into a message tree, mapped to a
//! closed vocabulary of graph and transport operations, applied to a session
//! that models the signal graph and its mixer topology, and answered with one
//! structured response per completed operation. The signal-processing engine
//! itself (node execution, audio devices) is an external collaborator and is
//! out of scope here.

pub mod graph;
pub mod osc;
pub mod server;
