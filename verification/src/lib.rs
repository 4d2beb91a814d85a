//! A small Raft consensus core: a local node that runs elections, answers
//! vote requests and accepts entries from a leader, talking to its peers,
//! its log storage and its state machine through traits that users implement.

pub mod log;
pub mod node;
pub mod term;
pub mod simple_node;
pub mod wire;
