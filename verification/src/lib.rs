//! A cluster node for a message-passing test harness: nodes exchange
//! request/reply messages, learn broadcast values, and converge on a shared
//! value set by anti-entropy gossip over an externally assigned neighbor
//! topology.
//!
//! The crate holds the verified core: the wire envelope and reply
//! correlation rules, the broadcast/gossip engine with its per-neighbor
//! knowledge estimates, and the unique-id generator. Reading stdin, writing
//! stdout and the background tick timer live outside the library and hand it
//! plain values.

pub mod protocol;
pub mod node;
pub mod guid;
pub mod laws;
mod rng;
