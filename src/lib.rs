//! Supervision of one long-running server process: its lifecycle state
//! machine, the decisions taken on process events, and the multicast of its
//! console output to independent subscribers.

pub mod channel;
pub mod config;
pub mod error;
pub mod manifest;
pub mod signal;
pub mod status;
pub mod stream;
pub mod supervisor;
pub mod version;
