//! Coordination core of a peer-replicated, content-addressed runtime:
//! a single-writer action reducer over a versioned state store, a
//! poll-based suspend/resume bridge for network queries, the entry
//! validation workflow (hold / remove), and the pending-validation
//! retry scheduler.

pub mod assoc;
pub mod init;
pub mod query;
pub mod state;
pub mod types;
pub mod validation;
