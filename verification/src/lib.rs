//! Topic naming and glob-style topic matching for an event bus.

pub mod segments;
pub mod topic;
pub mod topics;
