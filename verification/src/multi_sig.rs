//! Authorization by quorum.
//!
//! A group of owners controls what may be done: any action is first
//! proposed, then approved by as many owners as the group's threshold asks
//! for, and then executed, once. [`registry`] holds the owners and the
//! threshold, [`proposal`] one proposal and its approvals, [`group`] a
//! registry together with its proposals, and [`machine`] and [`guarantees`]
//! say what holds of every state that a group can reach.

pub mod error;
pub mod group;
pub mod guarantees;
pub mod machine;
pub mod proposal;
pub mod registry;
