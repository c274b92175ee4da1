//! Decides whether a node is active or standby from the output of a health
//! probe, and rewrites the node's service record in a service catalog so that
//! its tags carry that role.

pub mod role;
pub mod record;
pub mod catalog;
pub mod command;
pub mod update;
