//! Management of "template inheritance" across git repositories: a repository
//! can track one or more remote template repositories and periodically merge
//! upstream template changes into itself.
//!
//! This crate holds the decision logic of that process, fully verified:
//! branch-name resolution, remote-record parsing, discovery of managed
//! remotes, the merge-orchestration protocol, and the bulk-propagation
//! policy. Everything that touches a real git repository is driven by an
//! unverified front end that performs the subprocess calls this library asks
//! for and feeds their results back in as plain values.

pub mod branch;
pub mod errors;
pub mod merge;
pub mod propagate;
pub mod remote;
pub mod text;
pub mod validation;
pub mod visibility;
