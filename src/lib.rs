//! Run-time function replacement for tests: synthesis of the interception
//! block placed at the start of each replaceable function, the registry of
//! installed replacements, and the per-call protocol that moves arguments
//! across the interception boundary.

pub mod header;
pub mod mocking;
pub mod package_info;
