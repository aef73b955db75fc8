//! Verified core of a multi-repository overview tool.
//!
//! The library holds the logic that interprets and renders repository
//! state: display-name derivation for configured repositories, the
//! two-character working-tree status codes, header lines, and the
//! progress, ref-update and summary lines streamed during a fetch.
//! Disk and network access (the VCS backend, configuration loading,
//! terminal colouring) live outside the library and hand it plain
//! values.

pub mod codes;
pub mod fetch;
pub mod repo;
pub mod status;
pub mod text;
pub mod title;
