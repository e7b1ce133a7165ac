//! Platform-integration utilities for a desktop application:
//! wide-character path encoding for native OS calls, resolution of
//! OS-defined folder locations from raw lookup results, read-or-create
//! file access planning, and current-date generation and comparison.

pub mod codec;
pub mod dates;
pub mod folders;
pub mod store;
pub mod text;
