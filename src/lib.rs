//! Archive extraction engine: format detection, entry path resolution and
//! per-entry extraction planning, with contracts proved by Verus.
pub mod entry_path;
pub mod error;
pub mod extract;
pub mod format;
pub mod header;
pub mod orchestrate;
pub mod text;
