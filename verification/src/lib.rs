//! Cache-aside orchestration for serving image renditions.

pub mod codec;
pub mod delete;
pub mod fetch;
pub mod format;
pub mod ingest;
pub mod key;
pub mod laws;
pub mod preset;
pub mod store;
