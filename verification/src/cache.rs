//! The cache layer: responses of the remote service kept for a time, and
//! images kept under a cache key.

pub mod cleanup;
pub mod image_cache;
pub mod like;
pub mod restore;
pub mod web_cache;
