//! What surrounds a fetch: the cache of raw responses.

pub mod cache;

pub use cache::{CacheEntry, MemoryCache};
