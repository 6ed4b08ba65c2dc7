//! Decoded-image cache for a RAW photo viewer.
//!
//! The library turns a (file, target-resolution, processing-options) request
//! into a cached, reusable, memory-bounded decoded bitmap.  Requested pixel
//! sizes are quantized onto a small table of resolution levels so that nearby
//! window sizes share one cache entry; results are published under both the
//! requested key and the key carrying the options the decoder actually
//! applied; a byte-budgeted store evicts least-recently-used entries when the
//! budget would be exceeded; and a backlog of requests is coalesced so that
//! only the most recent one is ever serviced.
//!
//! Decoding itself is outside work: `ImageCache::get` hands the caller a
//! `PipelineRequest` on a miss, and `ImageCache::complete` folds the decoder's
//! outcome back into the store.

pub mod bucket;
pub mod ops;
pub mod output;
pub mod request;
pub mod cache;
pub mod coalesce;
pub mod event;
pub mod laws;
pub mod pattern;
pub mod resize;
pub mod store;

pub use bucket::find_level;
pub use bucket::smallest_size;
