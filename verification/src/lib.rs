//! An in-process key-value cache with optional time-to-live expiration.
//!
//! The cache maps keys to timestamped entries. A time-to-live, fixed when the
//! cache is created, applies uniformly to every entry; expiration is lazy,
//! detected and purged only by the read that discovers it.

mod clock;

pub mod cache;
pub mod laws;

pub use cache::Entry;
pub use cache::SimpleCache;
