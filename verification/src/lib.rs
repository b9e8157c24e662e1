//! The core of a response cache for HTTP services.
//!
//! A [`CacheService`] stands before an inner service and keeps what it answers. The first request
//! for a key is answered by the inner service, and the body of the response is copied to an entry as
//! it is streamed. Once it has been streamed to its end, requests for the same key are answered from
//! the entry, until the key is invalidated.
//!
//! Nothing here waits, locks or polls. Each function takes one step on the state that is passed to
//! it, and says what is to be done next: call the inner service, poll it, wait, or wake who waits.

pub mod body;
pub mod buffer;
pub mod cache;
pub mod dash;
pub mod entry;
pub mod invalidator;
pub mod key;
pub mod laws;
pub mod options;
pub mod response;
pub mod service;
pub mod trailers;
pub mod valids;

pub use entry::CachedRespInner;
pub use service::{CacheLayer, CacheService, CachingFut};
