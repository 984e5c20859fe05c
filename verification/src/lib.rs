//! A cache-aside lookup for keyword searches: consult a store whose entries
//! expire, ask the upstream once on a miss, and keep what came back.
//!
//! - [`model`]: the result set that is cached.
//! - [`lookup`]: the lookup as a state machine that names each request and is
//!   told how it ended, for callers that do their own reading and sending.
//! - [`store`]: a store with expiring entries, held in memory.
//! - [`service`]: the lookup run to its end against such a store.
//! - [`request`]: the keyword of an incoming address, and the request that
//!   goes upstream.
//! - [`laws`]: what holds of every lookup.

pub mod laws;
pub mod lookup;
pub mod model;
pub mod request;
pub mod service;
pub mod store;
