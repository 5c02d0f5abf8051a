//! Wire codec and batch pipeline for a source-control data service.
//!
//! The crate holds the value types exchanged with clients, their companion
//! wire forms, the conversions between the two, and the bookkeeping that
//! drives a batch of lookups with bounded concurrency.

pub mod blob;
pub mod commit;
pub mod encoding;
pub mod errors;
pub mod file;
pub mod handlers;
pub mod ids;
pub mod pipeline;
pub mod tagged;
