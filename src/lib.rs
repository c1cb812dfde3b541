//! The record consistency core of a URL shortener: credential checks,
//! identifier rules, the encoding of records into store entries, and the
//! step-by-step create and delete flows that a store driver runs.
pub mod error;
pub mod record;
pub mod gate;
pub mod token;
pub mod store;
pub mod create;
pub mod delete;
pub mod listing;
pub mod laws;
