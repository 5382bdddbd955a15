//! A normalization layer over a third-party game-version metadata feed.
//!
//! The library exposes a JSON document model, a normalizer that maps a
//! per-version detail document onto a fixed schema, a parser for the
//! top-level version manifest, and two time-to-live caches. All logic is
//! verified; network transport and HTTP routing live outside the library.

pub mod cache;
pub mod json;
pub mod manifest;
pub mod normalize;
pub mod types;
