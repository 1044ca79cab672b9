//! Bounded-concurrency fetch-and-extract pipeline for playlist manifests.
//!
//! A manifest lists archive bundles, each identified by a key. Every item is
//! downloaded through a rate-limited endpoint, staged to temporary storage,
//! and extracted into its own subdirectory of a destination root. One item's
//! failure never disturbs the others: the batch always runs every item to a
//! terminal outcome.

pub mod batch;
pub mod gate;
pub mod manifest;
pub mod outcome;
pub mod pipeline;
