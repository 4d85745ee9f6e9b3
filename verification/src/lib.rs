//! Third-party dependency provenance and notice generation.
//!
//! The crate models the pipeline that turns acquired package artifacts into a
//! compliance document: acquisition planning with a primary/fallback channel,
//! manifest parsing, license resolution and text generation, a provenance
//! ledger for distributed files, and a deterministic notice renderer.

pub mod acquisition;
pub mod distributed_file;
pub mod header_processing;
pub mod license;
pub mod markdown;
pub mod metadata;
pub mod notice;
pub mod nuspec;
pub mod text;
pub mod version;
