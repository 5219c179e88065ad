//! A reversible byte-wise obfuscation library: a repeating XOR mask keyed by a
//! fixed 32-bit constant, together with the decision logic of the file
//! pipeline that surrounds it (ingest, transform, materialize, commit).
//!
//! The transform and the pipeline's decisions are verified; the driver that
//! performs the actual filesystem work lives outside this crate and reports
//! each outcome back as an event.

pub mod materialize;
pub mod pipeline;
pub mod transform;
