//! Collects field-shape and call-target metadata from a typed program model.
//!
//! One pass walks every item in source order. For each field of a struct or
//! enum it emits a field record under the item's qualified path; for each
//! call-shaped expression in a function body (direct calls, operators,
//! indexing, compound assignment) it emits a call record once the target is
//! known, operators being resolved against a registry of trait implementations.

pub mod calls;
pub mod fields;
pub mod laws;
pub mod metacollect;
pub mod model;
pub mod names;
pub mod ops;
pub mod resolve;
