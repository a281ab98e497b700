//! A compile-time signature transformer.
//!
//! Given the description of a function whose declared return type is a
//! `Result`, the transformer plans a sibling wrapper function with the same
//! signature except that the failure half of the return type becomes plain
//! text: the wrapper forwards the call and renders any failure value with the
//! verbose (alternate) display form, so that callers across any boundary only
//! ever see the success payload or a string.
//!
//! The transformer works on a plain model of the function's syntax
//! ([`model::FnModel`]) and produces a [`plan::TransformPlan`] describing
//! exactly which two functions to emit: either the original unchanged plus a
//! wrapper under a derived name (the flat strategy, the default), or the
//! original hidden under an internal name with the wrapper taking over the
//! original's name and visibility (the hidden-inner strategy, selected by an
//! explicit marker).

pub mod laws;
pub mod model;
pub mod plan;
pub mod text;
pub mod transform;

pub use transform::stringify_err;
