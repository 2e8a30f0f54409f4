//! A source-to-source pass that splits a generic function into a thin
//! generic wrapper and a concrete-typed inner implementation, so that the
//! bulk of the body is compiled once per distinct set of concrete argument
//! types rather than once per generic instantiation.
//!
//! The pass works on the syntactic model of [`ast`]: the classifier of
//! [`classify`] extracts the conversion bounds, the splitter of [`split`]
//! partitions the parameter list, the folder of [`fold`] removes the
//! now-redundant conversion calls, and [`transform`] assembles the outer
//! and inner declarations. [`laws`] states and proves the properties that
//! relate these pieces.

pub mod ast;
pub mod classify;
pub mod conversion;
pub mod fold;
pub mod laws;
pub mod split;
pub mod transform;
