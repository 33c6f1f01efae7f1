//! Side-effect analysis of ECMAScript expressions.
//!
//! `ast` holds the syntax that the analysis reads, `is_global_reference` what
//! it asks of the semantic analysis around it, and `side_effects` the analysis
//! itself, the spec functions that define it and the laws proved of it.
pub mod ast;
pub mod is_global_reference;
pub mod side_effects;
pub mod strings;

pub use is_global_reference::{IsGlobalReference, WithoutGlobalReferenceInformation};
pub use side_effects::may_have_side_effects::MayHaveSideEffects;
