//! Whether evaluating an expression may change application state.
pub mod semantics;
pub mod may_have_side_effects;
pub mod laws;
pub mod node_laws;
pub mod operand_laws;
