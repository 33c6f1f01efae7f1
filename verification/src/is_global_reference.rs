//! What the side-effect analysis asks of the surrounding semantic analysis.
use vstd::prelude::*;

use crate::ast::IdentifierReference;

verus! {

/// Tells whether an identifier reference refers to a global binding.
///
/// Implementations name what they answer for each reference with
/// `global_reference_status`, and `is_global_reference` returns that answer.
pub trait IsGlobalReference {
    /// The answer for `reference`: `Some(true)` when it refers to a global
    /// binding, `Some(false)` when it refers to a local one, `None` when that
    /// is not known.
    spec fn global_reference_status(&self, reference: IdentifierReference) -> Option<bool>;

    /// Whether `reference` refers to a global binding, if that is known.
    fn is_global_reference(&self, reference: &IdentifierReference) -> (r: Option<bool>)
        ensures
            r == self.global_reference_status(*reference),
    ;
}

/// For each reference, whether it refers to a global binding: `Some(true)`
/// when it does, `Some(false)` when it refers to a local one, `None` when that
/// is not known.
pub type ReferenceStatus = spec_fn(IdentifierReference) -> Option<bool>;

/// What `is_global_reference` answers for each reference, as a function.
pub open spec fn reference_status<G: IsGlobalReference>(
    is_global_reference: &G,
) -> ReferenceStatus {
    |reference: IdentifierReference| is_global_reference.global_reference_status(reference)
}

/// Answers `None` for every reference: no reference is known to be global or local.
pub struct WithoutGlobalReferenceInformation;

impl IsGlobalReference for WithoutGlobalReferenceInformation {
    open spec fn global_reference_status(&self, reference: IdentifierReference) -> Option<bool> {
        None
    }

    fn is_global_reference(&self, reference: &IdentifierReference) -> (r: Option<bool>) {
        None
    }
}

} // verus!
