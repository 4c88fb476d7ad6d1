//! Typed failures of the decision and normalization core.

use vstd::prelude::*;

verus! {

/// Every failure this library can raise. Each is terminal for the single
/// operation that raised it and carries the offending raw value where one
/// exists.
#[derive(PartialEq, Eq, Clone, Debug)]
pub enum CoreError {
    /// A registry or ecosystem label matched no ecosystem, neither by its
    /// canonical name nor by a recognized alias.
    UnknownEcosystem(String),
    /// A submission payload matched neither the descriptor-list shape nor
    /// the specifier-string-list shape.
    MalformedSubmission,
    /// A domain or severity label is not in the fixed enumeration or its
    /// aliases.
    UnknownTaxonomyLabel(String),
}

} // verus!
