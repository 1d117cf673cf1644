//! The immutable description of one mutation site.

use vstd::prelude::*;

verus! {

/// An opaque positional token: where in the source the mutated operator
/// stands, as a half-open byte range.
#[derive(Clone, Copy, PartialEq, Eq, Structural, Debug)]
pub struct Span {
    pub lo: usize,
    pub hi: usize,
}

/// One mutation site: which operator mutates, the label of the original
/// operator, the label of its mutated replacement, and the source location.
/// The registry assigns the identifier; records themselves carry none and are
/// immutable once created.
#[derive(Clone, Debug)]
pub struct Mutation {
    pub operator_name: String,
    pub original_label: String,
    pub mutated_label: String,
    pub location: Span,
}

impl Mutation {
    /// A record of one mutation of the named operator at the given location,
    /// with the labels of the original and the mutated code.
    pub fn new_spanned(
        operator_name: String,
        original_label: String,
        mutated_label: String,
        location: Span,
    ) -> (r: Mutation)
        ensures
            r.operator_name == operator_name,
            r.original_label == original_label,
            r.mutated_label == mutated_label,
            r.location == location,
    {
        Mutation { operator_name, original_label, mutated_label, location }
    }
}

} // verus!
