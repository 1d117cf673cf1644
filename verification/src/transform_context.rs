//! Per-traversal context handed down while the transformer visits a tree.

use vstd::prelude::*;

verus! {

/// What the traversal knows about the expression it visits; created fresh per
/// traversal scope and owned by the traversal call stack.  A mutator uses it
/// to pick a safer code-generation strategy, e.g. the operator-level
/// substitution for expressions statically known to be native numbers.
#[derive(Clone, Copy)]
pub struct TransformContext {
    pub is_numeric_expr: bool,
}

impl TransformContext {
    /// A context for an expression about which nothing is known statically.
    pub fn new() -> (r: Self)
        ensures
            !r.is_numeric_expr,
    {
        TransformContext { is_numeric_expr: false }
    }

    /// A context for an expression statically known to be a native number.
    pub fn for_numeric_expr() -> (r: Self)
        ensures
            r.is_numeric_expr,
    {
        TransformContext { is_numeric_expr: true }
    }

    /// Whether the visited expression is statically known to be of a native
    /// numeric type.
    pub fn is_num_expr(&self) -> (r: bool)
        ensures
            r == self.is_numeric_expr,
    {
        self.is_numeric_expr
    }
}

} // verus!
