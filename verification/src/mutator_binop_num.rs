//! Mutator for binary numeric operators.
//!
//! The mutation swaps an operator for its paired one: addition for
//! subtraction, multiplication for division, and the other way round.  For
//! native numbers the swap never changes the result's type.  A non-numeric
//! operand type reaches the swapped operator through the speculative
//! `BinopNum` capability, and where the type lacks the swapped operation the
//! optimistic assumption has failed: activating the mutation must abort the
//! execution, while the inactive site still behaves exactly as the original
//! operation.

use vstd::prelude::*;

use crate::expr::BinOp;
use crate::expr::Expr;
use crate::expr::mutated_op;
use crate::expr::spec_eval;
use crate::expr::spec_mutated_op;
use crate::mutation::Mutation;
use crate::mutation::Span;
use crate::runtime_config::MutagenRuntimeConfig;
use crate::transform_context::TransformContext;
use crate::transform_info::SharedTransformInfo;

verus! {

/// Truncated division, as machine division of signed numbers rounds: towards
/// zero.
pub open spec fn spec_trunc_div(x: int, d: int) -> int {
    if x == 0 {
        0
    } else if x > 0 && d > 0 {
        x / d
    } else if x < 0 && d < 0 {
        ((x * -1) / (d * -1))
    } else if x < 0 {
        ((x * -1) / d) * -1
    } else {
        (x / (d * -1)) * -1
    }
}

/// The speculative capability of applying any of the four binary numeric
/// operators to a pair of values.
///
/// `spec_binop` names the operation's result where the operation is defined
/// for the operand type and the concrete operands: where the type lacks the
/// operation, or the concrete operands would overflow, underflow or divide by
/// zero, it is nothing, and applying the operator there must abort the
/// execution.
pub trait BinopNum<Rhs>: Sized {
    /// The type of the operation's result.
    type Output;

    /// The operation's result, where defined.
    spec fn spec_binop(self, op: BinOp, rhs: Rhs) -> Option<Self::Output>;

    /// Apply the operator to the operands.
    fn apply_binop(self, op: BinOp, rhs: Rhs) -> (r: Self::Output)
        requires
            self.spec_binop(op, rhs) is Some,
        ensures
            Some(r) == self.spec_binop(op, rhs),
    ;
}

impl BinopNum<u32> for u32 {
    type Output = u32;

    open spec fn spec_binop(self, op: BinOp, rhs: u32) -> Option<u32> {
        match op {
            BinOp::Add => if self + rhs <= u32::MAX {
                Some((self + rhs) as u32)
            } else {
                None
            },
            BinOp::Sub => if self >= rhs {
                Some((self - rhs) as u32)
            } else {
                None
            },
            BinOp::Mul => if self * rhs <= u32::MAX {
                Some((self * rhs) as u32)
            } else {
                None
            },
            BinOp::Div => if rhs != 0 {
                Some(self / rhs)
            } else {
                None
            },
        }
    }

    fn apply_binop(self, op: BinOp, rhs: u32) -> (r: u32) {
        match op {
            BinOp::Add => self + rhs,
            BinOp::Sub => self - rhs,
            BinOp::Mul => self * rhs,
            BinOp::Div => self / rhs,
        }
    }
}

impl BinopNum<u64> for u64 {
    type Output = u64;

    open spec fn spec_binop(self, op: BinOp, rhs: u64) -> Option<u64> {
        match op {
            BinOp::Add => if self + rhs <= u64::MAX {
                Some((self + rhs) as u64)
            } else {
                None
            },
            BinOp::Sub => if self >= rhs {
                Some((self - rhs) as u64)
            } else {
                None
            },
            BinOp::Mul => if self * rhs <= u64::MAX {
                Some((self * rhs) as u64)
            } else {
                None
            },
            BinOp::Div => if rhs != 0 {
                Some(self / rhs)
            } else {
                None
            },
        }
    }

    fn apply_binop(self, op: BinOp, rhs: u64) -> (r: u64) {
        match op {
            BinOp::Add => self + rhs,
            BinOp::Sub => self - rhs,
            BinOp::Mul => self * rhs,
            BinOp::Div => self / rhs,
        }
    }
}

impl BinopNum<usize> for usize {
    type Output = usize;

    open spec fn spec_binop(self, op: BinOp, rhs: usize) -> Option<usize> {
        match op {
            BinOp::Add => if self + rhs <= usize::MAX {
                Some((self + rhs) as usize)
            } else {
                None
            },
            BinOp::Sub => if self >= rhs {
                Some((self - rhs) as usize)
            } else {
                None
            },
            BinOp::Mul => if self * rhs <= usize::MAX {
                Some((self * rhs) as usize)
            } else {
                None
            },
            BinOp::Div => if rhs != 0 {
                Some(self / rhs)
            } else {
                None
            },
        }
    }

    fn apply_binop(self, op: BinOp, rhs: usize) -> (r: usize) {
        match op {
            BinOp::Add => self + rhs,
            BinOp::Sub => self - rhs,
            BinOp::Mul => self * rhs,
            BinOp::Div => self / rhs,
        }
    }
}

impl BinopNum<i32> for i32 {
    type Output = i32;

    open spec fn spec_binop(self, op: BinOp, rhs: i32) -> Option<i32> {
        match op {
            BinOp::Add => if i32::MIN <= self + rhs <= i32::MAX {
                Some((self + rhs) as i32)
            } else {
                None
            },
            BinOp::Sub => if i32::MIN <= self - rhs <= i32::MAX {
                Some((self - rhs) as i32)
            } else {
                None
            },
            BinOp::Mul => if i32::MIN <= self * rhs <= i32::MAX {
                Some((self * rhs) as i32)
            } else {
                None
            },
            BinOp::Div => if rhs != 0 && i32::MIN <= spec_trunc_div(self as int, rhs as int)
                <= i32::MAX {
                Some(spec_trunc_div(self as int, rhs as int) as i32)
            } else {
                None
            },
        }
    }

    fn apply_binop(self, op: BinOp, rhs: i32) -> (r: i32) {
        match op {
            BinOp::Add => self + rhs,
            BinOp::Sub => self - rhs,
            BinOp::Mul => self * rhs,
            BinOp::Div => self.checked_div(rhs).unwrap(),
        }
    }
}

/// Runtime dispatch of one instrumented binary operation: behaves as the
/// original operator unless the site's mutation is active, in which case the
/// paired operator applies.  Activating the mutation on operands that lack the
/// paired operation aborts the execution.
pub fn run<L: BinopNum<R>, R>(
    mutator_id: u32,
    op: BinOp,
    left: L,
    right: R,
    runtime: &MutagenRuntimeConfig,
) -> (r: L::Output)
    requires
        runtime.spec_is_active(mutator_id) ==> left.spec_binop(spec_mutated_op(op), right) is Some,
        !runtime.spec_is_active(mutator_id) ==> left.spec_binop(op, right) is Some,
    ensures
        runtime.spec_is_active(mutator_id) ==> Some(r) == left.spec_binop(
            spec_mutated_op(op),
            right,
        ),
        !runtime.spec_is_active(mutator_id) ==> Some(r) == left.spec_binop(op, right),
{
    if runtime.is_mutation_active(mutator_id) {
        left.apply_binop(mutated_op(op), right)
    } else {
        left.apply_binop(op, right)
    }
}

/// The label of an operator in a mutation record.
pub open spec fn spec_op_label(op: BinOp) -> Seq<char> {
    match op {
        BinOp::Add => "+"@,
        BinOp::Sub => "-"@,
        BinOp::Mul => "*"@,
        BinOp::Div => "/"@,
    }
}

/// The label of an operator, for a mutation record.
fn op_label(op: BinOp) -> (r: String)
    ensures
        r@ == spec_op_label(op),
{
    match op {
        BinOp::Add => "+".to_owned(),
        BinOp::Sub => "-".to_owned(),
        BinOp::Mul => "*".to_owned(),
        BinOp::Div => "/".to_owned(),
    }
}

/// The instrumented replacement of a binary operation: the dispatch node with
/// the site's identifier.
pub open spec fn spec_instrumented_binop(op: BinOp, l: Expr, r: Expr, mutator_id: u32) -> Expr {
    Expr::RunBinop(op, mutator_id, Box::new(l), Box::new(r))
}

/// Instrument one binary operation: register its mutation record, labelled
/// with the original operator and the paired operator it mutates into, and
/// emit the dispatch node in its place.  Any other expression is not this
/// mutator's concern and passes through unchanged.
pub fn transform(e: Expr, transform_info: &mut SharedTransformInfo, context: &TransformContext) -> (r:
    Expr)
    requires
        old(transform_info).spec_mutations().len() + 1 <= u32::MAX,
    ensures
        ({
            let n = old(transform_info).spec_mutations().len();
            match e {
                Expr::Binop(op, l, rhs, span) => {
                    &&& final(transform_info).spec_mutations().len() == n + 1
                    &&& final(transform_info).spec_mutations().take(n as int) == old(
                        transform_info,
                    ).spec_mutations()
                    &&& final(transform_info).spec_mutations()[n as int].operator_name@
                        == "binop_num"@
                    &&& final(transform_info).spec_mutations()[n as int].original_label@
                        == spec_op_label(op)
                    &&& final(transform_info).spec_mutations()[n as int].mutated_label@
                        == spec_op_label(spec_mutated_op(op))
                    &&& final(transform_info).spec_mutations()[n as int].location == span
                    &&& r == spec_instrumented_binop(op, *l, *rhs, (n + 1) as u32)
                },
                _ => r == e && *final(transform_info) == *old(transform_info),
            }
        }),
{
    match e {
        Expr::Binop(op, l, rhs, span) => {
            let mutator_id = transform_info.add_mutation(
                Mutation::new_spanned(
                    "binop_num".to_owned(),
                    op_label(op),
                    op_label(mutated_op(op)),
                    span,
                ),
            );
            proof {
                assert(transform_info.spec_mutations().take(
                    transform_info.spec_mutations().len() - 1,
                ) =~= old(transform_info).spec_mutations());
            }
            Expr::RunBinop(op, mutator_id, l, rhs)
        },
        e => e,
    }
}

/// Baseline invariant of this mutator: with no mutation active, the
/// instrumented replacement of a binary operation evaluates exactly as the
/// original operation, whatever the operands, because assigned site
/// identifiers are never 0.
pub proof fn lemma_instrumented_binop_baseline_equivalent(
    op: BinOp,
    l: Expr,
    r: Expr,
    mutator_id: u32,
    span: Span,
)
    requires
        1 <= mutator_id,
    ensures
        spec_eval(spec_instrumented_binop(op, l, r, mutator_id), 0) == spec_eval(
            Expr::Binop(op, Box::new(l), Box::new(r), span),
            0,
        ),
{
}

} // verus!
