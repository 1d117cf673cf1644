//! The expression model that the mutators transform.
//!
//! An expression is either plain (a literal, a negation, a binary operation)
//! or instrumented: a node that stands for the runtime dispatch a mutator
//! emitted in place of a plain node.  An instrumented node carries the
//! identifier of its mutation site; at run time it evaluates as the original
//! node unless exactly that site's mutation is active.

use vstd::prelude::*;

use crate::coverage::CoverageRecorder;
use crate::mutation::Span;
use crate::runtime_config::MutagenRuntimeConfig;

verus! {

/// A binary numeric operator.
#[derive(Clone, Copy, PartialEq, Eq, Structural, Debug)]
pub enum BinOp {
    Add,
    Sub,
    Mul,
    Div,
}

/// The pairing table of the binary-operator mutator: which operator each
/// operator mutates into.  Addition and subtraction swap, as do
/// multiplication and division.
pub open spec fn spec_mutated_op(op: BinOp) -> BinOp {
    match op {
        BinOp::Add => BinOp::Sub,
        BinOp::Sub => BinOp::Add,
        BinOp::Mul => BinOp::Div,
        BinOp::Div => BinOp::Mul,
    }
}

/// The operator that a binary operator mutates into.
pub fn mutated_op(op: BinOp) -> (r: BinOp)
    ensures
        r == spec_mutated_op(op),
{
    match op {
        BinOp::Add => BinOp::Sub,
        BinOp::Sub => BinOp::Add,
        BinOp::Mul => BinOp::Div,
        BinOp::Div => BinOp::Mul,
    }
}

/// An expression over unsigned machine words, before or after instrumentation.
#[derive(PartialEq, Debug)]
pub enum Expr {
    /// A literal value.
    Lit(u64),
    /// Bitwise complement of the operand; the span locates the `!` token.
    Not(Box<Expr>, Span),
    /// A binary operation; the span locates the operator token.
    Binop(BinOp, Box<Expr>, Box<Expr>, Span),
    /// Instrumented negation, general strategy: when the site is active the
    /// operand passes through the optimistic conversion instead of being
    /// negated.
    RunNot(u32, Box<Expr>),
    /// Instrumented negation, native-number strategy: when the site is active
    /// the operand is returned unchanged.
    RunNotNative(u32, Box<Expr>),
    /// Instrumented binary operation: when the site is active the paired
    /// operator applies instead.
    RunBinop(BinOp, u32, Box<Expr>, Box<Expr>),
}

/// The checked result of one binary operation on machine words: nothing where
/// the unchecked operation would overflow, underflow or divide by zero.
pub open spec fn spec_checked_binop(op: BinOp, a: u64, b: u64) -> Option<u64> {
    match op {
        BinOp::Add => if a + b <= u64::MAX {
            Some((a + b) as u64)
        } else {
            None
        },
        BinOp::Sub => if a >= b {
            Some((a - b) as u64)
        } else {
            None
        },
        BinOp::Mul => if a * b <= u64::MAX {
            Some((a * b) as u64)
        } else {
            None
        },
        BinOp::Div => if b != 0 {
            Some(a / b)
        } else {
            None
        },
    }
}

/// A binary operation over partial operands: defined only where both operands
/// and the checked operation are.
pub open spec fn spec_binop_opt(op: BinOp, l: Option<u64>, r: Option<u64>) -> Option<u64> {
    match (l, r) {
        (Some(a), Some(b)) => spec_checked_binop(op, a, b),
        _ => None,
    }
}

/// A negation over a partial operand.
pub open spec fn spec_not_opt(v: Option<u64>) -> Option<u64> {
    match v {
        Some(x) => Some(!x),
        None => None,
    }
}

/// What an expression evaluates to when the given mutation identifier is
/// active: nothing where evaluation would fail, else the value.  Instrumented
/// nodes behave as their original node unless exactly their site is active.
pub open spec fn spec_eval(e: Expr, active: u32) -> Option<u64>
    decreases e,
{
    match e {
        Expr::Lit(n) => Some(n),
        Expr::Not(inner, _) => spec_not_opt(spec_eval(*inner, active)),
        Expr::Binop(op, l, r, _) => spec_binop_opt(op, spec_eval(*l, active), spec_eval(*r, active)),
        Expr::RunNot(id, inner) => if active == id {
            spec_eval(*inner, active)
        } else {
            spec_not_opt(spec_eval(*inner, active))
        },
        Expr::RunNotNative(id, inner) => if active == id {
            spec_eval(*inner, active)
        } else {
            spec_not_opt(spec_eval(*inner, active))
        },
        Expr::RunBinop(op, id, l, r) => spec_binop_opt(
            if active == id {
                spec_mutated_op(op)
            } else {
                op
            },
            spec_eval(*l, active),
            spec_eval(*r, active),
        ),
    }
}

/// One binary operation on machine words, checked.
fn checked_binop(op: BinOp, a: u64, b: u64) -> (r: Option<u64>)
    ensures
        r == spec_checked_binop(op, a, b),
{
    match op {
        BinOp::Add => a.checked_add(b),
        BinOp::Sub => a.checked_sub(b),
        BinOp::Mul => a.checked_mul(b),
        BinOp::Div => a.checked_div(b),
    }
}

/// The mutation sites of an expression: the identifiers of all instrumented
/// nodes in it.
pub open spec fn spec_sites(e: Expr) -> Set<u32>
    decreases e,
{
    match e {
        Expr::Lit(_) => Set::empty(),
        Expr::Not(inner, _) => spec_sites(*inner),
        Expr::Binop(_, l, r, _) => spec_sites(*l).union(spec_sites(*r)),
        Expr::RunNot(id, inner) => spec_sites(*inner).insert(id),
        Expr::RunNotNative(id, inner) => spec_sites(*inner).insert(id),
        Expr::RunBinop(_, id, l, r) => spec_sites(*l).union(spec_sites(*r)).insert(id),
    }
}

/// Evaluate an expression under a runtime configuration.  Every instrumented
/// node reports its site to the coverage recorder before it consults the
/// configuration, exactly as the dispatch it stands for does, so after the
/// evaluation every site of the expression is covered, whether or not its
/// mutation was active.
pub fn eval(e: &Expr, runtime: &MutagenRuntimeConfig, coverage: &mut CoverageRecorder) -> (r:
    Option<u64>)
    ensures
        r == spec_eval(*e, runtime.mutation_id),
        forall|m: u32|
            final(coverage).spec_was_covered(m) <==> (old(coverage).spec_was_covered(m)
                || spec_sites(*e).contains(m)),
    decreases *e,
{
    match e {
        Expr::Lit(n) => Some(*n),
        Expr::Not(inner, _) => match eval(inner, runtime, coverage) {
            Some(v) => Some(!v),
            None => None,
        },
        Expr::Binop(op, l, r, _) => match (eval(l, runtime, coverage), eval(r, runtime, coverage)) {
            (Some(a), Some(b)) => checked_binop(*op, a, b),
            _ => None,
        },
        Expr::RunNot(id, inner) => {
            coverage.covered(*id);
            match eval(inner, runtime, coverage) {
                Some(v) => Some(
                    if runtime.is_mutation_active(*id) {
                        v
                    } else {
                        !v
                    },
                ),
                None => None,
            }
        },
        Expr::RunNotNative(id, inner) => {
            coverage.covered(*id);
            match eval(inner, runtime, coverage) {
                Some(v) => Some(
                    if runtime.is_mutation_active(*id) {
                        v
                    } else {
                        !v
                    },
                ),
                None => None,
            }
        },
        Expr::RunBinop(op, id, l, r) => {
            coverage.covered(*id);
            let effective = if runtime.is_mutation_active(*id) {
                mutated_op(*op)
            } else {
                *op
            };
            match (eval(l, runtime, coverage), eval(r, runtime, coverage)) {
                (Some(a), Some(b)) => checked_binop(effective, a, b),
                _ => None,
            }
        },
    }
}

/// The original expression that an instrumented expression stands for: every
/// dispatch node replaced by the plain node it instruments.  A dispatch node
/// does not keep its operator token's location, so stripped nodes carry an
/// empty one.
pub open spec fn spec_strip(e: Expr) -> Expr
    decreases e,
{
    match e {
        Expr::Lit(n) => Expr::Lit(n),
        Expr::Not(inner, span) => Expr::Not(Box::new(spec_strip(*inner)), span),
        Expr::Binop(op, l, r, span) => Expr::Binop(
            op,
            Box::new(spec_strip(*l)),
            Box::new(spec_strip(*r)),
            span,
        ),
        Expr::RunNot(_, inner) => Expr::Not(Box::new(spec_strip(*inner)), Span { lo: 0, hi: 0 }),
        Expr::RunNotNative(_, inner) => Expr::Not(
            Box::new(spec_strip(*inner)),
            Span { lo: 0, hi: 0 },
        ),
        Expr::RunBinop(op, _, l, r) => Expr::Binop(
            op,
            Box::new(spec_strip(*l)),
            Box::new(spec_strip(*r)),
            Span { lo: 0, hi: 0 },
        ),
    }
}

/// No accidental activation, observably: an active identifier that is the site
/// of no dispatch node of the expression leaves every dispatch on its original
/// behavior, so the whole expression evaluates exactly as its un-instrumented
/// original does.
pub proof fn lemma_unassigned_id_evaluates_as_original(e: Expr, active: u32)
    requires
        !spec_sites(e).contains(active),
    ensures
        spec_eval(e, active) == spec_eval(spec_strip(e), active),
    decreases e,
{
    match e {
        Expr::Lit(_) => {},
        Expr::Not(inner, _) => {
            lemma_unassigned_id_evaluates_as_original(*inner, active);
        },
        Expr::Binop(_, l, r, _) => {
            lemma_unassigned_id_evaluates_as_original(*l, active);
            lemma_unassigned_id_evaluates_as_original(*r, active);
        },
        Expr::RunNot(id, inner) => {
            assert(spec_sites(e).contains(id));
            lemma_unassigned_id_evaluates_as_original(*inner, active);
        },
        Expr::RunNotNative(id, inner) => {
            assert(spec_sites(e).contains(id));
            lemma_unassigned_id_evaluates_as_original(*inner, active);
        },
        Expr::RunBinop(_, id, l, r) => {
            assert(spec_sites(e).contains(id));
            lemma_unassigned_id_evaluates_as_original(*l, active);
            lemma_unassigned_id_evaluates_as_original(*r, active);
        },
    }
}

/// Baseline invariant: with no mutation active, an instrumented expression
/// whose sites all carry assigned identifiers, which start at 1, is observably
/// equivalent to its un-instrumented original.
pub proof fn lemma_baseline_equivalent(e: Expr)
    requires
        !spec_sites(e).contains(0),
    ensures
        spec_eval(e, 0) == spec_eval(spec_strip(e), 0),
{
    lemma_unassigned_id_evaluates_as_original(e, 0);
}

} // verus!
