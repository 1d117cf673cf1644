//! Mutator for the unary negation operator `!`.
//!
//! The mutation removes the negation.  For operands statically known to be
//! native numbers the emitted dispatch returns the operand unchanged, which is
//! always type-correct since numeric negation maps a type to itself.  For all
//! other operands the dispatch goes through the optimistic `NotToNone`
//! capability: types whose negation maps them to themselves, or that have a
//! recognized safe conversion into the negation's output type, pass the
//! converted value through; for every other type the optimistic assumption has
//! failed and the dispatch must abort the execution rather than fabricate a
//! value.

use vstd::prelude::*;

use crate::expr::Expr;
use crate::expr::spec_eval;
use crate::mutation::Mutation;
use crate::mutation::Span;
use crate::runtime_config::MutagenRuntimeConfig;
use crate::transform_context::TransformContext;
use crate::transform_info::SharedTransformInfo;

verus! {

/// The optimistic capability of removing a negation `!` from an expression.
///
/// `not_op` is the original negation.  `may_none` passes the un-negated value
/// through as a value of the negation's output type; it is defined only for
/// values with a safe conversion into that type (`spec_may_none` names the
/// converted value), and a call outside that domain must abort the execution.
pub trait NotToNone: Sized {
    /// The output type of the negation.
    type Output;

    /// What negating the value yields.
    spec fn spec_not(self) -> Self::Output;

    /// The value that removing the negation yields, where a safe conversion
    /// into the negation's output type exists; nothing otherwise.
    spec fn spec_may_none(self) -> Option<Self::Output>;

    /// The original negation.
    fn not_op(self) -> (r: Self::Output)
        ensures
            r == self.spec_not(),
    ;

    /// Pass the value through, converted into the negation's output type.
    fn may_none(self) -> (r: Self::Output)
        requires
            self.spec_may_none() is Some,
        ensures
            Some(r) == self.spec_may_none(),
    ;
}

impl NotToNone for bool {
    type Output = bool;

    open spec fn spec_not(self) -> bool {
        !self
    }

    open spec fn spec_may_none(self) -> Option<bool> {
        Some(self)
    }

    fn not_op(self) -> (r: bool) {
        !self
    }

    fn may_none(self) -> (r: bool) {
        self
    }
}

impl NotToNone for u8 {
    type Output = u8;

    open spec fn spec_not(self) -> u8 {
        !self
    }

    open spec fn spec_may_none(self) -> Option<u8> {
        Some(self)
    }

    fn not_op(self) -> (r: u8) {
        !self
    }

    fn may_none(self) -> (r: u8) {
        self
    }
}

impl NotToNone for u16 {
    type Output = u16;

    open spec fn spec_not(self) -> u16 {
        !self
    }

    open spec fn spec_may_none(self) -> Option<u16> {
        Some(self)
    }

    fn not_op(self) -> (r: u16) {
        !self
    }

    fn may_none(self) -> (r: u16) {
        self
    }
}

impl NotToNone for u32 {
    type Output = u32;

    open spec fn spec_not(self) -> u32 {
        !self
    }

    open spec fn spec_may_none(self) -> Option<u32> {
        Some(self)
    }

    fn not_op(self) -> (r: u32) {
        !self
    }

    fn may_none(self) -> (r: u32) {
        self
    }
}

impl NotToNone for u64 {
    type Output = u64;

    open spec fn spec_not(self) -> u64 {
        !self
    }

    open spec fn spec_may_none(self) -> Option<u64> {
        Some(self)
    }

    fn not_op(self) -> (r: u64) {
        !self
    }

    fn may_none(self) -> (r: u64) {
        self
    }
}

impl NotToNone for usize {
    type Output = usize;

    open spec fn spec_not(self) -> usize {
        !self
    }

    open spec fn spec_may_none(self) -> Option<usize> {
        Some(self)
    }

    fn not_op(self) -> (r: usize) {
        !self
    }

    fn may_none(self) -> (r: usize) {
        self
    }
}

impl NotToNone for i8 {
    type Output = i8;

    open spec fn spec_not(self) -> i8 {
        !self
    }

    open spec fn spec_may_none(self) -> Option<i8> {
        Some(self)
    }

    fn not_op(self) -> (r: i8) {
        !self
    }

    fn may_none(self) -> (r: i8) {
        self
    }
}

impl NotToNone for i16 {
    type Output = i16;

    open spec fn spec_not(self) -> i16 {
        !self
    }

    open spec fn spec_may_none(self) -> Option<i16> {
        Some(self)
    }

    fn not_op(self) -> (r: i16) {
        !self
    }

    fn may_none(self) -> (r: i16) {
        self
    }
}

impl NotToNone for i32 {
    type Output = i32;

    open spec fn spec_not(self) -> i32 {
        !self
    }

    open spec fn spec_may_none(self) -> Option<i32> {
        Some(self)
    }

    fn not_op(self) -> (r: i32) {
        !self
    }

    fn may_none(self) -> (r: i32) {
        self
    }
}

impl NotToNone for i64 {
    type Output = i64;

    open spec fn spec_not(self) -> i64 {
        !self
    }

    open spec fn spec_may_none(self) -> Option<i64> {
        Some(self)
    }

    fn not_op(self) -> (r: i64) {
        !self
    }

    fn may_none(self) -> (r: i64) {
        self
    }
}

impl NotToNone for isize {
    type Output = isize;

    open spec fn spec_not(self) -> isize {
        !self
    }

    open spec fn spec_may_none(self) -> Option<isize> {
        Some(self)
    }

    fn not_op(self) -> (r: isize) {
        !self
    }

    fn may_none(self) -> (r: isize) {
        self
    }
}

impl NotToNone for u128 {
    type Output = u128;

    open spec fn spec_not(self) -> u128 {
        !self
    }

    open spec fn spec_may_none(self) -> Option<u128> {
        Some(self)
    }

    fn not_op(self) -> (r: u128) {
        !self
    }

    fn may_none(self) -> (r: u128) {
        self
    }
}

impl NotToNone for i128 {
    type Output = i128;

    open spec fn spec_not(self) -> i128 {
        !self
    }

    open spec fn spec_may_none(self) -> Option<i128> {
        Some(self)
    }

    fn not_op(self) -> (r: i128) {
        !self
    }

    fn may_none(self) -> (r: i128) {
        self
    }
}

/// Runtime dispatch of one instrumented negation, general strategy: behaves as
/// the original negation unless the site's mutation is active, in which case
/// the operand passes through the optimistic conversion.  Activating the
/// mutation on an operand without a safe conversion aborts the execution.
pub fn run<T: NotToNone>(mutator_id: u32, val: T, runtime: &MutagenRuntimeConfig) -> (r: T::Output)
    requires
        runtime.spec_is_active(mutator_id) ==> val.spec_may_none() is Some,
    ensures
        runtime.spec_is_active(mutator_id) ==> Some(r) == val.spec_may_none(),
        !runtime.spec_is_active(mutator_id) ==> r == val.spec_not(),
{
    if runtime.is_mutation_active(mutator_id) {
        val.may_none()
    } else {
        val.not_op()
    }
}

/// Runtime dispatch of one instrumented negation whose operand is statically
/// known to be a native number: behaves as the original negation unless the
/// site's mutation is active, in which case the operand is returned unchanged.
pub fn run_native_num<I: NotToNone<Output = I>>(
    mutator_id: u32,
    val: I,
    runtime: &MutagenRuntimeConfig,
) -> (r: I)
    ensures
        runtime.spec_is_active(mutator_id) ==> r == val,
        !runtime.spec_is_active(mutator_id) ==> r == val.spec_not(),
{
    if runtime.is_mutation_active(mutator_id) {
        val
    } else {
        val.not_op()
    }
}

/// A recognized negation expression: the operand and the location of the `!`
/// token.
#[derive(Debug)]
pub struct ExprUnopNot {
    pub expr: Expr,
    pub span: Span,
}

impl ExprUnopNot {
    /// Pure pattern match: the typed decomposition of a negation expression,
    /// or the expression unchanged where it is none.
    pub fn try_from(expr: Expr) -> (r: Result<ExprUnopNot, Expr>)
        ensures
            match expr {
                Expr::Not(inner, span) => r == Ok::<ExprUnopNot, Expr>(
                    (ExprUnopNot { expr: *inner, span }),
                ),
                _ => r == Err::<ExprUnopNot, Expr>(expr),
            },
    {
        match expr {
            Expr::Not(inner, span) => Ok(ExprUnopNot { expr: *inner, span }),
            e => Err(e),
        }
    }
}

/// The instrumented replacement of a negation: the dispatch node for the
/// strategy that the context selects.
pub open spec fn spec_instrumented_not(inner: Expr, mutator_id: u32, is_numeric: bool) -> Expr {
    if is_numeric {
        Expr::RunNotNative(mutator_id, Box::new(inner))
    } else {
        Expr::RunNot(mutator_id, Box::new(inner))
    }
}

/// Instrument one negation expression: register its mutation record, obtaining
/// the site's identifier, and emit the dispatch node in its place.  Any other
/// expression is not this mutator's concern and passes through unchanged.
pub fn transform(e: Expr, transform_info: &mut SharedTransformInfo, context: &TransformContext) -> (r:
    Expr)
    requires
        old(transform_info).spec_mutations().len() + 1 <= u32::MAX,
    ensures
        ({
            let n = old(transform_info).spec_mutations().len();
            match e {
                Expr::Not(inner, span) => {
                    &&& final(transform_info).spec_mutations().len() == n + 1
                    &&& final(transform_info).spec_mutations().take(n as int) == old(
                        transform_info,
                    ).spec_mutations()
                    &&& final(transform_info).spec_mutations()[n as int].operator_name@
                        == "unop_not"@
                    &&& final(transform_info).spec_mutations()[n as int].original_label@ == "!"@
                    &&& final(transform_info).spec_mutations()[n as int].mutated_label@ == ""@
                    &&& final(transform_info).spec_mutations()[n as int].location == span
                    &&& r == spec_instrumented_not(*inner, (n + 1) as u32, context.is_numeric_expr)
                },
                _ => r == e && *final(transform_info) == *old(transform_info),
            }
        }),
{
    let e = match ExprUnopNot::try_from(e) {
        Ok(e) => e,
        Err(e) => {
            return e;
        },
    };
    let mutator_id = transform_info.add_mutation(
        Mutation::new_spanned("unop_not".to_owned(), "!".to_owned(), "".to_owned(), e.span),
    );
    proof {
        assert(transform_info.spec_mutations().take(
            transform_info.spec_mutations().len() - 1,
        ) =~= old(transform_info).spec_mutations());
    }
    let expr = e.expr;
    if context.is_num_expr() {
        Expr::RunNotNative(mutator_id, Box::new(expr))
    } else {
        Expr::RunNot(mutator_id, Box::new(expr))
    }
}

/// Baseline invariant of this mutator: with no mutation active, the
/// instrumented replacement of a negation evaluates exactly as the original
/// negation, whatever the operand and whichever strategy the context selected,
/// because assigned site identifiers are never 0.
pub proof fn lemma_instrumented_not_baseline_equivalent(
    inner: Expr,
    mutator_id: u32,
    is_numeric: bool,
    span: Span,
)
    requires
        1 <= mutator_id,
    ensures
        spec_eval(spec_instrumented_not(inner, mutator_id, is_numeric), 0) == spec_eval(
            Expr::Not(Box::new(inner), span),
            0,
        ),
{
}

} // verus!
