//! Types that exercise the optimistic dispatch of the mutators.
//!
//! `TypeWithNotOtherOutput` negates into a different type and has no safe
//! conversion into it, so removing its negation is exactly the case in which
//! the optimistic assumption fails.  `TypeWithAddOnly` supports addition and
//! nothing else, so swapping its `+` for `-` fails the same way, while the
//! un-mutated addition keeps working.

use vstd::pervasive::unreached;
use vstd::prelude::*;

use crate::expr::BinOp;
use crate::mutator_binop_num::BinopNum;
use crate::mutator_unop_not::NotToNone;

verus! {

/// A type whose negation yields a value of another type.
#[derive(PartialEq, Eq, Structural, Debug)]
pub struct TypeWithNotOtherOutput();

/// The output type of negating `TypeWithNotOtherOutput`.
#[derive(PartialEq, Eq, Structural, Debug)]
pub struct TypeWithNotTarget();

impl NotToNone for TypeWithNotOtherOutput {
    type Output = TypeWithNotTarget;

    open spec fn spec_not(self) -> TypeWithNotTarget {
        TypeWithNotTarget()
    }

    open spec fn spec_may_none(self) -> Option<TypeWithNotTarget> {
        None
    }

    fn not_op(self) -> (r: TypeWithNotTarget) {
        TypeWithNotTarget()
    }

    fn may_none(self) -> (r: TypeWithNotTarget) {
        unreached()
    }
}

/// A type whose negation yields another type, into which it also converts
/// safely: removing the negation optimistically succeeds by converting, so the
/// value passes through wrapped, not complemented.
#[derive(Clone, Copy, PartialEq, Eq, Structural, Debug)]
pub struct TypeWithNotConvertible {
    pub val: u32,
}

/// The output type of negating `TypeWithNotConvertible`.
#[derive(Clone, Copy, PartialEq, Eq, Structural, Debug)]
pub struct TypeWithNotWrapped {
    pub val: u32,
}

impl NotToNone for TypeWithNotConvertible {
    type Output = TypeWithNotWrapped;

    open spec fn spec_not(self) -> TypeWithNotWrapped {
        TypeWithNotWrapped { val: !self.val }
    }

    open spec fn spec_may_none(self) -> Option<TypeWithNotWrapped> {
        Some((TypeWithNotWrapped { val: self.val }))
    }

    fn not_op(self) -> (r: TypeWithNotWrapped) {
        TypeWithNotWrapped { val: !self.val }
    }

    fn may_none(self) -> (r: TypeWithNotWrapped) {
        TypeWithNotWrapped { val: self.val }
    }
}

/// A type that supports addition and no other binary numeric operator.
#[derive(Clone, Copy, PartialEq, Eq, Structural, Debug)]
pub struct TypeWithAddOnly {
    pub val: u32,
}

impl BinopNum<TypeWithAddOnly> for TypeWithAddOnly {
    type Output = TypeWithAddOnly;

    open spec fn spec_binop(self, op: BinOp, rhs: TypeWithAddOnly) -> Option<TypeWithAddOnly> {
        match op {
            BinOp::Add => if self.val + rhs.val <= u32::MAX {
                Some((TypeWithAddOnly { val: (self.val + rhs.val) as u32 }))
            } else {
                None
            },
            _ => None,
        }
    }

    fn apply_binop(self, op: BinOp, rhs: TypeWithAddOnly) -> (r: TypeWithAddOnly) {
        match op {
            BinOp::Add => TypeWithAddOnly { val: self.val + rhs.val },
            _ => unreached(),
        }
    }
}

} // verus!
