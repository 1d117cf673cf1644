//! Instrumented example functions for the binary-operator mutator, as the
//! transformer would emit them: each binary operation replaced by the runtime
//! dispatch, with site identifiers numbered from 1 in evaluation order.  Their
//! contracts state the exact value of every execution: the original value at
//! baseline, the swapped operator's value when the site's mutation is active.

use vstd::prelude::*;

use crate::expr::BinOp;
use crate::mutator_binop_num::run;
use crate::runtime_config::MutagenRuntimeConfig;

verus! {

/// `5 + 1` over `i32`, instrumented with site identifier 1.
pub fn sum_i32(runtime: &MutagenRuntimeConfig) -> (r: i32)
    ensures
        runtime.spec_is_active(1) ==> r == 4,
        !runtime.spec_is_active(1) ==> r == 6,
{
    run(1, BinOp::Add, 5i32, 1i32, runtime)
}

/// `5 + 1` over `u32`, instrumented with site identifier 1.
pub fn sum_u32(runtime: &MutagenRuntimeConfig) -> (r: u32)
    ensures
        runtime.spec_is_active(1) ==> r == 4,
        !runtime.spec_is_active(1) ==> r == 6,
{
    run(1, BinOp::Add, 5u32, 1u32, runtime)
}

/// `5 + 4 + 1` over `usize`: two adjacent sites, identifiers 1 and 2.  At
/// baseline the sum is 10; activating the first site computes `(5 - 4) + 1`,
/// activating the second `(5 + 4) - 1`.
pub fn multiple_adds(runtime: &MutagenRuntimeConfig) -> (r: usize)
    ensures
        runtime.spec_is_active(1) ==> r == 2,
        runtime.spec_is_active(2) ==> r == 8,
        !runtime.spec_is_active(1) && !runtime.spec_is_active(2) ==> r == 10,
{
    let partial = run(1, BinOp::Add, 5usize, 4usize, runtime);
    run(2, BinOp::Add, partial, 1usize, runtime)
}

/// `2 * 3` over `u32`, instrumented with site identifier 1; the mutation
/// divides instead.
pub fn mul_2_3(runtime: &MutagenRuntimeConfig) -> (r: u32)
    ensures
        runtime.spec_is_active(1) ==> r == 0,
        !runtime.spec_is_active(1) ==> r == 6,
{
    run(1, BinOp::Mul, 2u32, 3u32, runtime)
}

/// `4 / 4` over `u32`, instrumented with site identifier 1; the mutation
/// multiplies instead.
pub fn div_4_4(runtime: &MutagenRuntimeConfig) -> (r: u32)
    ensures
        runtime.spec_is_active(1) ==> r == 16,
        !runtime.spec_is_active(1) ==> r == 1,
{
    run(1, BinOp::Div, 4u32, 4u32, runtime)
}

} // verus!
