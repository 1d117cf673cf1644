use mutagen_core::expr::BinOp;
use mutagen_core::mutator_binop_num::run;
use mutagen_core::optimistic_types::TypeWithAddOnly;
use mutagen_core::selftest_binop_num::div_4_4;
use mutagen_core::selftest_binop_num::mul_2_3;
use mutagen_core::selftest_binop_num::multiple_adds;
use mutagen_core::selftest_binop_num::sum_i32;
use mutagen_core::selftest_binop_num::sum_u32;
use mutagen_core::MutagenRuntimeConfig;

#[test]
fn sum_u32_inactive() {
    let runtime = MutagenRuntimeConfig::without_mutation();
    assert_eq!(sum_i32(&runtime), 6);
}

#[test]
fn sum_u32_active1() {
    let runtime = MutagenRuntimeConfig::with_mutation_id(1);
    assert_eq!(sum_i32(&runtime), 4);
}

#[test]
fn test_binop_num_sum_u32_inactive() {
    let runtime = MutagenRuntimeConfig::without_mutation();
    assert_eq!(sum_u32(&runtime), 6);
}

#[test]
fn test_binop_num_sum_u32_active1() {
    let runtime = MutagenRuntimeConfig::with_mutation_id(1);
    assert_eq!(sum_u32(&runtime), 4);
}

#[test]
fn multiple_adds_inactive() {
    let runtime = MutagenRuntimeConfig::without_mutation();
    assert_eq!(multiple_adds(&runtime), 10);
}

#[test]
fn multiple_adds_active1() {
    let runtime = MutagenRuntimeConfig::with_mutation_id(1);
    assert_eq!(multiple_adds(&runtime), 2);
}

#[test]
fn multiple_adds_active2() {
    let runtime = MutagenRuntimeConfig::with_mutation_id(2);
    assert_eq!(multiple_adds(&runtime), 8);
}

#[test]
fn mul_2_3_inactive() {
    let runtime = MutagenRuntimeConfig::without_mutation();
    assert_eq!(mul_2_3(&runtime), 6);
}

#[test]
fn mul_2_3_active1() {
    let runtime = MutagenRuntimeConfig::with_mutation_id(1);
    assert_eq!(mul_2_3(&runtime), 0);
}

#[test]
fn div_4_4_inactive() {
    let runtime = MutagenRuntimeConfig::without_mutation();
    assert_eq!(div_4_4(&runtime), 1);
}

#[test]
fn div_4_4_active1() {
    let runtime = MutagenRuntimeConfig::with_mutation_id(1);
    assert_eq!(div_4_4(&runtime), 16);
}

#[test]
fn add_only_inactive() {
    // a type without the swapped operation still adds normally while the
    // mutation is inactive
    let runtime = MutagenRuntimeConfig::without_mutation();
    let result = run(
        1,
        BinOp::Add,
        TypeWithAddOnly { val: 2 },
        TypeWithAddOnly { val: 3 },
        &runtime,
    );
    assert_eq!(result, TypeWithAddOnly { val: 5 });
}

#[test]
fn run_other_site_active_behaves_as_baseline() {
    let runtime = MutagenRuntimeConfig::with_mutation_id(7);
    assert_eq!(run(1, BinOp::Sub, 9u64, 4u64, &runtime), 5);
    assert_eq!(run(1, BinOp::Div, 9u64, 2u64, &runtime), 4);
}

#[test]
fn run_active_swaps_each_operator() {
    let runtime = MutagenRuntimeConfig::with_mutation_id(1);
    assert_eq!(run(1, BinOp::Sub, 9u64, 4u64, &runtime), 13);
    assert_eq!(run(1, BinOp::Add, 9i32, 4i32, &runtime), 5);
    assert_eq!(run(1, BinOp::Div, 9u32, 2u32, &runtime), 18);
    assert_eq!(run(1, BinOp::Mul, 9usize, 2usize, &runtime), 4);
}
