use mutagen_core::coverage::CoverageRecorder;
use mutagen_core::expr::eval;
use mutagen_core::expr::BinOp;
use mutagen_core::expr::Expr;
use mutagen_core::mutation::Mutation;
use mutagen_core::mutation::Span;
use mutagen_core::mutator_binop_num;
use mutagen_core::mutator_unop_not;
use mutagen_core::transform_context::TransformContext;
use mutagen_core::transform_info::SharedTransformInfo;
use mutagen_core::MutagenRuntimeConfig;

fn span(lo: usize, hi: usize) -> Span {
    Span { lo, hi }
}

#[test]
fn registry_assigns_sequential_ids_from_one() {
    let mut info = SharedTransformInfo::new();
    assert_eq!(info.mutation_count(), 0);
    let first = info.add_mutation(Mutation::new_spanned(
        "unop_not".to_owned(),
        "!".to_owned(),
        "".to_owned(),
        span(0, 1),
    ));
    let second = info.add_mutation(Mutation::new_spanned(
        "binop_num".to_owned(),
        "+".to_owned(),
        "-".to_owned(),
        span(4, 5),
    ));
    assert_eq!(first, 1);
    assert_eq!(second, 2);
    assert_eq!(info.mutation_count(), 2);
    assert!(info.get_mutation_record(0).is_none());
    assert_eq!(
        info.get_mutation_record(1).map(|m| m.operator_name.as_str()),
        Some("unop_not")
    );
    assert_eq!(
        info.get_mutation_record(2).map(|m| m.original_label.as_str()),
        Some("+")
    );
    assert!(info.get_mutation_record(3).is_none());
}

#[test]
fn unop_transform_registers_and_instruments() {
    let mut info = SharedTransformInfo::new();
    let context = TransformContext::new();
    let e = Expr::Not(Box::new(Expr::Lit(5)), span(0, 1));
    let instrumented = mutator_unop_not::transform(e, &mut info, &context);
    assert_eq!(instrumented, Expr::RunNot(1, Box::new(Expr::Lit(5))));
    assert_eq!(info.mutation_count(), 1);
    let record = info.get_mutation_record(1).unwrap();
    assert_eq!(record.operator_name, "unop_not");
    assert_eq!(record.original_label, "!");
    assert_eq!(record.mutated_label, "");
    assert_eq!(record.location, span(0, 1));
}

#[test]
fn unop_transform_numeric_context_uses_native_strategy() {
    let mut info = SharedTransformInfo::new();
    let context = TransformContext::for_numeric_expr();
    let e = Expr::Not(Box::new(Expr::Lit(5)), span(0, 1));
    let instrumented = mutator_unop_not::transform(e, &mut info, &context);
    assert_eq!(instrumented, Expr::RunNotNative(1, Box::new(Expr::Lit(5))));
}

#[test]
fn unop_transform_leaves_other_expressions_alone() {
    let mut info = SharedTransformInfo::new();
    let context = TransformContext::new();
    let e = Expr::Lit(5);
    let unchanged = mutator_unop_not::transform(e, &mut info, &context);
    assert_eq!(unchanged, Expr::Lit(5));
    assert_eq!(info.mutation_count(), 0);
}

#[test]
fn binop_transform_registers_operator_pair() {
    let mut info = SharedTransformInfo::new();
    let context = TransformContext::for_numeric_expr();
    let e = Expr::Binop(
        BinOp::Add,
        Box::new(Expr::Lit(5)),
        Box::new(Expr::Lit(1)),
        span(1, 2),
    );
    let instrumented = mutator_binop_num::transform(e, &mut info, &context);
    assert_eq!(
        instrumented,
        Expr::RunBinop(BinOp::Add, 1, Box::new(Expr::Lit(5)), Box::new(Expr::Lit(1)))
    );
    let record = info.get_mutation_record(1).unwrap();
    assert_eq!(record.operator_name, "binop_num");
    assert_eq!(record.original_label, "+");
    assert_eq!(record.mutated_label, "-");
}

fn eval_fresh(e: &mutagen_core::expr::Expr, runtime: &MutagenRuntimeConfig) -> Option<u64> {
    let mut recorder = CoverageRecorder::new();
    eval(e, runtime, &mut recorder)
}

#[test]
fn instrumented_sum_evaluates_per_active_id() {
    let mut info = SharedTransformInfo::new();
    let context = TransformContext::for_numeric_expr();
    let e = Expr::Binop(
        BinOp::Add,
        Box::new(Expr::Lit(5)),
        Box::new(Expr::Lit(1)),
        span(1, 2),
    );
    let instrumented = mutator_binop_num::transform(e, &mut info, &context);
    let baseline = MutagenRuntimeConfig::without_mutation();
    assert_eq!(eval_fresh(&instrumented, &baseline), Some(6));
    let active = MutagenRuntimeConfig::with_mutation_id(1);
    assert_eq!(eval_fresh(&instrumented, &active), Some(4));
}

#[test]
fn instrumented_multi_site_sum_evaluates_per_active_id() {
    // 5 + 4 + 1: the traversal instruments the inner site first, so the two
    // adjacent sites get identifiers 1 and 2
    let mut info = SharedTransformInfo::new();
    let context = TransformContext::for_numeric_expr();
    let inner = mutator_binop_num::transform(
        Expr::Binop(BinOp::Add, Box::new(Expr::Lit(5)), Box::new(Expr::Lit(4)), span(1, 2)),
        &mut info,
        &context,
    );
    let whole = mutator_binop_num::transform(
        Expr::Binop(BinOp::Add, Box::new(inner), Box::new(Expr::Lit(1)), span(3, 4)),
        &mut info,
        &context,
    );
    assert_eq!(info.mutation_count(), 2);
    assert_eq!(eval_fresh(&whole, &MutagenRuntimeConfig::without_mutation()), Some(10));
    assert_eq!(eval_fresh(&whole, &MutagenRuntimeConfig::with_mutation_id(1)), Some(2));
    assert_eq!(eval_fresh(&whole, &MutagenRuntimeConfig::with_mutation_id(2)), Some(8));
    // any other id behaves as the baseline
    assert_eq!(eval_fresh(&whole, &MutagenRuntimeConfig::with_mutation_id(3)), Some(10));
}

#[test]
fn instrumented_not_evaluates_per_active_id() {
    let mut info = SharedTransformInfo::new();
    let context = TransformContext::for_numeric_expr();
    let e = Expr::Not(Box::new(Expr::Lit(0)), span(0, 1));
    let instrumented = mutator_unop_not::transform(e, &mut info, &context);
    assert_eq!(
        eval_fresh(&instrumented, &MutagenRuntimeConfig::without_mutation()),
        Some(u64::MAX)
    );
    assert_eq!(
        eval_fresh(&instrumented, &MutagenRuntimeConfig::with_mutation_id(1)),
        Some(0)
    );
}

#[test]
fn eval_is_checked() {
    let baseline = MutagenRuntimeConfig::without_mutation();
    let overflow = Expr::Binop(
        BinOp::Add,
        Box::new(Expr::Lit(u64::MAX)),
        Box::new(Expr::Lit(1)),
        span(0, 1),
    );
    assert_eq!(eval_fresh(&overflow, &baseline), None);
    let div_by_zero = Expr::Binop(
        BinOp::Div,
        Box::new(Expr::Lit(1)),
        Box::new(Expr::Lit(0)),
        span(0, 1),
    );
    assert_eq!(eval_fresh(&div_by_zero, &baseline), None);
}

#[test]
fn coverage_records_each_site_once() {
    let mut recorder = CoverageRecorder::new();
    assert!(!recorder.was_covered(1));
    recorder.covered(1);
    recorder.covered(1);
    recorder.covered(2);
    assert!(recorder.was_covered(1));
    assert!(recorder.was_covered(2));
    assert!(!recorder.was_covered(3));
}

#[test]
fn eval_reports_coverage_for_every_site() {
    let mut info = SharedTransformInfo::new();
    let context = TransformContext::for_numeric_expr();
    let inner = mutator_binop_num::transform(
        Expr::Binop(BinOp::Add, Box::new(Expr::Lit(5)), Box::new(Expr::Lit(4)), span(1, 2)),
        &mut info,
        &context,
    );
    let whole = mutator_binop_num::transform(
        Expr::Binop(BinOp::Add, Box::new(inner), Box::new(Expr::Lit(1)), span(3, 4)),
        &mut info,
        &context,
    );
    let mut recorder = CoverageRecorder::new();
    // coverage is observed whichever mutation is active
    let result = eval(&whole, &MutagenRuntimeConfig::with_mutation_id(2), &mut recorder);
    assert_eq!(result, Some(8));
    assert!(recorder.was_covered(1));
    assert!(recorder.was_covered(2));
    assert!(!recorder.was_covered(3));
}
