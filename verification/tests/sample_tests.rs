use sample_plan::doubles::DoubleBits;
use sample_plan::error::PlanError;
use sample_plan::plan::{ColName, PlanNode, Predicate, ScalarArg, ScalarFuncName, SelectItem};
use sample_plan::sample::{resolve_query_sample, SampleSpec};
use sample_plan::state::PlanResolverState;

fn bits(x: f64) -> DoubleBits {
    DoubleBits { bits: x.to_bits() }
}

fn user(name: &str) -> ColName {
    ColName::User { name: name.to_string() }
}

fn two_column_source() -> PlanNode {
    PlanNode::Source { columns: vec![user("id"), user("label")] }
}

fn spec_with(
    lower: f64,
    upper: f64,
    with_replacement: bool,
    seed: Option<i64>,
) -> SampleSpec {
    SampleSpec {
        input: two_column_source(),
        lower_bound: bits(lower),
        upper_bound: bits(upper),
        with_replacement,
        seed,
    }
}

fn schema_names(plan: &PlanNode) -> Vec<ColName> {
    plan.schema()
}

fn count_unnest(plan: &PlanNode) -> usize {
    match plan {
        PlanNode::Source { .. } => 0,
        PlanNode::Project { input, .. } => count_unnest(input),
        PlanNode::Filter { input, .. } => count_unnest(input),
        PlanNode::Unnest { input, .. } => 1 + count_unnest(input),
    }
}

#[test]
fn equal_bounds_are_rejected_with_both_values() {
    let mut state = PlanResolverState::new();
    let r = resolve_query_sample(spec_with(0.5, 0.5, false, Some(1)), &mut state);
    assert_eq!(
        r,
        Err(PlanError::InvalidBounds { lower: bits(0.5), upper: bits(0.5) })
    );
    assert_eq!(state.next_field_id, 0);
}

#[test]
fn reversed_bounds_are_rejected() {
    let mut state = PlanResolverState::new();
    let r = resolve_query_sample(spec_with(0.7, 0.2, true, Some(1)), &mut state);
    assert_eq!(
        r,
        Err(PlanError::InvalidBounds { lower: bits(0.7), upper: bits(0.2) })
    );
}

#[test]
fn negative_lower_bound_below_upper_is_accepted() {
    let mut state = PlanResolverState::new();
    let r = resolve_query_sample(spec_with(-1.0, 0.5, false, Some(1)), &mut state);
    assert!(r.is_ok());
}

#[test]
fn nan_bound_is_not_a_bounds_error() {
    // IEEE comparison with a NaN is false, so `lower >= upper` does not
    // hold and resolution proceeds.
    let mut state = PlanResolverState::new();
    let r = resolve_query_sample(spec_with(f64::NAN, 0.5, false, Some(1)), &mut state);
    assert!(r.is_ok());
}

#[test]
fn bernoulli_output_schema_equals_input_schema() {
    let mut state = PlanResolverState::new();
    let plan = resolve_query_sample(spec_with(0.0, 0.3, false, Some(7)), &mut state).unwrap();
    assert_eq!(schema_names(&plan), vec![user("id"), user("label")]);
}

#[test]
fn poisson_output_schema_equals_input_schema() {
    let mut state = PlanResolverState::new();
    let plan = resolve_query_sample(spec_with(0.0, 2.0, true, Some(7)), &mut state).unwrap();
    assert_eq!(schema_names(&plan), vec![user("id"), user("label")]);
}

#[test]
fn same_seed_gives_structurally_equal_plans() {
    let mut s1 = PlanResolverState::new();
    let mut s2 = PlanResolverState::new();
    let p1 = resolve_query_sample(spec_with(0.1, 0.9, true, Some(99)), &mut s1).unwrap();
    let p2 = resolve_query_sample(spec_with(0.1, 0.9, true, Some(99)), &mut s2).unwrap();
    assert_eq!(p1, p2);
    let p3 = resolve_query_sample(spec_with(0.1, 0.9, false, Some(5)), &mut s1).unwrap();
    let p4 = resolve_query_sample(spec_with(0.1, 0.9, false, Some(5)), &mut s2).unwrap();
    assert_eq!(p3, p4);
}

#[test]
fn different_seeds_give_different_plans() {
    let mut s1 = PlanResolverState::new();
    let mut s2 = PlanResolverState::new();
    let p1 = resolve_query_sample(spec_with(0.1, 0.9, false, Some(1)), &mut s1).unwrap();
    let p2 = resolve_query_sample(spec_with(0.1, 0.9, false, Some(2)), &mut s2).unwrap();
    assert_ne!(p1, p2);
}

#[test]
fn no_generated_name_escapes_into_the_schema() {
    for with_replacement in [false, true] {
        let mut state = PlanResolverState::new();
        let plan =
            resolve_query_sample(spec_with(0.0, 0.8, with_replacement, Some(3)), &mut state)
                .unwrap();
        for col in schema_names(&plan) {
            assert!(
                matches!(col, ColName::User { .. }),
                "registrar-issued name escaped: {col:?}"
            );
        }
    }
}

#[test]
fn bernoulli_plan_contains_no_row_expansion() {
    let mut state = PlanResolverState::new();
    let plan = resolve_query_sample(spec_with(0.0, 0.3, false, Some(11)), &mut state).unwrap();
    assert_eq!(count_unnest(&plan), 0);
}

#[test]
fn poisson_plan_expands_a_sequence_of_the_drawn_count() {
    let mut state = PlanResolverState::new();
    let plan = resolve_query_sample(spec_with(0.0, 2.0, true, Some(11)), &mut state).unwrap();
    assert_eq!(count_unnest(&plan), 1);
    // Outermost: the projection back onto the input columns, over the
    // expansion of the sequence column.
    let PlanNode::Project { input: level1, items } = &plan else {
        panic!("outermost node is not a projection");
    };
    assert_eq!(items.len(), 2);
    let PlanNode::Unnest { input: level2, column } = &**level1 else {
        panic!("second node is not a row expansion");
    };
    assert!(matches!(column, ColName::Generated { id: 1, .. }));
    // Below: the projection adding sequence(1, rand) under the array name.
    let PlanNode::Project { items: seq_items, .. } = &**level2 else {
        panic!("third node is not a projection");
    };
    let SelectItem::Calculated { func, args, name } = seq_items.last().unwrap() else {
        panic!("last item is not a scalar-function call");
    };
    assert_eq!(*func, ScalarFuncName::SparkSequence);
    assert!(matches!(name, ColName::Generated { id: 1, .. }));
    assert_eq!(args[0], ScalarArg::LongLit { value: 1 });
    assert!(matches!(
        &args[1],
        ScalarArg::ColumnRef { name: ColName::Generated { id: 0, .. } }
    ));
}

#[test]
fn bernoulli_plan_filters_rand_between_the_bounds() {
    let mut state = PlanResolverState::new();
    let plan = resolve_query_sample(spec_with(0.25, 0.75, false, Some(4)), &mut state).unwrap();
    let PlanNode::Project { input: level1, .. } = &plan else {
        panic!("outermost node is not a projection");
    };
    let PlanNode::Filter { input: level2, predicate: low } = &**level1 else {
        panic!("second node is not a filter");
    };
    assert_eq!(
        *low,
        Predicate::GtEq {
            column: ColName::Generated { id: 0, hint: "rand_value".to_string() },
            value: bits(0.25),
        }
    );
    let PlanNode::Filter { input: level3, predicate: high } = &**level2 else {
        panic!("third node is not a filter");
    };
    assert_eq!(
        *high,
        Predicate::Lt {
            column: ColName::Generated { id: 0, hint: "rand_value".to_string() },
            value: bits(0.75),
        }
    );
    // Below the filters: the projection adding the uniform random column.
    let PlanNode::Project { items, .. } = &**level3 else {
        panic!("fourth node is not a projection");
    };
    let SelectItem::Calculated { func, args, .. } = items.last().unwrap() else {
        panic!("last item is not a scalar-function call");
    };
    assert_eq!(*func, ScalarFuncName::Random);
    assert_eq!(args.as_slice(), &[ScalarArg::LongLit { value: 4 }]);
}

#[test]
fn poisson_rand_column_holds_mean_and_seed() {
    let mut state = PlanResolverState::new();
    let plan = resolve_query_sample(spec_with(0.0, 2.0, true, Some(21)), &mut state).unwrap();
    // Walk down to the innermost projection, directly above the source.
    let mut node = &plan;
    let mut rand_items = None;
    loop {
        match node {
            PlanNode::Project { input, items } => {
                if matches!(&**input, PlanNode::Source { .. }) {
                    rand_items = Some(items);
                    break;
                }
                node = input;
            }
            PlanNode::Filter { input, .. } => node = input,
            PlanNode::Unnest { input, .. } => node = input,
            PlanNode::Source { .. } => break,
        }
    }
    let items = rand_items.expect("no projection above the source");
    let SelectItem::Calculated { func, args, .. } = items.last().unwrap() else {
        panic!("last item is not a scalar-function call");
    };
    assert_eq!(*func, ScalarFuncName::RandPoisson);
    assert_eq!(
        args.as_slice(),
        &[
            ScalarArg::DoubleLit { value: bits(2.0) },
            ScalarArg::LongLit { value: 21 },
        ]
    );
}

#[test]
fn missing_seed_still_resolves() {
    let mut state = PlanResolverState::new();
    let r = resolve_query_sample(spec_with(0.0, 0.5, false, None), &mut state);
    assert!(r.is_ok());
    assert_eq!(state.next_field_id, 1);
}

#[test]
fn registrar_issues_distinct_names() {
    let mut state = PlanResolverState::new();
    let a = state.register_field_name("rand_value");
    let b = state.register_field_name("rand_value");
    assert_ne!(a, b);
    assert_eq!(state.next_field_id, 2);
}

#[test]
fn projection_of_unknown_column_fails() {
    let plan = two_column_source();
    let items = vec![SelectItem::Column { name: user("missing") }];
    let r = plan.project(items);
    assert_eq!(r, Err(PlanError::UnknownColumn { name: user("missing") }));
}

#[test]
fn registrar_counter_advances_once_per_issued_name() {
    let mut state = PlanResolverState::new();
    resolve_query_sample(spec_with(0.0, 0.5, false, Some(1)), &mut state).unwrap();
    assert_eq!(state.next_field_id, 1);
    resolve_query_sample(spec_with(0.0, 0.5, true, Some(1)), &mut state).unwrap();
    assert_eq!(state.next_field_id, 3);
}
