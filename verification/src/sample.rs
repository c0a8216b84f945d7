//! Resolution of a sampling specification into primitive plan nodes.
//!
//! The rewrite validates the bounds, settles the seed, projects one
//! ephemeral random-valued column onto the input plan, and then branches:
//! without replacement it keeps the rows whose random value falls in
//! `[lower, upper)` (Bernoulli sampling); with replacement it expands each
//! row into as many copies as its Poisson-distributed count says (via an
//! integer-sequence column and a row expansion). Both branches end by
//! projecting back onto the input's own columns, so the ephemeral columns
//! never escape.

use crate::doubles::{double_ge, DoubleBits};
use crate::error::PlanError;
use crate::plan::{
    arg_views, col_views, item_name, item_names, item_ok, item_views, items_ok,
    lemma_schema_after_push, schema_of, ColName, ColNameV, PlanNode, PlanStepV, PlanV, Predicate,
    PredicateV, ScalarArg, ScalarArgV, ScalarFuncName, SelectItem, SelectItemV,
};
use crate::state::PlanResolverState;
use vstd::prelude::*;

verus! {

/// A sampling specification: the already-resolved input plan, fractional
/// bounds, a replacement flag, and an optional seed. When the seed is
/// absent, one is drawn from a process-level source of randomness and the
/// resolution is not reproducible.
pub struct SampleSpec {
    pub input: PlanNode,
    pub lower_bound: DoubleBits,
    pub upper_bound: DoubleBits,
    pub with_replacement: bool,
    pub seed: Option<i64>,
}

/// Pass-through projection items for the given columns.
pub open spec fn column_items(cols: Seq<ColNameV>) -> Seq<SelectItemV> {
    cols.map_values(|c: ColNameV| SelectItemV::Column { name: c })
}

/// The name issued for the random-value column.
pub open spec fn rand_col_name(id0: u64) -> ColNameV {
    ColNameV::Generated { id: id0, hint: "rand_value"@ }
}

/// The name issued for the sequence column of the replacement branch.
pub open spec fn array_col_name(id0: u64) -> ColNameV {
    ColNameV::Generated { id: (id0 + 1) as u64, hint: "array_value"@ }
}

/// The random-value item: a Poisson count with mean `upper` under `seed`
/// when sampling with replacement, else a uniform value under `seed`.
pub open spec fn rand_item(
    with_replacement: bool,
    upper: DoubleBits,
    seed: i64,
    name: ColNameV,
) -> SelectItemV {
    if with_replacement {
        SelectItemV::Calculated {
            func: ScalarFuncName::RandPoisson,
            args: seq![
                ScalarArgV::DoubleLit { value: upper },
                ScalarArgV::LongLit { value: seed },
            ],
            name,
        }
    } else {
        SelectItemV::Calculated {
            func: ScalarFuncName::Random,
            args: seq![ScalarArgV::LongLit { value: seed }],
            name,
        }
    }
}

/// The item computing `sequence(1, rand)` under the issued array name.
pub open spec fn sequence_item(rand_col: ColNameV, arr_col: ColNameV) -> SelectItemV {
    SelectItemV::Calculated {
        func: ScalarFuncName::SparkSequence,
        args: seq![
            ScalarArgV::LongLit { value: 1 },
            ScalarArgV::ColumnRef { name: rand_col },
        ],
        name: arr_col,
    }
}

/// The whole rewritten plan for a valid specification: the input wrapped in
/// a projection adding the random column, then either the two Bernoulli
/// filters or the Poisson sequence-and-expansion, and finally a projection
/// back onto the input's own columns.
pub open spec fn sample_plan(
    inp: PlanV,
    lower: DoubleBits,
    upper: DoubleBits,
    with_replacement: bool,
    seed: i64,
    id0: u64,
) -> PlanV {
    let cols = schema_of(inp);
    let rand_col = rand_col_name(id0);
    let steps1 = inp.steps.push(
        PlanStepV::Project {
            items: column_items(cols).push(rand_item(with_replacement, upper, seed, rand_col)),
        },
    );
    let steps = if with_replacement {
        let arr_col = array_col_name(id0);
        steps1.push(
            PlanStepV::Project {
                items: column_items(cols.push(rand_col)).push(sequence_item(rand_col, arr_col)),
            },
        ).push(PlanStepV::Unnest { column: arr_col }).push(
            PlanStepV::Project { items: column_items(cols) },
        )
    } else {
        steps1.push(
            PlanStepV::Filter { predicate: PredicateV::Lt { column: rand_col, value: upper } },
        ).push(
            PlanStepV::Filter {
                predicate: PredicateV::GtEq { column: rand_col, value: lower },
            },
        ).push(PlanStepV::Project { items: column_items(cols) })
    };
    PlanV { source_columns: inp.source_columns, steps }
}

proof fn lemma_contains_weaken(s: Seq<ColNameV>, x: ColNameV, c: ColNameV)
    requires
        s.contains(c),
    ensures
        s.push(x).contains(c),
{
    let j = choose|j: int| 0 <= j < s.len() && s[j] == c;
    assert(s.push(x)[j] == c);
}

/// Pass-through items output exactly their columns.
pub proof fn lemma_column_item_names(cols: Seq<ColNameV>)
    ensures
        item_names(column_items(cols)) == cols,
{
    assert(item_names(column_items(cols)) =~= cols);
}

proof fn lemma_item_names_push(items: Seq<SelectItemV>, it: SelectItemV)
    ensures
        item_names(items.push(it)) == item_names(items).push(item_name(it)),
{
    assert(item_names(items.push(it)) =~= item_names(items).push(item_name(it)));
}

proof fn lemma_column_items_ok(cols: Seq<ColNameV>, schema: Seq<ColNameV>)
    requires
        forall|i: int| 0 <= i < cols.len() ==> schema.contains(#[trigger] cols[i]),
    ensures
        items_ok(column_items(cols), schema),
{
    assert forall|i: int| 0 <= i < column_items(cols).len() implies #[trigger] item_ok(
        column_items(cols)[i],
        schema,
    ) by {
        assert(column_items(cols)[i] == (SelectItemV::Column { name: cols[i] }));
    }
}

proof fn lemma_items_ok_extend(items: Seq<SelectItemV>, schema: Seq<ColNameV>, extra: ColNameV)
    requires
        items_ok(items, schema),
    ensures
        items_ok(items, schema.push(extra)),
{
    assert forall|i: int| 0 <= i < items.len() implies #[trigger] item_ok(
        items[i],
        schema.push(extra),
    ) by {
        assert(item_ok(items[i], schema));
        match items[i] {
            SelectItemV::Column { name } => {
                lemma_contains_weaken(schema, extra, name);
            },
            SelectItemV::Calculated { func: _, args, name: _ } => {
                assert forall|k: int| 0 <= k < args.len() implies #[trigger] crate::plan::arg_col_ok(
                    args[k],
                    schema.push(extra),
                ) by {
                    assert(crate::plan::arg_col_ok(args[k], schema));
                    match args[k] {
                        ScalarArgV::ColumnRef { name } => {
                            lemma_contains_weaken(schema, extra, name);
                        },
                        ScalarArgV::LongLit { value: _ } => {},
                        ScalarArgV::DoubleLit { value: _ } => {},
                    }
                }
            },
        }
    }
}

proof fn lemma_items_ok_push(items: Seq<SelectItemV>, it: SelectItemV, schema: Seq<ColNameV>)
    requires
        items_ok(items, schema),
        item_ok(it, schema),
    ensures
        items_ok(items.push(it), schema),
{
    assert forall|i: int| 0 <= i < items.push(it).len() implies #[trigger] item_ok(
        items.push(it)[i],
        schema,
    ) by {
        if i < items.len() {
            assert(items.push(it)[i] == items[i]);
        } else {
            assert(items.push(it)[i] == it);
        }
    }
}

/// Relies on rand::rng and rand::Rng::random for i64: draws a seed from the
/// process-level generator when the caller supplied none. Nothing is
/// promised of the drawn value; the resolver states what holds of every
/// outcome.
#[verifier::external_body]
fn draw_random_seed() -> i64 {
    let mut r = rand::rng();
    rand::Rng::random::<i64>(&mut r)
}

/// Pass-through items for the given columns, as plan values.
fn column_items_exec(cols: &Vec<ColName>) -> (r: Vec<SelectItem>)
    ensures
        item_views(r@) == column_items(col_views(cols@)),
{
    let mut out: Vec<SelectItem> = Vec::new();
    let mut i: usize = 0;
    while i < cols.len()
        invariant
            i <= cols@.len(),
            out@.len() == i,
            forall|j: int| 0 <= j < i ==> #[trigger] out@[j]@ == (SelectItemV::Column {
                name: col_views(cols@)[j],
            }),
        decreases cols@.len() - i,
    {
        out.push(SelectItem::Column { name: cols[i].duplicate() });
        i = i + 1;
    }
    proof {
        assert(item_views(out@) =~= column_items(col_views(cols@)));
    }
    out
}

/// Bernoulli sampling: keeps the rows whose random value lies in
/// `[lower_bound, upper_bound)`, then projects the random column away.
pub fn resolve_sample_without_replacement(
    plan_with_rand: PlanNode,
    rand_column_name: &ColName,
    lower_bound: DoubleBits,
    upper_bound: DoubleBits,
    init_items: Vec<SelectItem>,
) -> (r: Result<PlanNode, PlanError>)
    requires
        schema_of(plan_with_rand@).contains(rand_column_name@),
        items_ok(item_views(init_items@), schema_of(plan_with_rand@)),
    ensures
        (r matches Ok(p) && p@ == (PlanV {
            source_columns: plan_with_rand@.source_columns,
            steps: plan_with_rand@.steps.push(
                PlanStepV::Filter {
                    predicate: PredicateV::Lt {
                        column: rand_column_name@,
                        value: upper_bound,
                    },
                },
            ).push(
                PlanStepV::Filter {
                    predicate: PredicateV::GtEq {
                        column: rand_column_name@,
                        value: lower_bound,
                    },
                },
            ).push(PlanStepV::Project { items: item_views(init_items@) }),
        })),
{
    let ghost schema0 = schema_of(plan_with_rand@);
    let pred_hi = Predicate::Lt { column: rand_column_name.duplicate(), value: upper_bound };
    let step1 = match plan_with_rand.filter(pred_hi) {
        Ok(p) => p,
        Err(e) => {
            return Err(e);
        },
    };
    proof {
        lemma_schema_after_push(
            step1@.source_columns,
            step1@.steps.drop_last(),
            step1@.steps.last(),
        );
        assert(step1@.steps.drop_last() =~= plan_with_rand@.steps);
        assert(schema_of(step1@) == schema0);
    }
    let pred_lo = Predicate::GtEq { column: rand_column_name.duplicate(), value: lower_bound };
    let step2 = match step1.filter(pred_lo) {
        Ok(p) => p,
        Err(e) => {
            return Err(e);
        },
    };
    proof {
        lemma_schema_after_push(
            step2@.source_columns,
            step2@.steps.drop_last(),
            step2@.steps.last(),
        );
        assert(step2@.steps.drop_last() =~= step1@.steps);
        assert(schema_of(step2@) == schema0);
    }
    match step2.project(init_items) {
        Ok(p) => Ok(p),
        Err(e) => Err(e),
    }
}

/// Poisson sampling: projects `sequence(1, rand)` under a second issued
/// name, expands it so each element yields one copy of the row, and
/// projects both ephemeral columns away.
pub fn resolve_sample_with_replacement(
    plan_with_rand: PlanNode,
    rand_column_name: &ColName,
    init_items: Vec<SelectItem>,
    state: &mut PlanResolverState,
) -> (r: Result<PlanNode, PlanError>)
    requires
        old(state).next_field_id < u64::MAX,
        schema_of(plan_with_rand@).contains(rand_column_name@),
        items_ok(item_views(init_items@), schema_of(plan_with_rand@)),
    ensures
        final(state).next_field_id == old(state).next_field_id + 1,
        (r matches Ok(p) && p@ == (PlanV {
            source_columns: plan_with_rand@.source_columns,
            steps: plan_with_rand@.steps.push(
                PlanStepV::Project {
                    items: column_items(schema_of(plan_with_rand@)).push(
                        sequence_item(
                            rand_column_name@,
                            ColNameV::Generated {
                                id: old(state).next_field_id,
                                hint: "array_value"@,
                            },
                        ),
                    ),
                },
            ).push(
                PlanStepV::Unnest {
                    column: ColNameV::Generated {
                        id: old(state).next_field_id,
                        hint: "array_value"@,
                    },
                },
            ).push(PlanStepV::Project { items: item_views(init_items@) }),
        })),
{
    let ghost schema0 = schema_of(plan_with_rand@);
    let schema_cols = plan_with_rand.schema();
    let mut aux_items = column_items_exec(&schema_cols);
    let array_column = state.register_field_name("array_value");
    let seq_item_exec = SelectItem::Calculated {
        func: ScalarFuncName::SparkSequence,
        args: vec![
            ScalarArg::LongLit { value: 1 },
            ScalarArg::ColumnRef { name: rand_column_name.duplicate() },
        ],
        name: array_column.duplicate(),
    };
    proof {
        assert(arg_views(seq_item_exec->Calculated_args@) =~= sequence_item(
            rand_column_name@,
            array_column@,
        )->Calculated_args);
        assert(seq_item_exec@ == sequence_item(rand_column_name@, array_column@));
    }
    aux_items.push(seq_item_exec);
    proof {
        assert(item_views(aux_items@) =~= column_items(schema0).push(
            sequence_item(rand_column_name@, array_column@),
        ));
        assert(forall|i: int| 0 <= i < schema0.len() ==> schema0.contains(#[trigger] schema0[i]));
        lemma_column_items_ok(schema0, schema0);
        lemma_items_ok_push(
            column_items(schema0),
            sequence_item(rand_column_name@, array_column@),
            schema0,
        );
    }
    let expanded = match plan_with_rand.project(aux_items) {
        Ok(p) => p,
        Err(e) => {
            return Err(e);
        },
    };
    proof {
        lemma_schema_after_push(
            expanded@.source_columns,
            expanded@.steps.drop_last(),
            expanded@.steps.last(),
        );
        assert(expanded@.steps.drop_last() =~= plan_with_rand@.steps);
        lemma_item_names_push(
            column_items(schema0),
            sequence_item(rand_column_name@, array_column@),
        );
        lemma_column_item_names(schema0);
        assert(schema_of(expanded@) == schema0.push(array_column@));
        assert(schema0.push(array_column@)[schema0.len() as int] == array_column@);
        assert(schema_of(expanded@).contains(array_column@));
    }
    let unnested = match expanded.unnest_column(array_column) {
        Ok(p) => p,
        Err(e) => {
            return Err(e);
        },
    };
    proof {
        lemma_schema_after_push(
            unnested@.source_columns,
            unnested@.steps.drop_last(),
            unnested@.steps.last(),
        );
        assert(unnested@.steps.drop_last() =~= expanded@.steps);
        assert(schema_of(unnested@) == schema0.push(array_column@));
        lemma_items_ok_extend(item_views(init_items@), schema0, array_column@);
    }
    match unnested.project(init_items) {
        Ok(p) => Ok(p),
        Err(e) => Err(e),
    }
}

/// Resolves a sampling specification into a rewritten plan.
///
/// Fails exactly on invalid bounds (`lower >= upper`), with both values in
/// the error. On every valid specification it succeeds; the result has the
/// input plan's schema, and with an explicit seed it is a function of the
/// specification and the registrar position alone.
pub fn resolve_query_sample(sample: SampleSpec, state: &mut PlanResolverState) -> (r: Result<
    PlanNode,
    PlanError,
>)
    requires
        old(state).next_field_id < u64::MAX - 1,
    ensures
        (double_ge(sample.lower_bound, sample.upper_bound) ==> (r matches Err(e) && e == (
        PlanError::InvalidBounds { lower: sample.lower_bound, upper: sample.upper_bound })
            && final(state).next_field_id == old(state).next_field_id)),
        (!double_ge(sample.lower_bound, sample.upper_bound) ==> (r matches Ok(p)
            && schema_of(p@) == schema_of(sample.input@))),
        (!double_ge(sample.lower_bound, sample.upper_bound) ==> final(state).next_field_id == old(
            state,
        ).next_field_id + (if sample.with_replacement {
            2int
        } else {
            1int
        })),
        (sample.seed matches Some(s) ==> (double_ge(sample.lower_bound, sample.upper_bound)
            || (r matches Ok(p) && p@ == sample_plan(
            sample.input@,
            sample.lower_bound,
            sample.upper_bound,
            sample.with_replacement,
            s,
            old(state).next_field_id,
        )))),
        (!double_ge(sample.lower_bound, sample.upper_bound) && sample.seed is None ==> (
        r matches Ok(p) && exists|s: i64|
            p@ == sample_plan(
                sample.input@,
                sample.lower_bound,
                sample.upper_bound,
                sample.with_replacement,
                s,
                old(state).next_field_id,
            ))),
{
    let SampleSpec { input, lower_bound, upper_bound, with_replacement, seed } = sample;
    if lower_bound.ge(&upper_bound) {
        return Err(PlanError::InvalidBounds { lower: lower_bound, upper: upper_bound });
    }
    let seed_value: i64 = match seed {
        Some(s) => s,
        None => draw_random_seed(),
    };
    let ghost id0 = state.next_field_id;
    let rand_column = state.register_field_name("rand_value");
    let cols = input.schema();
    let init_items = column_items_exec(&cols);
    let mut all_items = column_items_exec(&cols);
    let rand_item_exec = if with_replacement {
        SelectItem::Calculated {
            func: ScalarFuncName::RandPoisson,
            args: vec![
                ScalarArg::DoubleLit { value: upper_bound },
                ScalarArg::LongLit { value: seed_value },
            ],
            name: rand_column.duplicate(),
        }
    } else {
        SelectItem::Calculated {
            func: ScalarFuncName::Random,
            args: vec![ScalarArg::LongLit { value: seed_value }],
            name: rand_column.duplicate(),
        }
    };
    proof {
        assert(arg_views(rand_item_exec->Calculated_args@) =~= rand_item(
            with_replacement,
            upper_bound,
            seed_value,
            rand_column@,
        )->Calculated_args);
        assert(rand_item_exec@ == rand_item(
            with_replacement,
            upper_bound,
            seed_value,
            rand_column@,
        ));
    }
    all_items.push(rand_item_exec);
    let ghost colsv = schema_of(input@);
    proof {
        assert(item_views(all_items@) =~= column_items(colsv).push(
            rand_item(with_replacement, upper_bound, seed_value, rand_column@),
        ));
        assert(forall|i: int| 0 <= i < colsv.len() ==> colsv.contains(#[trigger] colsv[i]));
        lemma_column_items_ok(colsv, colsv);
        lemma_items_ok_push(
            column_items(colsv),
            rand_item(with_replacement, upper_bound, seed_value, rand_column@),
            colsv,
        );
    }
    let plan_with_rand = match input.project(all_items) {
        Ok(p) => p,
        Err(e) => {
            return Err(e);
        },
    };
    proof {
        lemma_schema_after_push(
            plan_with_rand@.source_columns,
            plan_with_rand@.steps.drop_last(),
            plan_with_rand@.steps.last(),
        );
        assert(plan_with_rand@.steps.drop_last() =~= input@.steps);
        lemma_item_names_push(
            column_items(colsv),
            rand_item(with_replacement, upper_bound, seed_value, rand_column@),
        );
        lemma_column_item_names(colsv);
        assert(schema_of(plan_with_rand@) == colsv.push(rand_column@));
        assert(colsv.push(rand_column@)[colsv.len() as int] == rand_column@);
        assert(schema_of(plan_with_rand@).contains(rand_column@));
        lemma_column_items_ok(colsv, colsv);
        lemma_items_ok_extend(column_items(colsv), colsv, rand_column@);
        assert(items_ok(item_views(init_items@), schema_of(plan_with_rand@)));
    }
    let result = if with_replacement {
        resolve_sample_with_replacement(plan_with_rand, &rand_column, init_items, state)
    } else {
        resolve_sample_without_replacement(
            plan_with_rand,
            &rand_column,
            lower_bound,
            upper_bound,
            init_items,
        )
    };
    proof {
        if result is Ok {
            let p = result->Ok_0;
            assert(p@.steps =~= sample_plan(
                input@,
                lower_bound,
                upper_bound,
                with_replacement,
                seed_value,
                id0,
            ).steps);
            assert(p@ == sample_plan(
                input@,
                lower_bound,
                upper_bound,
                with_replacement,
                seed_value,
                id0,
            ));
            lemma_sample_plan_preserves_schema(
                input@,
                lower_bound,
                upper_bound,
                with_replacement,
                seed_value,
                id0,
            );
        }
    }
    result
}

/// Schema preservation: for either branch, the rewritten plan outputs
/// exactly the input plan's columns, names and order alike.
pub proof fn lemma_sample_plan_preserves_schema(
    inp: PlanV,
    lower: DoubleBits,
    upper: DoubleBits,
    with_replacement: bool,
    seed: i64,
    id0: u64,
)
    ensures
        schema_of(sample_plan(inp, lower, upper, with_replacement, seed, id0)) == schema_of(inp),
{
    let cols = schema_of(inp);
    let p = sample_plan(inp, lower, upper, with_replacement, seed, id0);
    assert(p.steps.last() == (PlanStepV::Project { items: column_items(cols) }));
    lemma_schema_after_push(p.source_columns, p.steps.drop_last(), p.steps.last());
    assert(p.steps.drop_last().push(p.steps.last()) =~= p.steps);
    lemma_column_item_names(cols);
}

/// Determinism: with the same input plan, bounds, flag, explicit seed and
/// registrar position, two resolutions yield structurally equal plans.
pub proof fn lemma_resolution_deterministic(
    p1: PlanNode,
    p2: PlanNode,
    inp: PlanV,
    lower: DoubleBits,
    upper: DoubleBits,
    with_replacement: bool,
    seed: i64,
    id0: u64,
)
    requires
        p1@ == sample_plan(inp, lower, upper, with_replacement, seed, id0),
        p2@ == sample_plan(inp, lower, upper, with_replacement, seed, id0),
    ensures
        p1@ == p2@,
{
}

/// Ephemeral-column hygiene: no name the registrar issues at or after the
/// resolution's starting position appears in the rewritten plan's schema,
/// provided every generated name already inside the input schema is older
/// than that position.
pub proof fn lemma_auxiliary_column_hygiene(
    inp: PlanV,
    lower: DoubleBits,
    upper: DoubleBits,
    with_replacement: bool,
    seed: i64,
    id0: u64,
    c: ColNameV,
)
    requires
        forall|i: int| 0 <= i < schema_of(inp).len() ==> ((#[trigger] schema_of(
            inp,
        )[i]) matches ColNameV::Generated { id, hint } ==> id < id0),
        c matches ColNameV::Generated { id, hint } && id >= id0,
    ensures
        !schema_of(sample_plan(inp, lower, upper, with_replacement, seed, id0)).contains(c),
{
    lemma_sample_plan_preserves_schema(inp, lower, upper, with_replacement, seed, id0);
    if schema_of(inp).contains(c) {
        let i = choose|i: int| 0 <= i < schema_of(inp).len() && schema_of(inp)[i] == c;
        assert((schema_of(inp)[i]) matches ColNameV::Generated { id, hint } && id >= id0);
    }
}

/// The Bernoulli branch adds no row-expanding operator: every step it
/// wraps around the input is a projection or a filter, so no input row can
/// be duplicated by the rewrite.
pub proof fn lemma_bernoulli_no_expansion(
    inp: PlanV,
    lower: DoubleBits,
    upper: DoubleBits,
    seed: i64,
    id0: u64,
)
    ensures
        sample_plan(inp, lower, upper, false, seed, id0).steps.len() == inp.steps.len() + 4,
        forall|i: int| 0 <= i < inp.steps.len() ==> sample_plan(
            inp,
            lower,
            upper,
            false,
            seed,
            id0,
        ).steps[i] == #[trigger] inp.steps[i],
        forall|i: int| inp.steps.len() <= i < inp.steps.len() + 4 ==> !((#[trigger] sample_plan(
            inp,
            lower,
            upper,
            false,
            seed,
            id0,
        ).steps[i]) is Unnest),
{
}

} // verus!

