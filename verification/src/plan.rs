//! An immutable, tree-shaped relational plan, modelled as an algebraic sum
//! type: an opaque, already-resolved source with a known schema, wrapped by
//! projection, filter and row-expansion (unnest) nodes. A rewrite step never
//! mutates a node; it returns a new node owning the previous one.
//!
//! The ghost mirror of a plan is the source schema plus the sequence of
//! wrapping steps, so that two plans are structurally equal exactly when
//! their mirrors are equal.

use crate::doubles::DoubleBits;
use crate::error::PlanError;
use vstd::prelude::*;

verus! {

/// A column name: a user column of the source, or a name issued by the name
/// registrar (a unique id plus the hint it was requested under).
#[derive(Debug, Clone, PartialEq, Eq)]
pub enum ColName {
    User { name: String },
    Generated { id: u64, hint: String },
}

/// Ghost mirror of `ColName`.
pub enum ColNameV {
    User { name: Seq<char> },
    Generated { id: u64, hint: Seq<char> },
}

impl View for ColName {
    type V = ColNameV;

    open spec fn view(&self) -> ColNameV {
        match self {
            ColName::User { name } => ColNameV::User { name: name@ },
            ColName::Generated { id, hint } => ColNameV::Generated { id: *id, hint: hint@ },
        }
    }
}

impl ColName {
    /// A copy carrying the same name.
    pub fn duplicate(&self) -> (r: ColName)
        ensures
            r@ == self@,
    {
        match self {
            ColName::User { name } => ColName::User { name: name.clone() },
            ColName::Generated { id, hint } => ColName::Generated {
                id: *id,
                hint: hint.clone(),
            },
        }
    }

    /// Whether two names are the same name.
    pub fn same_name(&self, other: &ColName) -> (r: bool)
        ensures
            r == (self@ == other@),
    {
        match (self, other) {
            (ColName::User { name: a }, ColName::User { name: b }) => *a == *b,
            (
                ColName::Generated { id: ia, hint: ha },
                ColName::Generated { id: ib, hint: hb },
            ) => *ia == *ib && *ha == *hb,
            _ => false,
        }
    }
}

/// The views of a sequence of names.
pub open spec fn col_views(cols: Seq<ColName>) -> Seq<ColNameV> {
    cols.map_values(|c: ColName| c@)
}

/// The external scalar functions a sample rewrite invokes. Their per-row
/// numeric behaviour belongs to the execution engine; the plan only names
/// them and fixes their arguments.
#[derive(Debug, Clone, Copy, PartialEq, Eq, Structural)]
pub enum ScalarFuncName {
    /// Per-row Poisson replication count with a given mean, under a seed.
    RandPoisson,
    /// Per-row uniform value in [0, 1) under a seed.
    Random,
    /// Integer sequence from a start value to a stop value.
    SparkSequence,
}

/// An argument of a scalar-function call.
#[derive(Debug, Clone, PartialEq, Eq)]
pub enum ScalarArg {
    /// A column of the node below.
    ColumnRef { name: ColName },
    /// A 64-bit integer literal.
    LongLit { value: i64 },
    /// A double literal, carried as its bit pattern.
    DoubleLit { value: DoubleBits },
}

/// Ghost mirror of `ScalarArg`.
pub enum ScalarArgV {
    ColumnRef { name: ColNameV },
    LongLit { value: i64 },
    DoubleLit { value: DoubleBits },
}

impl View for ScalarArg {
    type V = ScalarArgV;

    open spec fn view(&self) -> ScalarArgV {
        match self {
            ScalarArg::ColumnRef { name } => ScalarArgV::ColumnRef { name: name@ },
            ScalarArg::LongLit { value } => ScalarArgV::LongLit { value: *value },
            ScalarArg::DoubleLit { value } => ScalarArgV::DoubleLit { value: *value },
        }
    }
}

/// The views of a sequence of arguments.
pub open spec fn arg_views(args: Seq<ScalarArg>) -> Seq<ScalarArgV> {
    args.map_values(|a: ScalarArg| a@)
}

/// One item of a projection: a pass-through column, or a scalar-function
/// call aliased to a name.
#[derive(Debug, Clone, PartialEq, Eq)]
pub enum SelectItem {
    Column { name: ColName },
    Calculated { func: ScalarFuncName, args: Vec<ScalarArg>, name: ColName },
}

/// Ghost mirror of `SelectItem`.
pub enum SelectItemV {
    Column { name: ColNameV },
    Calculated { func: ScalarFuncName, args: Seq<ScalarArgV>, name: ColNameV },
}

impl View for SelectItem {
    type V = SelectItemV;

    open spec fn view(&self) -> SelectItemV {
        match self {
            SelectItem::Column { name } => SelectItemV::Column { name: name@ },
            SelectItem::Calculated { func, args, name } => SelectItemV::Calculated {
                func: *func,
                args: arg_views(args@),
                name: name@,
            },
        }
    }
}

/// The views of a sequence of projection items.
pub open spec fn item_views(items: Seq<SelectItem>) -> Seq<SelectItemV> {
    items.map_values(|it: SelectItem| it@)
}

/// The output name of a projection item.
pub open spec fn item_name(it: SelectItemV) -> ColNameV {
    match it {
        SelectItemV::Column { name } => name,
        SelectItemV::Calculated { func: _, args: _, name } => name,
    }
}

/// The names a projection outputs, in order.
pub open spec fn item_names(items: Seq<SelectItemV>) -> Seq<ColNameV> {
    items.map_values(|it: SelectItemV| item_name(it))
}

/// A filter predicate: a column compared against a double literal.
#[derive(Debug, Clone, PartialEq, Eq)]
pub enum Predicate {
    /// Keeps the rows whose column value is strictly below `value`.
    Lt { column: ColName, value: DoubleBits },
    /// Keeps the rows whose column value is at least `value`.
    GtEq { column: ColName, value: DoubleBits },
}

/// Ghost mirror of `Predicate`.
pub enum PredicateV {
    Lt { column: ColNameV, value: DoubleBits },
    GtEq { column: ColNameV, value: DoubleBits },
}

impl View for Predicate {
    type V = PredicateV;

    open spec fn view(&self) -> PredicateV {
        match self {
            Predicate::Lt { column, value } => PredicateV::Lt { column: column@, value: *value },
            Predicate::GtEq { column, value } => PredicateV::GtEq {
                column: column@,
                value: *value,
            },
        }
    }
}

/// The column a predicate reads.
pub open spec fn pred_column(p: PredicateV) -> ColNameV {
    match p {
        PredicateV::Lt { column, value: _ } => column,
        PredicateV::GtEq { column, value: _ } => column,
    }
}

impl Predicate {
    /// The column this predicate reads.
    pub fn column_ref(&self) -> (r: &ColName)
        ensures
            r@ == pred_column(self@),
    {
        match self {
            Predicate::Lt { column, value: _ } => column,
            Predicate::GtEq { column, value: _ } => column,
        }
    }
}

/// A relational plan node.
#[derive(Debug, PartialEq, Eq)]
pub enum PlanNode {
    /// An opaque, already-resolved input plan with the given output columns.
    Source { columns: Vec<ColName> },
    /// Projection of the node below onto the given items.
    Project { input: Box<PlanNode>, items: Vec<SelectItem> },
    /// The rows of the node below that satisfy the predicate.
    Filter { input: Box<PlanNode>, predicate: Predicate },
    /// Row expansion: one output row per element of the sequence held by
    /// `column`, the other columns replicated unchanged. A row whose
    /// sequence is empty disappears.
    Unnest { input: Box<PlanNode>, column: ColName },
}

/// One rewrite layer above the source, in the ghost mirror of a plan.
pub enum PlanStepV {
    Project { items: Seq<SelectItemV> },
    Filter { predicate: PredicateV },
    Unnest { column: ColNameV },
}

/// Ghost mirror of a plan: the source schema, and the layers wrapped around
/// the source, in order from the source outward.
pub struct PlanV {
    pub source_columns: Seq<ColNameV>,
    pub steps: Seq<PlanStepV>,
}

/// The ghost mirror of a plan node.
pub open spec fn plan_view(p: PlanNode) -> PlanV
    decreases p,
{
    match p {
        PlanNode::Source { columns } => PlanV {
            source_columns: col_views(columns@),
            steps: Seq::<PlanStepV>::empty(),
        },
        PlanNode::Project { input, items } => PlanV {
            source_columns: plan_view(*input).source_columns,
            steps: plan_view(*input).steps.push(
                PlanStepV::Project { items: item_views(items@) },
            ),
        },
        PlanNode::Filter { input, predicate } => PlanV {
            source_columns: plan_view(*input).source_columns,
            steps: plan_view(*input).steps.push(PlanStepV::Filter { predicate: predicate@ }),
        },
        PlanNode::Unnest { input, column } => PlanV {
            source_columns: plan_view(*input).source_columns,
            steps: plan_view(*input).steps.push(PlanStepV::Unnest { column: column@ }),
        },
    }
}

impl View for PlanNode {
    type V = PlanV;

    open spec fn view(&self) -> PlanV {
        plan_view(*self)
    }
}

/// The output schema after applying `steps` on top of `base`: a projection
/// replaces the schema by its item names; a filter or unnest keeps it.
pub open spec fn schema_after(base: Seq<ColNameV>, steps: Seq<PlanStepV>) -> Seq<ColNameV>
    decreases steps.len(),
{
    if steps.len() == 0 {
        base
    } else {
        match steps.last() {
            PlanStepV::Project { items } => item_names(items),
            PlanStepV::Filter { predicate: _ } => schema_after(base, steps.drop_last()),
            PlanStepV::Unnest { column: _ } => schema_after(base, steps.drop_last()),
        }
    }
}

/// The output schema of a plan.
pub open spec fn schema_of(p: PlanV) -> Seq<ColNameV> {
    schema_after(p.source_columns, p.steps)
}

/// What the schema becomes when one more step is wrapped around a plan.
pub proof fn lemma_schema_after_push(base: Seq<ColNameV>, steps: Seq<PlanStepV>, st: PlanStepV)
    ensures
        (st matches PlanStepV::Project { items } ==> schema_after(base, steps.push(st))
            == item_names(items)),
        (st is Filter || st is Unnest) ==> schema_after(base, steps.push(st)) == schema_after(
            base,
            steps,
        ),
{
    assert(steps.push(st).last() == st);
    assert(steps.push(st).drop_last() =~= steps);
}

/// Whether a scalar argument reads only existing columns.
pub open spec fn arg_col_ok(a: ScalarArgV, schema: Seq<ColNameV>) -> bool {
    match a {
        ScalarArgV::ColumnRef { name } => schema.contains(name),
        ScalarArgV::LongLit { value: _ } => true,
        ScalarArgV::DoubleLit { value: _ } => true,
    }
}

/// Whether every scalar argument reads only existing columns.
pub open spec fn arg_cols_ok(args: Seq<ScalarArgV>, schema: Seq<ColNameV>) -> bool {
    forall|i: int| 0 <= i < args.len() ==> #[trigger] arg_col_ok(args[i], schema)
}

/// Whether a projection item reads only existing columns.
pub open spec fn item_ok(it: SelectItemV, schema: Seq<ColNameV>) -> bool {
    match it {
        SelectItemV::Column { name } => schema.contains(name),
        SelectItemV::Calculated { func: _, args, name: _ } => arg_cols_ok(args, schema),
    }
}

/// Whether every projection item reads only existing columns.
pub open spec fn items_ok(items: Seq<SelectItemV>, schema: Seq<ColNameV>) -> bool {
    forall|i: int| 0 <= i < items.len() ==> #[trigger] item_ok(items[i], schema)
}

/// Whether a predicate reads an existing column.
pub open spec fn predicate_ok(p: PredicateV, schema: Seq<ColNameV>) -> bool {
    schema.contains(pred_column(p))
}

/// Whether `name` occurs in `schema`.
fn schema_contains(schema: &Vec<ColName>, name: &ColName) -> (r: bool)
    ensures
        r == col_views(schema@).contains(name@),
{
    let mut i: usize = 0;
    while i < schema.len()
        invariant
            i <= schema@.len(),
            forall|j: int| 0 <= j < i ==> #[trigger] col_views(schema@)[j] != name@,
        decreases schema@.len() - i,
    {
        if schema[i].same_name(name) {
            proof {
                assert(col_views(schema@)[i as int] == name@);
            }
            return true;
        }
        i = i + 1;
    }
    false
}

/// A copy of a column list carrying the same names.
fn clone_cols(columns: &Vec<ColName>) -> (r: Vec<ColName>)
    ensures
        col_views(r@) == col_views(columns@),
{
    let mut out: Vec<ColName> = Vec::new();
    let mut i: usize = 0;
    while i < columns.len()
        invariant
            i <= columns@.len(),
            out@.len() == i,
            forall|j: int| 0 <= j < i ==> #[trigger] out@[j]@ == columns@[j]@,
        decreases columns@.len() - i,
    {
        out.push(columns[i].duplicate());
        i = i + 1;
    }
    proof {
        assert(col_views(out@) =~= col_views(columns@));
    }
    out
}

impl SelectItem {
    /// The output name of this item.
    pub fn out_name(&self) -> (r: ColName)
        ensures
            r@ == item_name(self@),
    {
        match self {
            SelectItem::Column { name } => name.duplicate(),
            SelectItem::Calculated { func: _, args: _, name } => name.duplicate(),
        }
    }

    /// Checks that this item reads only columns of `schema`.
    fn check(&self, schema: &Vec<ColName>) -> (r: Result<(), PlanError>)
        ensures
            r is Ok <==> item_ok(self@, col_views(schema@)),
            (r matches Err(e) ==> (e matches PlanError::UnknownColumn { name }
                && !col_views(schema@).contains(name@))),
    {
        match self {
            SelectItem::Column { name } => {
                if schema_contains(schema, name) {
                    Ok(())
                } else {
                    Err(PlanError::UnknownColumn { name: name.duplicate() })
                }
            },
            SelectItem::Calculated { func: _, args, name: _ } => {
                let mut i: usize = 0;
                while i < args.len()
                    invariant
                        i <= args@.len(),
                        self@ is Calculated,
                        self@->Calculated_args == arg_views(args@),
                        forall|j: int| 0 <= j < i ==> #[trigger] arg_col_ok(
                            arg_views(args@)[j],
                            col_views(schema@),
                        ),
                    decreases args@.len() - i,
                {
                    match &args[i] {
                        ScalarArg::ColumnRef { name } => {
                            if !schema_contains(schema, name) {
                                proof {
                                    assert(!arg_col_ok(
                                        arg_views(args@)[i as int],
                                        col_views(schema@),
                                    ));
                                    assert(!arg_cols_ok(arg_views(args@), col_views(schema@)));
                                    assert(!item_ok(self@, col_views(schema@)));
                                }
                                return Err(PlanError::UnknownColumn { name: name.duplicate() });
                            }
                        },
                        ScalarArg::LongLit { value: _ } => {},
                        ScalarArg::DoubleLit { value: _ } => {},
                    }
                    proof {
                        assert(arg_col_ok(arg_views(args@)[i as int], col_views(schema@)));
                    }
                    i = i + 1;
                }
                Ok(())
            },
        }
    }
}

impl PlanNode {
    /// The plan's output columns, in order.
    pub fn schema(&self) -> (r: Vec<ColName>)
        ensures
            col_views(r@) == schema_of(self@),
        decreases *self,
    {
        match self {
            PlanNode::Source { columns } => clone_cols(columns),
            PlanNode::Project { input, items } => {
                let mut out: Vec<ColName> = Vec::new();
                let mut i: usize = 0;
                while i < items.len()
                    invariant
                        i <= items@.len(),
                        out@.len() == i,
                        forall|j: int| 0 <= j < i ==> #[trigger] out@[j]@ == item_name(
                            item_views(items@)[j],
                        ),
                    decreases items@.len() - i,
                {
                    out.push(items[i].out_name());
                    i = i + 1;
                }
                proof {
                    assert(col_views(out@) =~= item_names(item_views(items@)));
                    lemma_schema_after_push(
                        plan_view(**input).source_columns,
                        plan_view(**input).steps,
                        PlanStepV::Project { items: item_views(items@) },
                    );
                }
                out
            },
            PlanNode::Filter { input, predicate } => {
                let r = input.schema();
                proof {
                    lemma_schema_after_push(
                        plan_view(**input).source_columns,
                        plan_view(**input).steps,
                        PlanStepV::Filter { predicate: predicate@ },
                    );
                }
                r
            },
            PlanNode::Unnest { input, column } => {
                let r = input.schema();
                proof {
                    lemma_schema_after_push(
                        plan_view(**input).source_columns,
                        plan_view(**input).steps,
                        PlanStepV::Unnest { column: column@ },
                    );
                }
                r
            },
        }
    }

    /// Wraps the plan in a projection onto `items`. Fails exactly when an
    /// item reads a column the plan does not output.
    pub fn project(self, items: Vec<SelectItem>) -> (r: Result<PlanNode, PlanError>)
        ensures
            items_ok(item_views(items@), schema_of(self@)) ==> (r matches Ok(p) && p@ == (PlanV {
                source_columns: self@.source_columns,
                steps: self@.steps.push(PlanStepV::Project { items: item_views(items@) }),
            })),
            !items_ok(item_views(items@), schema_of(self@)) ==> r is Err,
            (r matches Err(e) ==> (e matches PlanError::UnknownColumn { name }
                && !schema_of(self@).contains(name@))),
    {
        let schema = self.schema();
        let mut i: usize = 0;
        while i < items.len()
            invariant
                i <= items@.len(),
                col_views(schema@) == schema_of(self@),
                forall|j: int| 0 <= j < i ==> #[trigger] item_ok(
                    item_views(items@)[j],
                    col_views(schema@),
                ),
            decreases items@.len() - i,
        {
            match items[i].check(&schema) {
                Ok(_) => {},
                Err(e) => {
                    proof {
                        assert(!item_ok(item_views(items@)[i as int], col_views(schema@)));
                    }
                    return Err(e);
                },
            }
            i = i + 1;
        }
        Ok(PlanNode::Project { input: Box::new(self), items })
    }

    /// Wraps the plan in a filter. Fails exactly when the predicate reads a
    /// column the plan does not output.
    pub fn filter(self, predicate: Predicate) -> (r: Result<PlanNode, PlanError>)
        ensures
            predicate_ok(predicate@, schema_of(self@)) ==> (r matches Ok(p) && p@ == (PlanV {
                source_columns: self@.source_columns,
                steps: self@.steps.push(PlanStepV::Filter { predicate: predicate@ }),
            })),
            !predicate_ok(predicate@, schema_of(self@)) ==> r is Err,
            (r matches Err(e) ==> (e matches PlanError::UnknownColumn { name }
                && !schema_of(self@).contains(name@))),
    {
        let schema = self.schema();
        if schema_contains(&schema, predicate.column_ref()) {
            Ok(PlanNode::Filter { input: Box::new(self), predicate })
        } else {
            let missing = predicate.column_ref().duplicate();
            Err(PlanError::UnknownColumn { name: missing })
        }
    }

    /// Wraps the plan in a row expansion of `column`. Fails exactly when the
    /// plan does not output that column.
    pub fn unnest_column(self, column: ColName) -> (r: Result<PlanNode, PlanError>)
        ensures
            schema_of(self@).contains(column@) ==> (r matches Ok(p) && p@ == (PlanV {
                source_columns: self@.source_columns,
                steps: self@.steps.push(PlanStepV::Unnest { column: column@ }),
            })),
            !schema_of(self@).contains(column@) ==> (r matches Err(e) && e == (
            PlanError::UnknownColumn { name: column })),
    {
        let schema = self.schema();
        if schema_contains(&schema, &column) {
            Ok(PlanNode::Unnest { input: Box::new(self), column })
        } else {
            Err(PlanError::UnknownColumn { name: column })
        }
    }
}

} // verus!
