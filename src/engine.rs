//! Execution of a plan: where the table comes from, and the ordered steps that
//! the table engine applies to it.
//!
//! The steps are filter, projection, one full sort per sort key in the order
//! of the keys, skipping the offset rows, and keeping the limit rows. A later
//! sort key re-sorts the whole result of the earlier ones, so the last key
//! dominates.

use vstd::prelude::*;

use crate::plan::{Expr, PlanModel, Sql};
use crate::text::has_prefix;

verus! {

/// Where the table of a plan is read from.
#[derive(Debug, PartialEq, Eq)]
pub enum DataSource {
    /// Fetched over HTTP and read as CSV.
    RemoteHttp(String),
    /// Opened as a local file and read as CSV.
    LocalFile(String),
}

/// A source that starts with `http` is remote; any other is a local path.
pub open spec fn source_kind(source: String) -> DataSource {
    if seq!['h', 't', 't', 'p'].is_prefix_of(source@) {
        DataSource::RemoteHttp(source)
    } else {
        DataSource::LocalFile(source)
    }
}

/// Classifies the source string of a plan.
pub fn classify_source(source: String) -> (r: DataSource)
    ensures
        r == source_kind(source),
{
    proof {
        reveal_strlit("http");
    }
    if has_prefix(source.as_str(), "http") {
        assert("http"@ =~= seq!['h', 't', 't', 'p']);
        DataSource::RemoteHttp(source)
    } else {
        assert("http"@ =~= seq!['h', 't', 't', 'p']);
        DataSource::LocalFile(source)
    }
}

/// One operation of the table engine.
#[derive(Debug, PartialEq, Eq)]
pub enum Step {
    /// Keep the rows for which the predicate holds.
    Filter(Expr),
    /// Compute these output columns, in order; a wildcard stands for every
    /// column of the table at this point.
    Select(Vec<Expr>),
    /// Sort all rows by one column.
    Sort { column: String, ascending: bool },
    /// Drop this many rows from the front.
    Skip(u64),
    /// Keep at most this many rows from the front.
    Take(u64),
}

/// A step, with its column list as a sequence.
pub enum StepModel {
    Filter(Expr),
    Select(Seq<Expr>),
    Sort { column: String, ascending: bool },
    Skip(u64),
    Take(u64),
}

impl View for Step {
    type V = StepModel;

    open spec fn view(&self) -> StepModel {
        match self {
            Step::Filter(e) => StepModel::Filter(*e),
            Step::Select(v) => StepModel::Select(v@),
            Step::Sort { column, ascending } => StepModel::Sort {
                column: *column,
                ascending: *ascending,
            },
            Step::Skip(n) => StepModel::Skip(*n),
            Step::Take(n) => StepModel::Take(*n),
        }
    }
}

pub open spec fn sort_step(key: (String, bool)) -> StepModel {
    StepModel::Sort { column: key.0, ascending: key.1 }
}

pub open spec fn filter_steps(condition: Option<Expr>) -> Seq<StepModel> {
    match condition {
        Some(e) => seq![StepModel::Filter(e)],
        None => Seq::empty(),
    }
}

pub open spec fn skip_steps(offset: Option<u64>) -> Seq<StepModel> {
    match offset {
        Some(n) => seq![StepModel::Skip(n)],
        None => Seq::empty(),
    }
}

pub open spec fn take_steps(limit: Option<u64>) -> Seq<StepModel> {
    match limit {
        Some(n) => seq![StepModel::Take(n)],
        None => Seq::empty(),
    }
}

/// The steps of a plan: filter, projection, one sort per key in key order,
/// offset, limit.
pub open spec fn steps_of(p: PlanModel) -> Seq<StepModel> {
    filter_steps(p.condition) + seq![StepModel::Select(p.selection)] + p.order_by.map_values(
        |k: (String, bool)| sort_step(k),
    ) + skip_steps(p.offset) + take_steps(p.limit)
}

pub open spec fn steps_view(steps: Seq<Step>) -> Seq<StepModel> {
    steps.map_values(|s: Step| s@)
}

/// What the engine runs for one plan.
#[derive(Debug, PartialEq, Eq)]
pub struct Execution {
    pub source: DataSource,
    pub steps: Vec<Step>,
}

impl Execution {
    /// The source and the steps of a plan.
    pub fn of_plan(plan: Sql) -> (r: Execution)
        ensures
            r.source == source_kind(plan.source),
            steps_view(r.steps@) == steps_of(plan@),
    {
        let ghost p = plan@;
        let Sql { selection, condition, source, order_by, offset, limit } = plan;
        let mut steps: Vec<Step> = Vec::new();
        match condition {
            Some(e) => steps.push(Step::Filter(e)),
            None => {},
        }
        steps.push(Step::Select(selection));
        let ghost head = steps_view(steps@);
        assert(head =~= filter_steps(p.condition) + seq![StepModel::Select(p.selection)]);
        let mut i: usize = 0;
        while i < order_by.len()
            invariant
                i <= order_by@.len(),
                order_by@ == p.order_by,
                steps_view(steps@) =~= head + p.order_by.take(i as int).map_values(
                    |k: (String, bool)| sort_step(k),
                ),
            decreases order_by@.len() - i,
        {
            let ghost before = steps@;
            let column = order_by[i].0.clone();
            let ascending = order_by[i].1;
            steps.push(Step::Sort { column, ascending });
            proof {
                let key = p.order_by[i as int];
                assert(steps@ =~= before.push(Step::Sort { column: key.0, ascending: key.1 }));
                assert(steps_view(steps@) =~= steps_view(before).push(sort_step(key)));
                assert(p.order_by.take(i + 1) =~= p.order_by.take(i as int).push(key));
                assert(p.order_by.take(i + 1).map_values(|k: (String, bool)| sort_step(k))
                    =~= p.order_by.take(i as int).map_values(|k: (String, bool)| sort_step(k)).push(
                    sort_step(key),
                ));
            }
            i = i + 1;
        }
        assert(p.order_by.take(i as int) =~= p.order_by);
        let ghost middle = steps_view(steps@);
        match offset {
            Some(n) => steps.push(Step::Skip(n)),
            None => {},
        }
        assert(steps_view(steps@) =~= middle + skip_steps(p.offset));
        let ghost tail = steps_view(steps@);
        match limit {
            Some(n) => steps.push(Step::Take(n)),
            None => {},
        }
        assert(steps_view(steps@) =~= tail + take_steps(p.limit));
        Execution { source: classify_source(source), steps }
    }
}

} // verus!
