//! Properties of conversion and execution that hold for every input.

use vstd::prelude::*;

use crate::ast::{Expression, Operation, Projection, Query, Select, Source, Value};
use crate::convert::{
    condition_of, limit_clause_of, literal_of, operator_of, order_keys_of, projection_of,
    projections_of, select_plan_of, source_of, MAX_STRING_CHARS,
};
use crate::engine::{filter_steps, sort_step, steps_of, StepModel};
use crate::plan::{ConversionError, Expr, LiteralValue, Operator, PlanModel};
use crate::text::{is_point_number_text, signed_text_value, unsigned_text_value};

verus! {

/// Every operator token of the supported set becomes a plan operator, and
/// every other one is refused with `UnsupportedOperator` naming it.
pub proof fn operator_mapping_is_total(op: Operation)
    ensures
        match op {
            Operation::Other(name) => operator_of(op) == Err::<Operator, ConversionError>(
                ConversionError::UnsupportedOperator(name),
            ),
            _ => operator_of(op) is Ok,
        },
{
}

/// Every literal token of the supported kinds becomes the literal of its kind
/// (or fails on its text, with `NumericParse` or `StringTooLong`), and every
/// other kind is refused with `UnsupportedLiteral` naming it.
pub proof fn literal_mapping_is_total(v: Value)
    ensures
        match v {
            Value::Number(t) => {
                &&& (!t@.contains('.') && signed_text_value(t@) is Some) ==> literal_of(v) == Ok::<
                    LiteralValue,
                    ConversionError,
                >(LiteralValue::Int64(signed_text_value(t@)->0))
                &&& (t@.contains('.') && is_point_number_text(t@)) ==> literal_of(v) == Ok::<
                    LiteralValue,
                    ConversionError,
                >(LiteralValue::Float64(t))
                &&& literal_of(v) is Ok || literal_of(v) == Err::<LiteralValue, ConversionError>(
                    ConversionError::NumericParse,
                )
            },
            Value::SingleQuotedString(t) | Value::DoubleQuotedString(t) => if t@.len()
                <= MAX_STRING_CHARS {
                literal_of(v) == Ok::<LiteralValue, ConversionError>(LiteralValue::String(t))
            } else {
                literal_of(v) == Err::<LiteralValue, ConversionError>(
                    ConversionError::StringTooLong,
                )
            },
            Value::Boolean(b) => literal_of(v) == Ok::<LiteralValue, ConversionError>(
                LiteralValue::Boolean(b),
            ),
            Value::Null => literal_of(v) == Ok::<LiteralValue, ConversionError>(
                LiteralValue::Null,
            ),
            Value::Other(kind) => literal_of(v) == Err::<LiteralValue, ConversionError>(
                ConversionError::UnsupportedLiteral(kind),
            ),
        },
{
}

/// A failing clause ends conversion: the source, the select list, the
/// `WHERE` clause, the `ORDER BY` list and the limit are tried in that order,
/// the error of the first one that fails is the result, and a plan comes out
/// only when none fails.
pub proof fn conversion_fails_fast(s: Select, q: Query)
    ensures
        source_of(s.from) matches Err(x) ==> select_plan_of(s, q) == Err::<
            PlanModel,
            ConversionError,
        >(x),
        source_of(s.from) is Ok ==> (projections_of(s.projection@) matches Err(x)
            ==> select_plan_of(s, q) == Err::<PlanModel, ConversionError>(x)),
        source_of(s.from) is Ok && projections_of(s.projection@) is Ok ==> (condition_of(
            s.selection,
        ) matches Err(x) ==> select_plan_of(s, q) == Err::<PlanModel, ConversionError>(x)),
        source_of(s.from) is Ok && projections_of(s.projection@) is Ok && condition_of(
            s.selection,
        ) is Ok ==> (order_keys_of(q.order_by@) matches Err(x) ==> select_plan_of(s, q) == Err::<
            PlanModel,
            ConversionError,
        >(x)),
        source_of(s.from) is Ok && projections_of(s.projection@) is Ok && condition_of(
            s.selection,
        ) is Ok && order_keys_of(q.order_by@) is Ok ==> (limit_clause_of(q.limit) matches Err(x)
            ==> select_plan_of(s, q) == Err::<PlanModel, ConversionError>(x)),
        select_plan_of(s, q) is Ok <==> (source_of(s.from) is Ok && projections_of(
            s.projection@,
        ) is Ok && condition_of(s.selection) is Ok && order_keys_of(q.order_by@) is Ok
            && limit_clause_of(q.limit) is Ok),
{
}

proof fn lemma_projections_all_ok(ps: Seq<Projection>, k: int)
    requires
        0 <= k <= ps.len(),
        forall|j: int| 0 <= j < k ==> (#[trigger] projection_of(ps[j])) is Ok,
    ensures
        projections_of(ps.take(k)) is Ok,
    decreases k,
{
    if k > 0 {
        assert(ps.take(k).drop_last() =~= ps.take(k - 1));
        lemma_projections_all_ok(ps, k - 1);
        assert(ps.take(k).last() == ps[k - 1]);
    } else {
        assert(ps.take(0) =~= Seq::<Projection>::empty());
    }
}

proof fn lemma_projections_error_stays(ps: Seq<Projection>, k: int)
    requires
        0 <= k <= ps.len(),
        projections_of(ps.take(k)) is Err,
    ensures
        projections_of(ps) == projections_of(ps.take(k)),
    decreases ps.len() - k,
{
    if k < ps.len() {
        assert(ps.take(k + 1).drop_last() =~= ps.take(k));
        lemma_projections_error_stays(ps, k + 1);
    } else {
        assert(ps.take(k) =~= ps);
    }
}

/// Within a select list, the first item that fails decides the error.
pub proof fn first_failing_projection_decides(ps: Seq<Projection>, i: int, x: ConversionError)
    requires
        0 <= i < ps.len(),
        forall|j: int| 0 <= j < i ==> (#[trigger] projection_of(ps[j])) is Ok,
        projection_of(ps[i]) == Err::<Expr, ConversionError>(x),
    ensures
        projections_of(ps) == Err::<Seq<Expr>, ConversionError>(x),
{
    lemma_projections_all_ok(ps, i);
    assert(ps.take(i + 1).drop_last() =~= ps.take(i));
    assert(ps.take(i + 1).last() == ps[i]);
    lemma_projections_error_stays(ps, i + 1);
}

/// A `FROM` list with other than exactly one entry, or with a join, is
/// refused with `UnsupportedSource`; one named table without joins is accepted
/// as the source.
pub proof fn single_table_is_enforced(src: Source)
    ensures
        (src.tables@.len() != 1 || src.tables@[0].joins != 0) ==> source_of(src) == Err::<
            String,
            ConversionError,
        >(ConversionError::UnsupportedSource),
        (src.tables@.len() == 1 && src.tables@[0].joins == 0
            && src.tables@[0].relation is Table) ==> source_of(src) == Ok::<
            String,
            ConversionError,
        >(src.tables@[0].relation->Table_0),
{
}

/// A select over two or more tables, or with a join, fails with
/// `UnsupportedSource`, whatever its other clauses hold.
pub proof fn several_tables_fail(s: Select, q: Query)
    requires
        s.from.tables@.len() >= 2 || exists|i: int|
            0 <= i < s.from.tables@.len() && (#[trigger] s.from.tables@[i]).joins != 0,
    ensures
        select_plan_of(s, q) == Err::<PlanModel, ConversionError>(
            ConversionError::UnsupportedSource,
        ),
{
}

/// Each sort key becomes a full sort of its own, in the order of the keys,
/// right after the projection; no other step sorts. A later key therefore
/// re-sorts the whole result of the earlier ones.
pub proof fn sort_keys_apply_in_sequence(p: PlanModel)
    ensures
        forall|i: int|
            0 <= i < p.order_by.len() ==> steps_of(p)[filter_steps(p.condition).len() + 1 + i]
                == sort_step(#[trigger] p.order_by[i]),
        forall|j: int|
            0 <= j < steps_of(p).len() && (#[trigger] steps_of(p)[j]) is Sort ==> filter_steps(
                p.condition,
            ).len() + 1 <= j < filter_steps(p.condition).len() + 1 + p.order_by.len(),
{
    let head = filter_steps(p.condition) + seq![StepModel::Select(p.selection)];
    let sorts = p.order_by.map_values(|k: (String, bool)| sort_step(k));
    let tail = crate::engine::skip_steps(p.offset) + crate::engine::take_steps(p.limit);
    assert(steps_of(p) =~= head + sorts + tail);
    assert forall|i: int| 0 <= i < p.order_by.len() implies steps_of(p)[filter_steps(
        p.condition,
    ).len() + 1 + i] == sort_step(#[trigger] p.order_by[i]) by {
        assert(sorts[i] == sort_step(p.order_by[i]));
    }
    assert forall|j: int| 0 <= j < steps_of(p).len() && (#[trigger] steps_of(p)[j]) is Sort implies
        filter_steps(p.condition).len() + 1 <= j < filter_steps(p.condition).len() + 1
            + p.order_by.len() by {
        if j < head.len() {
            assert(steps_of(p)[j] == head[j]);
        } else if j >= head.len() + sorts.len() {
            assert(steps_of(p)[j] == tail[j - head.len() - sorts.len()]);
        }
    }
}

/// Whether an expression is an unsigned decimal number that fits in a `u64`.
pub open spec fn is_count(e: Expression) -> bool {
    e matches Expression::Value(Value::Number(t)) && unsigned_text_value(t@) is Some
}

/// An `OFFSET` that is not a number never makes conversion fail and becomes
/// 0; a `LIMIT` that is not a number always makes it fail, with
/// `InvalidLimit` where no earlier clause failed.
pub proof fn offset_lenient_limit_strict(s: Select, q: Query)
    ensures
        select_plan_of(s, q) is Ok <==> select_plan_of(s, Query { offset: None, ..q }) is Ok,
        (q.offset matches Some(o) && !is_count(o.value)) ==> (select_plan_of(s, q) is Ok
            ==> select_plan_of(s, q)->Ok_0.offset == Some(0u64)),
        (q.limit matches Some(e) && !is_count(e)) ==> select_plan_of(s, q) is Err,
        (q.limit matches Some(e) && !is_count(e)) ==> (source_of(s.from) is Ok && projections_of(
            s.projection@,
        ) is Ok && condition_of(s.selection) is Ok && order_keys_of(q.order_by@) is Ok
            ==> select_plan_of(s, q) == Err::<PlanModel, ConversionError>(
            ConversionError::InvalidLimit,
        )),
{
}

} // verus!
