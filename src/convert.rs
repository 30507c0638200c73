//! Conversion of a parsed statement into a plan.
//!
//! Each converter is stated as a spec function over the parsed nodes, and the
//! executable converter returns exactly that. Conversion is fail-fast: the
//! first node that cannot be converted decides the error, and no partial plan
//! is returned.

use vstd::prelude::*;

use crate::ast::{
    Expression, Offset, Operation, Order, Projection, Query, Select, SetExpr, Source, Statement,
    TableFactor, Value,
};
use crate::plan::{ConversionError, Expr, LiteralValue, Operator, PlanModel, Sql};
use crate::text::{
    contains_char, is_point_number, is_point_number_text, parse_signed, parse_unsigned,
    signed_text_value, unsigned_text_value,
};

verus! {

/// The longest string literal a plan carries, in characters. The table engine
/// records the byte length of each string value in 32 bits, and a character
/// takes at most four bytes.
pub const MAX_STRING_CHARS: u64 = 1073741823;

/// The literal that a literal token stands for.
///
/// A numeric token with a decimal point is a `Float64` when it is a well-formed
/// floating-point number; one without is an `Int64` when it is a decimal
/// integer that fits. Quoted strings longer than `MAX_STRING_CHARS` are refused.
pub open spec fn literal_of(v: Value) -> Result<LiteralValue, ConversionError> {
    match v {
        Value::Number(t) => if t@.contains('.') {
            if is_point_number_text(t@) {
                Ok(LiteralValue::Float64(t))
            } else {
                Err(ConversionError::NumericParse)
            }
        } else {
            match signed_text_value(t@) {
                Some(n) => Ok(LiteralValue::Int64(n)),
                None => Err(ConversionError::NumericParse),
            }
        },
        Value::SingleQuotedString(t) => string_literal_of(t),
        Value::DoubleQuotedString(t) => string_literal_of(t),
        Value::Boolean(b) => Ok(LiteralValue::Boolean(b)),
        Value::Null => Ok(LiteralValue::Null),
        Value::Other(kind) => Err(ConversionError::UnsupportedLiteral(kind)),
    }
}

pub open spec fn string_literal_of(t: String) -> Result<LiteralValue, ConversionError> {
    if t@.len() > MAX_STRING_CHARS {
        Err(ConversionError::StringTooLong)
    } else {
        Ok(LiteralValue::String(t))
    }
}

/// The operator that an operator token stands for.
pub open spec fn operator_of(op: Operation) -> Result<Operator, ConversionError> {
    match op {
        Operation::Plus => Ok(Operator::Plus),
        Operation::Minus => Ok(Operator::Minus),
        Operation::Multiply => Ok(Operator::Multiply),
        Operation::Divide => Ok(Operator::Divide),
        Operation::Modulo => Ok(Operator::Modulus),
        Operation::Gt => Ok(Operator::Gt),
        Operation::Lt => Ok(Operator::Lt),
        Operation::GtEq => Ok(Operator::GtEq),
        Operation::LtEq => Ok(Operator::LtEq),
        Operation::Eq => Ok(Operator::Eq),
        Operation::NotEq => Ok(Operator::NotEq),
        Operation::And => Ok(Operator::And),
        Operation::Or => Ok(Operator::Or),
        Operation::Other(name) => Err(ConversionError::UnsupportedOperator(name)),
    }
}

/// The plan expression of an expression node: left operand first, then the
/// right one, then the operator; the first failure is the result.
pub open spec fn expr_of(e: Expression) -> Result<Expr, ConversionError>
    decreases e,
{
    match e {
        Expression::BinaryOp { left, op, right } => match expr_of(*left) {
            Err(x) => Err(x),
            Ok(l) => match expr_of(*right) {
                Err(x) => Err(x),
                Ok(r) => match operator_of(op) {
                    Err(x) => Err(x),
                    Ok(o) => Ok(Expr::BinaryOp { left: Box::new(l), op: o, right: Box::new(r) }),
                },
            },
        },
        Expression::Identifier(name) => Ok(Expr::Identifier(name)),
        Expression::Value(v) => match literal_of(v) {
            Err(x) => Err(x),
            Ok(l) => Ok(Expr::Literal(l)),
        },
        Expression::Wildcard => Ok(Expr::Wildcard),
        Expression::IsNull(inner) => match expr_of(*inner) {
            Err(x) => Err(x),
            Ok(i) => Ok(Expr::IsNull(Box::new(i))),
        },
        Expression::Other(text) => Err(ConversionError::UnsupportedExpression(text)),
    }
}

/// The output column of a select item.
pub open spec fn projection_of(p: Projection) -> Result<Expr, ConversionError> {
    match p {
        Projection::Unnamed(e) => expr_of(e),
        Projection::Aliased { expr, alias } => match expr_of(expr) {
            Err(x) => Err(x),
            Ok(x) => Ok(Expr::Alias(Box::new(x), alias)),
        },
        Projection::Wildcard(None) => Ok(Expr::Wildcard),
        Projection::Wildcard(Some(text)) => Err(ConversionError::UnsupportedExpression(text)),
        Projection::Other(text) => Err(ConversionError::UnsupportedExpression(text)),
    }
}

/// The output columns of a select list, in order; the first item that fails
/// decides the error.
pub open spec fn projections_of(ps: Seq<Projection>) -> Result<Seq<Expr>, ConversionError>
    decreases ps.len(),
{
    if ps.len() == 0 {
        Ok(Seq::empty())
    } else {
        match projections_of(ps.drop_last()) {
            Err(x) => Err(x),
            Ok(xs) => match projection_of(ps.last()) {
                Err(x) => Err(x),
                Ok(x) => Ok(xs.push(x)),
            },
        }
    }
}

/// The table name of a `FROM` list: exactly one named table, with no joins.
pub open spec fn source_of(src: Source) -> Result<String, ConversionError> {
    if src.tables@.len() != 1 || src.tables@[0].joins != 0 {
        Err(ConversionError::UnsupportedSource)
    } else {
        match src.tables@[0].relation {
            TableFactor::Table(name) => Ok(name),
            TableFactor::Other(_) => Err(ConversionError::UnsupportedSource),
        }
    }
}

/// The predicate of a `WHERE` clause, if there is one.
pub open spec fn condition_of(w: Option<Expression>) -> Result<Option<Expr>, ConversionError> {
    match w {
        None => Ok(None),
        Some(e) => match expr_of(e) {
            Err(x) => Err(x),
            Ok(x) => Ok(Some(x)),
        },
    }
}

/// The sort key of an `ORDER BY` term: a bare column name, ascending unless
/// the term says otherwise.
pub open spec fn order_key_of(o: Order) -> Result<(String, bool), ConversionError> {
    match o.expr {
        Expression::Identifier(name) => Ok(
            (
                name,
                match o.asc {
                    Some(a) => a,
                    None => true,
                },
            ),
        ),
        _ => Err(ConversionError::UnsupportedOrderBy),
    }
}

/// The sort keys of an `ORDER BY` list, in order; the first term that fails
/// decides the error.
pub open spec fn order_keys_of(os: Seq<Order>) -> Result<Seq<(String, bool)>, ConversionError>
    decreases os.len(),
{
    if os.len() == 0 {
        Ok(Seq::empty())
    } else {
        match order_keys_of(os.drop_last()) {
            Err(x) => Err(x),
            Ok(ks) => match order_key_of(os.last()) {
                Err(x) => Err(x),
                Ok(k) => Ok(ks.push(k)),
            },
        }
    }
}

/// The row count to skip: the value of a numeric offset, and 0 for anything
/// that is not an unsigned decimal number.
pub open spec fn offset_of(o: Offset) -> u64 {
    match o.value {
        Expression::Value(Value::Number(t)) => match unsigned_text_value(t@) {
            Some(n) => n,
            None => 0,
        },
        _ => 0,
    }
}

/// The row limit: the value of a numeric limit; anything else is refused.
pub open spec fn limit_of(e: Expression) -> Result<u64, ConversionError> {
    match e {
        Expression::Value(Value::Number(t)) => match unsigned_text_value(t@) {
            Some(n) => Ok(n),
            None => Err(ConversionError::InvalidLimit),
        },
        _ => Err(ConversionError::InvalidLimit),
    }
}

pub open spec fn offset_clause_of(o: Option<Offset>) -> Option<u64> {
    match o {
        None => None,
        Some(o) => Some(offset_of(o)),
    }
}

pub open spec fn limit_clause_of(e: Option<Expression>) -> Result<Option<u64>, ConversionError> {
    match e {
        None => Ok(None),
        Some(e) => match limit_of(e) {
            Err(x) => Err(x),
            Ok(n) => Ok(Some(n)),
        },
    }
}

/// The plan of a select query: the source, the select list, the `WHERE`
/// clause, the `ORDER BY` list, the offset and the limit, in that order; the
/// first clause that fails decides the error.
pub open spec fn select_plan_of(s: Select, q: Query) -> Result<PlanModel, ConversionError> {
    match source_of(s.from) {
        Err(x) => Err(x),
        Ok(source) => match projections_of(s.projection@) {
            Err(x) => Err(x),
            Ok(selection) => match condition_of(s.selection) {
                Err(x) => Err(x),
                Ok(condition) => match order_keys_of(q.order_by@) {
                    Err(x) => Err(x),
                    Ok(order_by) => match limit_clause_of(q.limit) {
                        Err(x) => Err(x),
                        Ok(limit) => Ok(
                            PlanModel {
                                selection,
                                condition,
                                source,
                                order_by,
                                offset: offset_clause_of(q.offset),
                                limit,
                            },
                        ),
                    },
                },
            },
        },
    }
}

/// The plan of a statement: only a query whose body is a plain select has one.
pub open spec fn plan_of(stmt: Statement) -> Result<PlanModel, ConversionError> {
    match stmt {
        Statement::Query(q) => match q.body {
            SetExpr::Select(s) => select_plan_of(s, q),
            SetExpr::Other(_) => Err(ConversionError::UnsupportedStatement),
        },
        Statement::Other(_) => Err(ConversionError::UnsupportedStatement),
    }
}

/// The plan of a parsed input: it must hold exactly one statement.
pub open spec fn statements_plan_of(stmts: Seq<Statement>) -> Result<PlanModel, ConversionError> {
    if stmts.len() != 1 {
        Err(ConversionError::MultipleStatements)
    } else {
        plan_of(stmts[0])
    }
}

pub open spec fn plan_result_view(r: Result<Sql, ConversionError>) -> Result<
    PlanModel,
    ConversionError,
> {
    match r {
        Ok(p) => Ok(p@),
        Err(x) => Err(x),
    }
}

impl Value {
    /// Converts a literal token.
    pub fn to_literal(&self) -> (r: Result<LiteralValue, ConversionError>)
        ensures
            r == literal_of(*self),
    {
        match self {
            Value::Number(t) => {
                if contains_char(t.as_str(), '.') {
                    if is_point_number(t.as_str()) {
                        Ok(LiteralValue::Float64(t.clone()))
                    } else {
                        Err(ConversionError::NumericParse)
                    }
                } else {
                    match parse_signed(t.as_str()) {
                        Some(n) => Ok(LiteralValue::Int64(n)),
                        None => Err(ConversionError::NumericParse),
                    }
                }
            },
            Value::SingleQuotedString(t) => string_literal(t),
            Value::DoubleQuotedString(t) => string_literal(t),
            Value::Boolean(b) => Ok(LiteralValue::Boolean(*b)),
            Value::Null => Ok(LiteralValue::Null),
            Value::Other(kind) => Err(ConversionError::UnsupportedLiteral(kind.clone())),
        }
    }
}

fn string_literal(t: &String) -> (r: Result<LiteralValue, ConversionError>)
    ensures
        r == string_literal_of(*t),
{
    if t.as_str().unicode_len() as u64 > MAX_STRING_CHARS {
        Err(ConversionError::StringTooLong)
    } else {
        Ok(LiteralValue::String(t.clone()))
    }
}

impl Operation {
    /// Converts an operator token.
    pub fn to_operator(&self) -> (r: Result<Operator, ConversionError>)
        ensures
            r == operator_of(*self),
    {
        match self {
            Operation::Plus => Ok(Operator::Plus),
            Operation::Minus => Ok(Operator::Minus),
            Operation::Multiply => Ok(Operator::Multiply),
            Operation::Divide => Ok(Operator::Divide),
            Operation::Modulo => Ok(Operator::Modulus),
            Operation::Gt => Ok(Operator::Gt),
            Operation::Lt => Ok(Operator::Lt),
            Operation::GtEq => Ok(Operator::GtEq),
            Operation::LtEq => Ok(Operator::LtEq),
            Operation::Eq => Ok(Operator::Eq),
            Operation::NotEq => Ok(Operator::NotEq),
            Operation::And => Ok(Operator::And),
            Operation::Or => Ok(Operator::Or),
            Operation::Other(name) => Err(ConversionError::UnsupportedOperator(name.clone())),
        }
    }
}

impl Expression {
    /// Converts an expression tree.
    pub fn to_expr(&self) -> (r: Result<Expr, ConversionError>)
        ensures
            r == expr_of(*self),
        decreases self,
    {
        match self {
            Expression::BinaryOp { left, op, right } => {
                let l = match (**left).to_expr() {
                    Ok(l) => l,
                    Err(x) => return Err(x),
                };
                let r = match (**right).to_expr() {
                    Ok(r) => r,
                    Err(x) => return Err(x),
                };
                let o = match op.to_operator() {
                    Ok(o) => o,
                    Err(x) => return Err(x),
                };
                Ok(Expr::BinaryOp { left: Box::new(l), op: o, right: Box::new(r) })
            },
            Expression::Identifier(name) => Ok(Expr::Identifier(name.clone())),
            Expression::Value(v) => match v.to_literal() {
                Ok(l) => Ok(Expr::Literal(l)),
                Err(x) => Err(x),
            },
            Expression::Wildcard => Ok(Expr::Wildcard),
            Expression::IsNull(inner) => match (**inner).to_expr() {
                Ok(i) => Ok(Expr::IsNull(Box::new(i))),
                Err(x) => Err(x),
            },
            Expression::Other(text) => Err(ConversionError::UnsupportedExpression(text.clone())),
        }
    }
}

impl Projection {
    /// Converts a select item into an output column.
    pub fn to_expr(&self) -> (r: Result<Expr, ConversionError>)
        ensures
            r == projection_of(*self),
    {
        match self {
            Projection::Unnamed(e) => e.to_expr(),
            Projection::Aliased { expr, alias } => match expr.to_expr() {
                Ok(x) => Ok(Expr::Alias(Box::new(x), alias.clone())),
                Err(x) => Err(x),
            },
            Projection::Wildcard(None) => Ok(Expr::Wildcard),
            Projection::Wildcard(Some(text)) => Err(
                ConversionError::UnsupportedExpression(text.clone()),
            ),
            Projection::Other(text) => Err(ConversionError::UnsupportedExpression(text.clone())),
        }
    }
}

/// Converts a select list, stopping at the first item that fails.
pub fn convert_projections(ps: &Vec<Projection>) -> (r: Result<Vec<Expr>, ConversionError>)
    ensures
        match r {
            Ok(xs) => projections_of(ps@) == Ok::<Seq<Expr>, ConversionError>(xs@),
            Err(x) => projections_of(ps@) == Err::<Seq<Expr>, ConversionError>(x),
        },
{
    let mut out: Vec<Expr> = Vec::new();
    let mut i: usize = 0;
    assert(ps@.take(0) =~= Seq::<Projection>::empty());
    while i < ps.len()
        invariant
            i <= ps@.len(),
            projections_of(ps@.take(i as int)) == Ok::<Seq<Expr>, ConversionError>(out@),
        decreases ps@.len() - i,
    {
        proof {
            assert(ps@.take(i + 1).drop_last() =~= ps@.take(i as int));
        }
        match ps[i].to_expr() {
            Ok(x) => {
                out.push(x);
            },
            Err(x) => {
                proof {
                    lemma_projections_prefix_error(ps@, i + 1);
                }
                return Err(x);
            },
        }
        i = i + 1;
    }
    assert(ps@.take(i as int) =~= ps@);
    Ok(out)
}

/// Once a prefix of a select list fails, the whole list fails the same way.
proof fn lemma_projections_prefix_error(ps: Seq<Projection>, k: int)
    requires
        0 <= k <= ps.len(),
        projections_of(ps.take(k)) is Err,
    ensures
        projections_of(ps) == projections_of(ps.take(k)),
    decreases ps.len() - k,
{
    if k < ps.len() {
        assert(ps.take(k + 1).drop_last() =~= ps.take(k));
        lemma_projections_prefix_error(ps, k + 1);
    } else {
        assert(ps.take(k) =~= ps);
    }
}

/// Once a prefix of an `ORDER BY` list fails, the whole list fails the same way.
proof fn lemma_order_keys_prefix_error(os: Seq<Order>, k: int)
    requires
        0 <= k <= os.len(),
        order_keys_of(os.take(k)) is Err,
    ensures
        order_keys_of(os) == order_keys_of(os.take(k)),
    decreases os.len() - k,
{
    if k < os.len() {
        assert(os.take(k + 1).drop_last() =~= os.take(k));
        lemma_order_keys_prefix_error(os, k + 1);
    } else {
        assert(os.take(k) =~= os);
    }
}

impl Source {
    /// The table that a `FROM` list names.
    pub fn to_source(&self) -> (r: Result<String, ConversionError>)
        ensures
            r == source_of(*self),
    {
        if self.tables.len() != 1 {
            return Err(ConversionError::UnsupportedSource);
        }
        let table = &self.tables[0];
        if table.joins != 0 {
            return Err(ConversionError::UnsupportedSource);
        }
        match &table.relation {
            TableFactor::Table(name) => Ok(name.clone()),
            TableFactor::Other(_) => Err(ConversionError::UnsupportedSource),
        }
    }
}

impl Order {
    /// The sort key of an `ORDER BY` term.
    pub fn to_key(&self) -> (r: Result<(String, bool), ConversionError>)
        ensures
            r == order_key_of(*self),
    {
        let asc = match self.asc {
            Some(a) => a,
            None => true,
        };
        match &self.expr {
            Expression::Identifier(name) => Ok((name.clone(), asc)),
            _ => Err(ConversionError::UnsupportedOrderBy),
        }
    }
}

/// Converts an `ORDER BY` list, stopping at the first term that fails.
pub fn convert_order_by(os: &Vec<Order>) -> (r: Result<Vec<(String, bool)>, ConversionError>)
    ensures
        match r {
            Ok(ks) => order_keys_of(os@) == Ok::<Seq<(String, bool)>, ConversionError>(ks@),
            Err(x) => order_keys_of(os@) == Err::<Seq<(String, bool)>, ConversionError>(x),
        },
{
    let mut out: Vec<(String, bool)> = Vec::new();
    let mut i: usize = 0;
    assert(os@.take(0) =~= Seq::<Order>::empty());
    while i < os.len()
        invariant
            i <= os@.len(),
            order_keys_of(os@.take(i as int)) == Ok::<Seq<(String, bool)>, ConversionError>(
                out@,
            ),
        decreases os@.len() - i,
    {
        proof {
            assert(os@.take(i + 1).drop_last() =~= os@.take(i as int));
        }
        match os[i].to_key() {
            Ok(k) => {
                out.push(k);
            },
            Err(x) => {
                proof {
                    lemma_order_keys_prefix_error(os@, i + 1);
                }
                return Err(x);
            },
        }
        i = i + 1;
    }
    assert(os@.take(i as int) =~= os@);
    Ok(out)
}

impl Offset {
    /// The number of rows to skip; 0 where the offset is not a number.
    pub fn to_offset(&self) -> (r: u64)
        ensures
            r == offset_of(*self),
    {
        match &self.value {
            Expression::Value(Value::Number(t)) => match parse_unsigned(t.as_str()) {
                Some(n) => n,
                None => 0,
            },
            _ => 0,
        }
    }
}

/// The row limit of a `LIMIT` expression.
pub fn convert_limit(e: &Expression) -> (r: Result<u64, ConversionError>)
    ensures
        r == limit_of(*e),
{
    match e {
        Expression::Value(Value::Number(t)) => match parse_unsigned(t.as_str()) {
            Some(n) => Ok(n),
            None => Err(ConversionError::InvalidLimit),
        },
        _ => Err(ConversionError::InvalidLimit),
    }
}

impl Sql {
    /// Converts one statement into a plan.
    pub fn from_statement(stmt: &Statement) -> (r: Result<Sql, ConversionError>)
        ensures
            plan_result_view(r) == plan_of(*stmt),
    {
        let q = match stmt {
            Statement::Query(q) => q,
            Statement::Other(_) => return Err(ConversionError::UnsupportedStatement),
        };
        let s = match &q.body {
            SetExpr::Select(s) => s,
            SetExpr::Other(_) => return Err(ConversionError::UnsupportedStatement),
        };
        let source = match s.from.to_source() {
            Ok(x) => x,
            Err(x) => return Err(x),
        };
        let selection = match convert_projections(&s.projection) {
            Ok(x) => x,
            Err(x) => return Err(x),
        };
        let condition = match &s.selection {
            None => None,
            Some(e) => match e.to_expr() {
                Ok(x) => Some(x),
                Err(x) => return Err(x),
            },
        };
        let order_by = match convert_order_by(&q.order_by) {
            Ok(x) => x,
            Err(x) => return Err(x),
        };
        let offset = match &q.offset {
            None => None,
            Some(o) => Some(o.to_offset()),
        };
        let limit = match &q.limit {
            None => None,
            Some(e) => match convert_limit(e) {
                Ok(n) => Some(n),
                Err(x) => return Err(x),
            },
        };
        Ok(Sql { selection, condition, source, order_by, offset, limit })
    }
}

/// Converts a parsed input, which must hold exactly one statement.
pub fn plan_statements(stmts: &Vec<Statement>) -> (r: Result<Sql, ConversionError>)
    ensures
        plan_result_view(r) == statements_plan_of(stmts@),
{
    if stmts.len() != 1 {
        return Err(ConversionError::MultipleStatements);
    }
    Sql::from_statement(&stmts[0])
}

} // verus!
