//! The internal query plan: a closed expression tree, literals, operators,
//! and the errors that conversion can report.

use vstd::prelude::*;

verus! {

/// A typed literal value of the plan.
///
/// A floating-point literal is carried as its decimal text, which is known to
/// be a well-formed floating-point number; the table engine turns it into a
/// number when the plan runs.
#[derive(Debug, PartialEq, Eq)]
pub enum LiteralValue {
    Int64(i64),
    Float64(String),
    String(String),
    Boolean(bool),
    Null,
}

/// The closed set of binary operators that a plan can hold.
#[derive(Debug, Clone, Copy, PartialEq, Eq)]
pub enum Operator {
    Plus,
    Minus,
    Multiply,
    Divide,
    Modulus,
    Gt,
    Lt,
    GtEq,
    LtEq,
    Eq,
    NotEq,
    And,
    Or,
}

/// A node of the plan's expression tree. Each node owns its children.
#[derive(Debug, PartialEq, Eq)]
pub enum Expr {
    /// A column, by name.
    Identifier(String),
    Literal(LiteralValue),
    BinaryOp { left: Box<Expr>, op: Operator, right: Box<Expr> },
    /// Every column of the table.
    Wildcard,
    /// Whether the inner value is null.
    IsNull(Box<Expr>),
    /// The inner expression, with its output column named.
    Alias(Box<Expr>, String),
}

/// The plan of one SELECT query.
#[derive(Debug, PartialEq, Eq)]
pub struct Sql {
    /// The output columns, in order.
    pub selection: Vec<Expr>,
    /// The row predicate.
    pub condition: Option<Expr>,
    /// Where the table comes from: a local path or a URL.
    pub source: String,
    /// Sort keys: a column name and whether the order is ascending.
    pub order_by: Vec<(String, bool)>,
    pub offset: Option<u64>,
    pub limit: Option<u64>,
}

/// A plan, with its lists as sequences.
pub struct PlanModel {
    pub selection: Seq<Expr>,
    pub condition: Option<Expr>,
    pub source: String,
    pub order_by: Seq<(String, bool)>,
    pub offset: Option<u64>,
    pub limit: Option<u64>,
}

impl View for Sql {
    type V = PlanModel;

    open spec fn view(&self) -> PlanModel {
        PlanModel {
            selection: self.selection@,
            condition: self.condition,
            source: self.source,
            order_by: self.order_by@,
            offset: self.offset,
            limit: self.limit,
        }
    }
}

/// Why a statement could not be converted into a plan.
#[derive(Debug, PartialEq, Eq)]
pub enum ConversionError {
    /// An expression kind outside the supported set, with its description.
    UnsupportedExpression(String),
    /// A binary operator outside the supported set, with its name.
    UnsupportedOperator(String),
    /// A literal kind outside the supported set, with its kind.
    UnsupportedLiteral(String),
    UnsupportedSource,
    UnsupportedOrderBy,
    UnsupportedStatement,
    MultipleStatements,
    InvalidLimit,
    StringTooLong,
    NumericParse,
}

} // verus!
