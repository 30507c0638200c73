//! The parsed form of a SQL statement, as a SQL parser hands it over.
//!
//! Only the node kinds that conversion looks at are spelled out; every other
//! kind arrives as an `Other` variant carrying its SQL text, so that it can be
//! named when it is rejected.

use vstd::prelude::*;

verus! {

/// A literal token.
#[derive(Debug, PartialEq, Eq)]
pub enum Value {
    /// A numeric token, as written.
    Number(String),
    SingleQuotedString(String),
    DoubleQuotedString(String),
    Boolean(bool),
    Null,
    /// Any other literal kind, by name.
    Other(String),
}

/// A binary operator token.
#[derive(Debug, PartialEq, Eq)]
pub enum Operation {
    Plus,
    Minus,
    Multiply,
    Divide,
    Modulo,
    Gt,
    Lt,
    GtEq,
    LtEq,
    Eq,
    NotEq,
    And,
    Or,
    /// Any other operator (`LIKE`, `||`, `&`, ...), by its SQL text.
    Other(String),
}

/// An expression node.
#[derive(Debug, PartialEq, Eq)]
pub enum Expression {
    Identifier(String),
    Value(Value),
    BinaryOp { left: Box<Expression>, op: Operation, right: Box<Expression> },
    /// `inner IS NULL`.
    IsNull(Box<Expression>),
    /// A bare `*`.
    Wildcard,
    /// Any other expression kind (a function call, a subquery, `CASE`, ...),
    /// by its SQL text.
    Other(String),
}

/// One item of a select list.
#[derive(Debug, PartialEq, Eq)]
pub enum Projection {
    Unnamed(Expression),
    Aliased { expr: Expression, alias: String },
    /// `*`, with the text of the whole item where it carries modifiers
    /// (`EXCLUDE`, `EXCEPT`, `REPLACE`, ...).
    Wildcard(Option<String>),
    /// Any other select item (`t.*`, ...), by its SQL text.
    Other(String),
}

/// What a `FROM` entry reads.
#[derive(Debug, PartialEq, Eq)]
pub enum TableFactor {
    /// A named table, by the text of its name.
    Table(String),
    /// Any other relation (a derived table, a table function, ...), by its SQL text.
    Other(String),
}

/// One entry of a `FROM` list with the number of joins attached to it.
#[derive(Debug, PartialEq, Eq)]
pub struct TableWithJoins {
    pub relation: TableFactor,
    pub joins: usize,
}

/// The `FROM` list of a select.
#[derive(Debug, PartialEq, Eq)]
pub struct Source {
    pub tables: Vec<TableWithJoins>,
}

/// One term of an `ORDER BY` list; `asc` is `None` when no direction is written.
#[derive(Debug, PartialEq, Eq)]
pub struct Order {
    pub expr: Expression,
    pub asc: Option<bool>,
}

/// An `OFFSET` clause.
#[derive(Debug, PartialEq, Eq)]
pub struct Offset {
    pub value: Expression,
}

/// A plain `SELECT ... FROM ... WHERE ...`.
#[derive(Debug, PartialEq, Eq)]
pub struct Select {
    pub projection: Vec<Projection>,
    pub from: Source,
    pub selection: Option<Expression>,
}

/// The body of a query.
#[derive(Debug, PartialEq, Eq)]
pub enum SetExpr {
    Select(Select),
    /// A set operation, `VALUES`, a nested query, ..., by its SQL text.
    Other(String),
}

/// A query with its ordering and slicing clauses.
#[derive(Debug, PartialEq, Eq)]
pub struct Query {
    pub body: SetExpr,
    pub order_by: Vec<Order>,
    pub limit: Option<Expression>,
    pub offset: Option<Offset>,
}

/// A top-level statement.
#[derive(Debug, PartialEq, Eq)]
pub enum Statement {
    Query(Query),
    /// Any statement that is not a query (`INSERT`, `CREATE`, ...), by its SQL text.
    Other(String),
}

} // verus!
