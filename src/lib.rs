//! A restricted SQL query layer: a parsed SELECT statement is converted into a
//! query plan, and the plan into the ordered steps that a table engine applies.
//!
//! Alongside it live the command line of a small HTTP client and the
//! description of an image processing request.

pub mod ast;
pub mod convert;
pub mod engine;
pub mod image_spec;
pub mod laws;
pub mod plan;
pub mod request;
pub mod text;

pub use convert::{plan_statements, MAX_STRING_CHARS};
pub use engine::{DataSource, Execution, Step};
pub use plan::{ConversionError, Expr, LiteralValue, Operator, Sql};
pub use request::{parse_kv_pair, Cli, Get, KvPair, KvPairError, Post, SubCommand};
