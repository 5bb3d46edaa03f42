//! Dialect-polymorphic rendering of index DDL and dialect-specific expression operators.
use vstd::prelude::*;

pub mod writer;
pub mod expr;
pub mod index;
pub mod render;
pub mod index_builder;
pub mod backend;
pub mod sqlite_expr;
pub mod lemmas;
pub mod decode;

pub use backend::{MysqlQueryBuilder, PostgresQueryBuilder, SqliteQueryBuilder};
pub use expr::{BinOper, Expr, ExprTrait, Value};
pub use index::{
    ConditionHolder, IndexColumn, IndexColumnTableColumn, IndexCreateStatement,
    IndexDropStatement, IndexError, IndexOrder, IndexType, TableRef,
};
pub use index_builder::{IndexBuilder, IndexSpec, QuotedBuilder};
pub use render::Quote;
pub use sqlite_expr::{SqliteBinOper, SqliteExpr};
pub use writer::{SqlString, SqlWriter};

verus! {

} // verus!
