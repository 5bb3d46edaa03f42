//! The index data model: what an index creation or drop consists of.
use vstd::prelude::*;
use crate::expr::Expr;

verus! {

/// Sort direction of one index key.
#[derive(Clone, Copy, PartialEq, Eq, Structural)]
pub enum IndexOrder {
    Asc,
    Desc,
}

/// The index algorithm a dialect may be asked for.
pub enum IndexType {
    BTree,
    FullText,
    Hash,
    Custom(String),
}

/// A key that is a plain table column.
pub struct IndexColumnTableColumn {
    pub name: String,
    /// Key length: how many leading characters of the value take part in the key.
    pub prefix: Option<u32>,
    pub order: Option<IndexOrder>,
}

/// One key of an index.
pub enum IndexColumn {
    TableColumn(IndexColumnTableColumn),
    /// An expression key; declared, but no dialect renders it.
    Expr(Expr),
}

/// The table an index belongs to.
pub enum TableRef {
    Table(String),
    SchemaTable(String, String),
    /// A table with an alias; not usable in index statements.
    TableAlias(String, String),
}

/// The predicate of a partial index: its conditions, joined by `AND`.
pub struct ConditionHolder {
    pub conditions: Vec<Expr>,
}

/// `CREATE INDEX`, or an index written inline in a table definition.
pub struct IndexCreateStatement {
    pub name: Option<String>,
    pub table: TableRef,
    pub columns: Vec<IndexColumn>,
    pub index_type: Option<IndexType>,
    pub primary: bool,
    pub unique: bool,
    pub nulls_not_distinct: bool,
    pub if_not_exists: bool,
    pub condition: ConditionHolder,
}

/// `DROP INDEX`.
pub struct IndexDropStatement {
    pub name: String,
    pub table: TableRef,
    pub if_exists: bool,
}

/// Why a statement could not be rendered. Nothing is written when one is returned.
#[derive(Clone, Copy, PartialEq, Eq, Structural, Debug)]
pub enum IndexError {
    /// The statement has no key columns.
    EmptyColumns,
    /// A key is an expression, which is not supported.
    ExprColumn,
    /// The table reference carries an alias.
    UnsupportedTableRef,
}

/// Whether some key is an expression.
pub open spec fn has_expr_column(columns: Seq<IndexColumn>) -> bool {
    exists|i: int| 0 <= i < columns.len() && (#[trigger] columns[i]) is Expr
}

/// The verdict on a column list: it must be non-empty and hold table columns only.
pub open spec fn columns_check(columns: Seq<IndexColumn>) -> Result<(), IndexError> {
    if columns.len() == 0 {
        Err(IndexError::EmptyColumns)
    } else if has_expr_column(columns) {
        Err(IndexError::ExprColumn)
    } else {
        Ok(())
    }
}

/// The verdict on a table reference inside an index statement.
pub open spec fn table_ref_check(table: TableRef) -> Result<(), IndexError> {
    if table is TableAlias {
        Err(IndexError::UnsupportedTableRef)
    } else {
        Ok(())
    }
}

/// The verdict on a whole `CREATE INDEX`: the columns first, then the table.
pub open spec fn create_check(create: IndexCreateStatement) -> Result<(), IndexError> {
    if columns_check(create.columns@) is Err {
        columns_check(create.columns@)
    } else {
        table_ref_check(create.table)
    }
}

/// Checks a column list before anything is written.
pub fn check_index_columns(columns: &Vec<IndexColumn>) -> (r: Result<(), IndexError>)
    ensures
        r == columns_check(columns@),
{
    if columns.len() == 0 {
        return Err(IndexError::EmptyColumns);
    }
    let mut i: usize = 0;
    while i < columns.len()
        invariant
            0 <= i <= columns@.len(),
            forall|j: int| 0 <= j < i ==> !(#[trigger] columns@[j] is Expr),
        decreases columns@.len() - i,
    {
        if let IndexColumn::Expr(_) = &columns[i] {
            return Err(IndexError::ExprColumn);
        }
        i = i + 1;
    }
    Ok(())
}

/// Checks a table reference before anything is written.
pub fn check_table_ref(table: &TableRef) -> (r: Result<(), IndexError>)
    ensures
        r == table_ref_check(*table),
{
    match table {
        TableRef::TableAlias(..) => Err(IndexError::UnsupportedTableRef),
        _ => Ok(()),
    }
}

/// Checks a whole `CREATE INDEX` before anything is written.
pub fn check_create(create: &IndexCreateStatement) -> (r: Result<(), IndexError>)
    ensures
        r == create_check(*create),
{
    match check_index_columns(&create.columns) {
        Err(e) => Err(e),
        Ok(()) => check_table_ref(&create.table),
    }
}

} // verus!
