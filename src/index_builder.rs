//! The index rendering protocol: hooks each dialect supplies, the shared
//! algorithms built on them, and the shared defaults dialects delegate to.
use vstd::prelude::*;
use crate::index::{
    check_index_columns, columns_check, create_check, table_ref_check, ConditionHolder,
    IndexColumn, IndexColumnTableColumn, IndexCreateStatement, IndexDropStatement, IndexError,
    IndexOrder, IndexType, TableRef,
};
use crate::render::{decimal, quoted, text_if, write_decimal, write_quoted, Quote};
use crate::writer::SqlWriter;

verus! {

/// A dialect's identifier quotes.
pub trait QuotedBuilder {
    spec fn spec_quote(&self) -> Quote;

    fn quote(&self) -> (q: Quote)
        ensures
            q == self.spec_quote(),
    ;
}

/// ` ASC` or ` DESC` text_if a direction was asked for, else nothing.
pub open spec fn order_text(order: Option<IndexOrder>) -> Seq<char> {
    match order {
        Some(IndexOrder::Asc) => " ASC"@,
        Some(IndexOrder::Desc) => " DESC"@,
        None => Seq::empty(),
    }
}

/// The shared key-length suffix: ` (<n>)` text_if a length is given, else nothing.
pub open spec fn key_length_text(prefix: Option<u32>) -> Seq<char> {
    match prefix {
        Some(n) => " ("@ + decimal(n as nat) + ")"@,
        None => Seq::empty(),
    }
}

/// One table-column key: quoted name, key-length suffix where the dialect
/// writes key lengths, direction.
pub open spec fn column_text(q: Quote, key_lengths: bool, column: IndexColumnTableColumn) -> Seq<
    char,
> {
    quoted(q, column.name@) + text_if(key_lengths, key_length_text(column.prefix)) + order_text(
        column.order,
    )
}

/// One key of any kind; an expression key has no text, as it is never rendered.
pub open spec fn key_text(q: Quote, key_lengths: bool, column: IndexColumn) -> Seq<char> {
    match column {
        IndexColumn::TableColumn(c) => column_text(q, key_lengths, c),
        IndexColumn::Expr(_) => Seq::empty(),
    }
}

/// The keys, separated by `, `.
pub open spec fn columns_body(q: Quote, key_lengths: bool, columns: Seq<IndexColumn>) -> Seq<char>
    decreases columns.len(),
{
    if columns.len() == 0 {
        Seq::empty()
    } else if columns.len() == 1 {
        key_text(q, key_lengths, columns[0])
    } else {
        columns_body(q, key_lengths, columns.drop_last()) + ", "@ + key_text(
            q,
            key_lengths,
            columns.last(),
        )
    }
}

/// The parenthesized key list.
pub open spec fn columns_text(q: Quote, key_lengths: bool, columns: Seq<IndexColumn>) -> Seq<
    char,
> {
    "("@ + columns_body(q, key_lengths, columns) + ")"@
}

/// `CONSTRAINT <quoted name> ` for a named index, else nothing.
pub open spec fn constraint_text(q: Quote, name: Option<String>) -> Seq<char> {
    match name {
        Some(n) => "CONSTRAINT "@ + quoted(q, n@) + " "@,
        None => Seq::empty(),
    }
}

/// The shared inline form: constraint name, dialect prefix, keys, filter.
pub open spec fn default_table_index_text<B: IndexSpec>(
    b: &B,
    create: IndexCreateStatement,
) -> Seq<char> {
    constraint_text(b.spec_quote(), create.name) + b.spec_index_prefix(create) + columns_text(
        b.spec_quote(),
        b.spec_key_lengths(),
        create.columns@,
    ) + b.spec_filter(create.condition)
}

/// What a dialect writes for each index statement and each hook, as text.
pub trait IndexSpec: QuotedBuilder + Sized {
    /// Text of the standalone `CREATE INDEX`.
    spec fn spec_index_create_statement(&self, create: IndexCreateStatement) -> Seq<char>;

    /// Text of the table reference inside an index statement.
    spec fn spec_table_ref_index_stmt(&self, table: TableRef) -> Seq<char>;

    /// Text of `DROP INDEX`.
    spec fn spec_index_drop_statement(&self, drop: IndexDropStatement) -> Seq<char>;

    /// Text of the index-type clause.
    spec fn spec_index_type(&self, index_type: Option<IndexType>) -> Seq<char>;

    /// Text of the uniqueness / primary prefix.
    spec fn spec_index_prefix(&self, create: IndexCreateStatement) -> Seq<char>;

    /// Whether the dialect writes a key's length after its name.
    spec fn spec_key_lengths(&self) -> bool;

    /// Text of the partial-index filter.
    spec fn spec_filter(&self, condition: ConditionHolder) -> Seq<char>;
}

/// Renders index statements for one dialect.
///
/// Every dialect writes its own statements and hooks; a hook may delegate to
/// the shared default of this module (`default_write_column_index_prefix`),
/// and `prepare_index_prefix` has none. The inline form has a shared default,
/// which a dialect may replace. The key rendering
/// (`prepare_index_column_with_table_column`, `prepare_index_columns`) is
/// shared and pinned by its contract. A statement that cannot be rendered is
/// reported before anything is written.
pub trait IndexBuilder: IndexSpec {
    /// Renders an index written inline in a table definition. The shared
    /// default writes `CONSTRAINT <name> ` for a named index, the dialect
    /// prefix, the keys and the filter.
    fn prepare_table_index_expression<W: SqlWriter>(
        &self,
        create: &IndexCreateStatement,
        sql: &mut W,
    ) -> (r: Result<(), IndexError>)
        ensures
            r == columns_check(create.columns@),
            r is Ok ==> old(sql).text().is_prefix_of(final(sql).text()),
            r is Err ==> final(sql).text() == old(sql).text(),
        default_ensures
            r == columns_check(create.columns@),
            r is Ok ==> final(sql).text() == old(sql).text() + default_table_index_text(
                self,
                *create,
            ),
            r is Err ==> final(sql).text() == old(sql).text(),
    {
        match check_index_columns(&create.columns) {
            Err(e) => {
                return Err(e);
            },
            Ok(()) => {},
        }
        if let Some(name) = &create.name {
            sql.push_str("CONSTRAINT ");
            write_quoted(self.quote(), name.as_str(), sql);
            sql.push_str(" ");
        }
        self.prepare_index_prefix(create, sql);
        let _ = self.prepare_index_columns(&create.columns, sql);
        self.prepare_filter(&create.condition, sql);
        assert(sql.text() =~= old(sql).text() + default_table_index_text(self, *create));
        Ok(())
    }

    /// Renders a standalone `CREATE INDEX`.
    fn prepare_index_create_statement<W: SqlWriter>(
        &self,
        create: &IndexCreateStatement,
        sql: &mut W,
    ) -> (r: Result<(), IndexError>)
        ensures
            r == create_check(*create),
            r is Ok ==> final(sql).text() == old(sql).text() + self.spec_index_create_statement(
                *create,
            ),
            r is Err ==> final(sql).text() == old(sql).text(),
    ;

    /// Renders the table reference of an index statement.
    fn prepare_table_ref_index_stmt<W: SqlWriter>(&self, table: &TableRef, sql: &mut W) -> (r:
        Result<(), IndexError>)
        ensures
            r == table_ref_check(*table),
            r is Ok ==> final(sql).text() == old(sql).text() + self.spec_table_ref_index_stmt(
                *table,
            ),
            r is Err ==> final(sql).text() == old(sql).text(),
    ;

    /// Renders `DROP INDEX`.
    fn prepare_index_drop_statement<W: SqlWriter>(
        &self,
        drop: &IndexDropStatement,
        sql: &mut W,
    ) -> (r: Result<(), IndexError>)
        ensures
            r == table_ref_check(drop.table),
            r is Ok ==> final(sql).text() == old(sql).text() + self.spec_index_drop_statement(
                *drop,
            ),
            r is Err ==> final(sql).text() == old(sql).text(),
    ;

    /// Writes the index type (B-tree, hash, ...).
    fn prepare_index_type<W: SqlWriter>(&self, index_type: &Option<IndexType>, sql: &mut W)
        ensures
            final(sql).text() == old(sql).text() + self.spec_index_type(*index_type),
    ;

    /// Writes the index prefix (primary, unique, ...).
    fn prepare_index_prefix<W: SqlWriter>(&self, create: &IndexCreateStatement, sql: &mut W)
        ensures
            final(sql).text() == old(sql).text() + self.spec_index_prefix(*create),
    ;

    /// Writes a key's length limit.
    fn write_column_index_prefix<W: SqlWriter>(&self, prefix: &Option<u32>, sql: &mut W)
        ensures
            final(sql).text() == old(sql).text() + text_if(
                self.spec_key_lengths(),
                key_length_text(*prefix),
            ),
    ;

    /// Writes the filter of a partial index.
    fn prepare_filter<W: SqlWriter>(&self, condition: &ConditionHolder, sql: &mut W)
        ensures
            final(sql).text() == old(sql).text() + self.spec_filter(*condition),
    ;

    /// Writes one table-column key.
    fn prepare_index_column_with_table_column<W: SqlWriter>(
        &self,
        column: &IndexColumnTableColumn,
        sql: &mut W,
    )
        ensures
            final(sql).text() == old(sql).text() + column_text(self.spec_quote(), self.spec_key_lengths(), *column),
    {
        write_quoted(self.quote(), column.name.as_str(), sql);
        self.write_column_index_prefix(&column.prefix, sql);
        match column.order {
            Some(IndexOrder::Asc) => sql.push_str(" ASC"),
            Some(IndexOrder::Desc) => sql.push_str(" DESC"),
            None => {},
        }
        assert(sql.text() =~= old(sql).text() + column_text(self.spec_quote(), self.spec_key_lengths(), *column));
    }

    /// Writes the parenthesized key list; fails, writing nothing, on an empty
    /// list or an expression key.
    fn prepare_index_columns<W: SqlWriter>(&self, columns: &Vec<IndexColumn>, sql: &mut W) -> (r:
        Result<(), IndexError>)
        ensures
            r == columns_check(columns@),
            r is Ok ==> final(sql).text() == old(sql).text() + columns_text(self.spec_quote(), self.spec_key_lengths(), columns@),
            r is Err ==> final(sql).text() == old(sql).text(),
    {
        match check_index_columns(columns) {
            Err(e) => {
                return Err(e);
            },
            Ok(()) => {},
        }
        sql.push_str("(");
        let ghost start = sql.text();
        let n = columns.len();
        let mut i: usize = 0;
        while i < n
            invariant
                n == columns@.len(),
                0 <= i <= n,
                start == old(sql).text() + "("@,
                sql.text() == start + columns_body(self.spec_quote(), self.spec_key_lengths(), columns@.take(i as int)),
            decreases n - i,
        {
            if i > 0 {
                sql.push_str(", ");
            }
            match &columns[i] {
                IndexColumn::TableColumn(c) => {
                    self.prepare_index_column_with_table_column(c, sql);
                },
                IndexColumn::Expr(_) => {},
            }
            proof {
                let t = columns@.take(i + 1);
                assert(t.drop_last() =~= columns@.take(i as int));
                assert(t.last() == columns@[i as int]);
                assert(sql.text() =~= start + columns_body(self.spec_quote(), self.spec_key_lengths(), t));
            }
            i = i + 1;
        }
        assert(columns@.take(n as int) =~= columns@);
        sql.push_str(")");
        assert(sql.text() =~= old(sql).text() + columns_text(self.spec_quote(), self.spec_key_lengths(), columns@));
        Ok(())
    }
}

/// The shared key-length suffix ` (<n>)`.
pub fn default_write_column_index_prefix<W: SqlWriter>(prefix: &Option<u32>, sql: &mut W)
    ensures
        final(sql).text() == old(sql).text() + key_length_text(*prefix),
{
    if let Some(n) = prefix {
        sql.push_str(" (");
        write_decimal(*n, sql);
        sql.push_str(")");
    }
    assert(sql.text() =~= old(sql).text() + key_length_text(*prefix));
}

} // verus!
