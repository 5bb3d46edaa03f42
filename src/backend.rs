//! The Postgres-, SQLite- and MySQL-family dialects.
use vstd::prelude::*;
use crate::index::{
    check_create, check_index_columns, check_table_ref, ConditionHolder, IndexCreateStatement,
    IndexDropStatement, IndexError, IndexType, TableRef,
};
use crate::index_builder::{
    columns_text, default_write_column_index_prefix, key_length_text, IndexBuilder, IndexSpec,
    QuotedBuilder,
};
use crate::render::{
    quoted, table_ref_text, text_if, where_text, write_quoted, write_table_ref, write_where, Quote,
};
use crate::writer::SqlWriter;
use vstd::seq_lib::lemma_concat_associative;

verus! {

/// The Postgres family.
pub struct PostgresQueryBuilder;

/// The SQLite family.
pub struct SqliteQueryBuilder;

/// The MySQL family.
pub struct MysqlQueryBuilder;

/// Double quotes, as Postgres and SQLite write identifiers.
pub open spec fn double_quote() -> Quote {
    Quote { left: '"', right: '"' }
}

/// Backticks, as MySQL writes identifiers.
pub open spec fn backtick() -> Quote {
    Quote { left: '`', right: '`' }
}

/// The quoted index name, or nothing.
pub open spec fn name_text(q: Quote, name: Option<String>) -> Seq<char> {
    match name {
        Some(n) => quoted(q, n@),
        None => Seq::empty(),
    }
}

/// `PRIMARY KEY ` and `UNIQUE ` as asked for (Postgres and SQLite).
pub open spec fn key_prefix_text(create: IndexCreateStatement) -> Seq<char> {
    text_if(create.primary, "PRIMARY KEY "@) + text_if(create.unique, "UNIQUE "@)
}

/// `CREATE <prefix>INDEX [IF NOT EXISTS] <name> ON <table>` (Postgres and SQLite).
pub open spec fn create_head_text(q: Quote, create: IndexCreateStatement) -> Seq<char> {
    "CREATE "@ + key_prefix_text(create) + "INDEX "@ + text_if(create.if_not_exists, "IF NOT EXISTS "@)
        + name_text(q, create.name) + " ON "@ + table_ref_text(q, create.table)
}

/// The schema of a schema-qualified table followed by `.`, else nothing.
pub open spec fn schema_text(q: Quote, table: TableRef) -> Seq<char> {
    match table {
        TableRef::SchemaTable(s, _) => quoted(q, s@) + "."@,
        _ => Seq::empty(),
    }
}

/// `DROP INDEX [IF EXISTS] [<schema>.]<name>` (Postgres and SQLite).
pub open spec fn schema_scoped_drop_text(q: Quote, drop: IndexDropStatement) -> Seq<char> {
    "DROP INDEX "@ + text_if(drop.if_exists, "IF EXISTS "@) + schema_text(q, drop.table) + quoted(
        q,
        drop.name@,
    )
}

/// The name of an index method after `USING`.
pub open spec fn index_type_name(t: IndexType, full_text: Seq<char>) -> Seq<char> {
    match t {
        IndexType::BTree => "BTREE"@,
        IndexType::FullText => full_text,
        IndexType::Hash => "HASH"@,
        IndexType::Custom(s) => s@,
    }
}

/// Whether the index type is full-text.
pub open spec fn is_full_text(t: Option<IndexType>) -> bool {
    t matches Some(IndexType::FullText)
}

fn write_if<W: SqlWriter>(flag: bool, text: &str, sql: &mut W)
    ensures
        final(sql).text() == old(sql).text() + text_if(flag, text@),
{
    if flag {
        sql.push_str(text);
    }
    assert(sql.text() =~= old(sql).text() + text_if(flag, text@));
}

fn write_name<W: SqlWriter>(q: Quote, name: &Option<String>, sql: &mut W)
    ensures
        final(sql).text() == old(sql).text() + name_text(q, *name),
{
    if let Some(n) = name {
        write_quoted(q, n.as_str(), sql);
    }
    assert(sql.text() =~= old(sql).text() + name_text(q, *name));
}

fn write_key_prefix<W: SqlWriter>(create: &IndexCreateStatement, sql: &mut W)
    ensures
        final(sql).text() == old(sql).text() + key_prefix_text(*create),
{
    if create.primary {
        sql.push_str("PRIMARY KEY ");
    }
    if create.unique {
        sql.push_str("UNIQUE ");
    }
    assert(sql.text() =~= old(sql).text() + key_prefix_text(*create));
}

fn write_schema_scoped_drop<W: SqlWriter>(q: Quote, drop: &IndexDropStatement, sql: &mut W) -> (r:
    Result<(), IndexError>)
    ensures
        r == crate::index::table_ref_check(drop.table),
        r is Ok ==> final(sql).text() == old(sql).text() + schema_scoped_drop_text(q, *drop),
        r is Err ==> final(sql).text() == old(sql).text(),
{
    match check_table_ref(&drop.table) {
        Err(e) => {
            return Err(e);
        },
        Ok(()) => {},
    }
    sql.push_str("DROP INDEX ");
    if drop.if_exists {
        sql.push_str("IF EXISTS ");
    }
    if let TableRef::SchemaTable(s, _) = &drop.table {
        write_quoted(q, s.as_str(), sql);
        sql.push_str(".");
    }
    write_quoted(q, drop.name.as_str(), sql);
    assert(sql.text() =~= old(sql).text() + schema_scoped_drop_text(q, *drop));
    Ok(())
}

fn write_index_table<W: SqlWriter>(q: Quote, table: &TableRef, sql: &mut W) -> (r: Result<
    (),
    IndexError,
>)
    ensures
        r == crate::index::table_ref_check(*table),
        r is Ok ==> final(sql).text() == old(sql).text() + table_ref_text(q, *table),
        r is Err ==> final(sql).text() == old(sql).text(),
{
    match check_table_ref(table) {
        Err(e) => Err(e),
        Ok(()) => {
            write_table_ref(q, table, sql);
            Ok(())
        },
    }
}

// ---------------------------------------------------------------- Postgres

/// The Postgres `USING` clause.
pub open spec fn postgres_index_type_text(t: Option<IndexType>) -> Seq<char> {
    match t {
        Some(t) => " USING "@ + index_type_name(t, "GIN"@),
        None => Seq::empty(),
    }
}

/// What follows the table in a Postgres `CREATE INDEX`.
pub open spec fn postgres_create_tail_text(create: IndexCreateStatement) -> Seq<char> {
    postgres_index_type_text(create.index_type) + " "@ + columns_text(
        double_quote(),
        true,
        create.columns@,
    ) + text_if(create.nulls_not_distinct, " NULLS NOT DISTINCT"@) + where_text(
        double_quote(),
        create.condition,
    )
}

impl QuotedBuilder for PostgresQueryBuilder {
    open spec fn spec_quote(&self) -> Quote {
        double_quote()
    }

    fn quote(&self) -> (q: Quote) {
        Quote { left: '"', right: '"' }
    }
}

impl IndexSpec for PostgresQueryBuilder {
    open spec fn spec_index_create_statement(&self, create: IndexCreateStatement) -> Seq<char> {
        create_head_text(double_quote(), create) + postgres_create_tail_text(create)
    }

    open spec fn spec_table_ref_index_stmt(&self, table: TableRef) -> Seq<char> {
        table_ref_text(double_quote(), table)
    }

    open spec fn spec_index_drop_statement(&self, drop: IndexDropStatement) -> Seq<char> {
        schema_scoped_drop_text(double_quote(), drop)
    }

    open spec fn spec_index_type(&self, index_type: Option<IndexType>) -> Seq<char> {
        postgres_index_type_text(index_type)
    }

    open spec fn spec_index_prefix(&self, create: IndexCreateStatement) -> Seq<char> {
        key_prefix_text(create)
    }

    open spec fn spec_key_lengths(&self) -> bool {
        true
    }

    open spec fn spec_filter(&self, condition: ConditionHolder) -> Seq<char> {
        where_text(double_quote(), condition)
    }
}

impl IndexBuilder for PostgresQueryBuilder {
    fn prepare_index_create_statement<W: SqlWriter>(
        &self,
        create: &IndexCreateStatement,
        sql: &mut W,
    ) -> (r: Result<(), IndexError>) {
        match check_create(create) {
            Err(e) => {
                return Err(e);
            },
            Ok(()) => {},
        }
        let ghost s0 = sql.text();
        sql.push_str("CREATE ");
        self.prepare_index_prefix(create, sql);
        sql.push_str("INDEX ");
        write_if(create.if_not_exists, "IF NOT EXISTS ", sql);
        write_name(self.quote(), &create.name, sql);
        sql.push_str(" ON ");
        let _ = self.prepare_table_ref_index_stmt(&create.table, sql);
        let ghost head = create_head_text(double_quote(), *create);
        assert(sql.text() =~= s0 + head);
        let ghost s1 = sql.text();
        self.prepare_index_type(&create.index_type, sql);
        sql.push_str(" ");
        let _ = self.prepare_index_columns(&create.columns, sql);
        write_if(create.nulls_not_distinct, " NULLS NOT DISTINCT", sql);
        self.prepare_filter(&create.condition, sql);
        let ghost tail = postgres_create_tail_text(*create);
        assert(sql.text() =~= s1 + tail);
        proof {
            lemma_concat_associative(s0, head, tail);
        }
        assert(sql.text() =~= old(sql).text() + self.spec_index_create_statement(*create));
        Ok(())
    }

    fn prepare_table_ref_index_stmt<W: SqlWriter>(&self, table: &TableRef, sql: &mut W) -> (r:
        Result<(), IndexError>) {
        write_index_table(self.quote(), table, sql)
    }

    fn prepare_index_drop_statement<W: SqlWriter>(
        &self,
        drop: &IndexDropStatement,
        sql: &mut W,
    ) -> (r: Result<(), IndexError>) {
        write_schema_scoped_drop(self.quote(), drop, sql)
    }

    fn prepare_index_type<W: SqlWriter>(&self, index_type: &Option<IndexType>, sql: &mut W) {
        if let Some(t) = index_type {
            sql.push_str(" USING ");
            match t {
                IndexType::BTree => sql.push_str("BTREE"),
                IndexType::FullText => sql.push_str("GIN"),
                IndexType::Hash => sql.push_str("HASH"),
                IndexType::Custom(s) => sql.push_str(s.as_str()),
            }
        }
        assert(sql.text() =~= old(sql).text() + self.spec_index_type(*index_type));
    }

    fn prepare_index_prefix<W: SqlWriter>(&self, create: &IndexCreateStatement, sql: &mut W) {
        write_key_prefix(create, sql);
    }

    fn write_column_index_prefix<W: SqlWriter>(&self, prefix: &Option<u32>, sql: &mut W) {
        default_write_column_index_prefix(prefix, sql);
    }

    fn prepare_filter<W: SqlWriter>(&self, condition: &ConditionHolder, sql: &mut W) {
        write_where(self.quote(), condition, sql);
    }
}

// ---------------------------------------------------------------- SQLite

/// What follows the table in a SQLite `CREATE INDEX`.
pub open spec fn sqlite_create_tail_text(create: IndexCreateStatement) -> Seq<char> {
    " "@ + columns_text(double_quote(), false, create.columns@) + where_text(
        double_quote(),
        create.condition,
    )
}

impl QuotedBuilder for SqliteQueryBuilder {
    open spec fn spec_quote(&self) -> Quote {
        double_quote()
    }

    fn quote(&self) -> (q: Quote) {
        Quote { left: '"', right: '"' }
    }
}

impl IndexSpec for SqliteQueryBuilder {
    open spec fn spec_index_create_statement(&self, create: IndexCreateStatement) -> Seq<char> {
        create_head_text(double_quote(), create) + sqlite_create_tail_text(create)
    }

    open spec fn spec_table_ref_index_stmt(&self, table: TableRef) -> Seq<char> {
        table_ref_text(double_quote(), table)
    }

    open spec fn spec_index_drop_statement(&self, drop: IndexDropStatement) -> Seq<char> {
        schema_scoped_drop_text(double_quote(), drop)
    }

    open spec fn spec_index_type(&self, index_type: Option<IndexType>) -> Seq<char> {
        Seq::empty()
    }

    open spec fn spec_index_prefix(&self, create: IndexCreateStatement) -> Seq<char> {
        key_prefix_text(create)
    }

    /// SQLite has no key lengths.
    open spec fn spec_key_lengths(&self) -> bool {
        false
    }

    open spec fn spec_filter(&self, condition: ConditionHolder) -> Seq<char> {
        where_text(double_quote(), condition)
    }
}

impl IndexBuilder for SqliteQueryBuilder {
    fn prepare_index_create_statement<W: SqlWriter>(
        &self,
        create: &IndexCreateStatement,
        sql: &mut W,
    ) -> (r: Result<(), IndexError>) {
        match check_create(create) {
            Err(e) => {
                return Err(e);
            },
            Ok(()) => {},
        }
        let ghost s0 = sql.text();
        sql.push_str("CREATE ");
        self.prepare_index_prefix(create, sql);
        sql.push_str("INDEX ");
        write_if(create.if_not_exists, "IF NOT EXISTS ", sql);
        write_name(self.quote(), &create.name, sql);
        sql.push_str(" ON ");
        let _ = self.prepare_table_ref_index_stmt(&create.table, sql);
        let ghost head = create_head_text(double_quote(), *create);
        assert(sql.text() =~= s0 + head);
        let ghost s1 = sql.text();
        sql.push_str(" ");
        let _ = self.prepare_index_columns(&create.columns, sql);
        self.prepare_filter(&create.condition, sql);
        let ghost tail = sqlite_create_tail_text(*create);
        assert(sql.text() =~= s1 + tail);
        proof {
            lemma_concat_associative(s0, head, tail);
        }
        Ok(())
    }

    fn prepare_table_ref_index_stmt<W: SqlWriter>(&self, table: &TableRef, sql: &mut W) -> (r:
        Result<(), IndexError>) {
        write_index_table(self.quote(), table, sql)
    }

    fn prepare_index_drop_statement<W: SqlWriter>(
        &self,
        drop: &IndexDropStatement,
        sql: &mut W,
    ) -> (r: Result<(), IndexError>) {
        write_schema_scoped_drop(self.quote(), drop, sql)
    }

    fn prepare_index_type<W: SqlWriter>(&self, index_type: &Option<IndexType>, sql: &mut W) {
        assert(sql.text() =~= old(sql).text() + self.spec_index_type(*index_type));
    }

    fn prepare_index_prefix<W: SqlWriter>(&self, create: &IndexCreateStatement, sql: &mut W) {
        write_key_prefix(create, sql);
    }

    fn write_column_index_prefix<W: SqlWriter>(&self, prefix: &Option<u32>, sql: &mut W) {
        assert(sql.text() =~= old(sql).text() + text_if(false, key_length_text(*prefix)));
    }

    fn prepare_filter<W: SqlWriter>(&self, condition: &ConditionHolder, sql: &mut W) {
        write_where(self.quote(), condition, sql);
    }
}

// ---------------------------------------------------------------- MySQL

/// `PRIMARY `, `UNIQUE ` and `FULLTEXT ` as asked for.
pub open spec fn mysql_prefix_text(create: IndexCreateStatement) -> Seq<char> {
    text_if(create.primary, "PRIMARY "@) + text_if(create.unique, "UNIQUE "@) + text_if(
        is_full_text(create.index_type),
        "FULLTEXT "@,
    )
}

/// The MySQL `USING` clause; a full-text index has none, as its prefix says it.
pub open spec fn mysql_index_type_text(t: Option<IndexType>) -> Seq<char> {
    match t {
        Some(IndexType::FullText) => Seq::empty(),
        Some(t) => " USING "@ + index_type_name(t, Seq::empty()),
        None => Seq::empty(),
    }
}

/// The MySQL inline form: `<prefix>KEY [<name> ](<keys>)[ USING <type>]`.
pub open spec fn mysql_table_index_text(create: IndexCreateStatement) -> Seq<char> {
    mysql_prefix_text(create) + "KEY "@ + match create.name {
        Some(n) => quoted(backtick(), n@) + " "@,
        None => Seq::empty(),
    } + columns_text(backtick(), true, create.columns@) + mysql_index_type_text(create.index_type)
}

/// `CREATE <prefix>INDEX <name> ON <table>` in MySQL.
pub open spec fn mysql_create_head_text(create: IndexCreateStatement) -> Seq<char> {
    "CREATE "@ + mysql_prefix_text(create) + "INDEX "@ + name_text(backtick(), create.name)
        + " ON "@ + table_ref_text(backtick(), create.table)
}

/// What follows the table in a MySQL `CREATE INDEX`.
pub open spec fn mysql_create_tail_text(create: IndexCreateStatement) -> Seq<char> {
    " "@ + columns_text(backtick(), true, create.columns@) + mysql_index_type_text(
        create.index_type,
    )
}

impl QuotedBuilder for MysqlQueryBuilder {
    open spec fn spec_quote(&self) -> Quote {
        backtick()
    }

    fn quote(&self) -> (q: Quote) {
        Quote { left: '`', right: '`' }
    }
}

impl IndexSpec for MysqlQueryBuilder {
    open spec fn spec_index_create_statement(&self, create: IndexCreateStatement) -> Seq<char> {
        mysql_create_head_text(create) + mysql_create_tail_text(create)
    }

    open spec fn spec_table_ref_index_stmt(&self, table: TableRef) -> Seq<char> {
        table_ref_text(backtick(), table)
    }

    open spec fn spec_index_drop_statement(&self, drop: IndexDropStatement) -> Seq<char> {
        "DROP INDEX "@ + quoted(backtick(), drop.name@) + " ON "@ + table_ref_text(
            backtick(),
            drop.table,
        )
    }

    open spec fn spec_index_type(&self, index_type: Option<IndexType>) -> Seq<char> {
        mysql_index_type_text(index_type)
    }

    open spec fn spec_index_prefix(&self, create: IndexCreateStatement) -> Seq<char> {
        mysql_prefix_text(create)
    }

    open spec fn spec_key_lengths(&self) -> bool {
        true
    }

    /// MySQL has no partial indexes.
    open spec fn spec_filter(&self, condition: ConditionHolder) -> Seq<char> {
        Seq::empty()
    }
}

impl IndexBuilder for MysqlQueryBuilder {
    fn prepare_table_index_expression<W: SqlWriter>(
        &self,
        create: &IndexCreateStatement,
        sql: &mut W,
    ) -> (r: Result<(), IndexError>)
        ensures
            r is Ok ==> final(sql).text() == old(sql).text() + mysql_table_index_text(*create),
    {
        match check_index_columns(&create.columns) {
            Err(e) => {
                return Err(e);
            },
            Ok(()) => {},
        }
        self.prepare_index_prefix(create, sql);
        sql.push_str("KEY ");
        if let Some(name) = &create.name {
            write_quoted(self.quote(), name.as_str(), sql);
            sql.push_str(" ");
        }
        let _ = self.prepare_index_columns(&create.columns, sql);
        self.prepare_index_type(&create.index_type, sql);
        assert(sql.text() =~= old(sql).text() + mysql_table_index_text(*create));
        Ok(())
    }

    fn prepare_index_create_statement<W: SqlWriter>(
        &self,
        create: &IndexCreateStatement,
        sql: &mut W,
    ) -> (r: Result<(), IndexError>) {
        match check_create(create) {
            Err(e) => {
                return Err(e);
            },
            Ok(()) => {},
        }
        let ghost s0 = sql.text();
        sql.push_str("CREATE ");
        self.prepare_index_prefix(create, sql);
        sql.push_str("INDEX ");
        write_name(self.quote(), &create.name, sql);
        sql.push_str(" ON ");
        let _ = self.prepare_table_ref_index_stmt(&create.table, sql);
        let ghost head = mysql_create_head_text(*create);
        assert(sql.text() =~= s0 + head);
        let ghost s1 = sql.text();
        sql.push_str(" ");
        let _ = self.prepare_index_columns(&create.columns, sql);
        self.prepare_index_type(&create.index_type, sql);
        let ghost tail = mysql_create_tail_text(*create);
        assert(sql.text() =~= s1 + tail);
        proof {
            lemma_concat_associative(s0, head, tail);
        }
        Ok(())
    }

    fn prepare_table_ref_index_stmt<W: SqlWriter>(&self, table: &TableRef, sql: &mut W) -> (r:
        Result<(), IndexError>) {
        write_index_table(self.quote(), table, sql)
    }

    fn prepare_index_drop_statement<W: SqlWriter>(
        &self,
        drop: &IndexDropStatement,
        sql: &mut W,
    ) -> (r: Result<(), IndexError>) {
        match check_table_ref(&drop.table) {
            Err(e) => {
                return Err(e);
            },
            Ok(()) => {},
        }
        sql.push_str("DROP INDEX ");
        write_quoted(self.quote(), drop.name.as_str(), sql);
        sql.push_str(" ON ");
        write_table_ref(self.quote(), &drop.table, sql);
        assert(sql.text() =~= old(sql).text() + self.spec_index_drop_statement(*drop));
        Ok(())
    }

    fn prepare_index_type<W: SqlWriter>(&self, index_type: &Option<IndexType>, sql: &mut W) {
        match index_type {
            Some(IndexType::FullText) => {},
            Some(t) => {
                sql.push_str(" USING ");
                match t {
                    IndexType::BTree => sql.push_str("BTREE"),
                    IndexType::Hash => sql.push_str("HASH"),
                    IndexType::Custom(s) => sql.push_str(s.as_str()),
                    IndexType::FullText => {},
                }
            },
            None => {},
        }
        assert(sql.text() =~= old(sql).text() + self.spec_index_type(*index_type));
    }

    fn prepare_index_prefix<W: SqlWriter>(&self, create: &IndexCreateStatement, sql: &mut W) {
        write_if(create.primary, "PRIMARY ", sql);
        write_if(create.unique, "UNIQUE ", sql);
        let full_text = matches!(create.index_type, Some(IndexType::FullText));
        write_if(full_text, "FULLTEXT ", sql);
        assert(sql.text() =~= old(sql).text() + self.spec_index_prefix(*create));
    }

    fn write_column_index_prefix<W: SqlWriter>(&self, prefix: &Option<u32>, sql: &mut W) {
        default_write_column_index_prefix(prefix, sql);
    }

    fn prepare_filter<W: SqlWriter>(&self, condition: &ConditionHolder, sql: &mut W) {
        assert(sql.text() =~= old(sql).text() + self.spec_filter(*condition));
    }
}

} // verus!
