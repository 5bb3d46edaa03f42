//! Laws of the index rendering protocol, proved over the dialects' text models.
use vstd::prelude::*;
use crate::backend::{double_quote, MysqlQueryBuilder, PostgresQueryBuilder, SqliteQueryBuilder};
use crate::index::{
    columns_check, create_check, has_expr_column, IndexColumn, IndexColumnTableColumn,
    IndexCreateStatement, IndexError, IndexOrder,
};
use crate::index_builder::{
    column_text, columns_body, columns_text, default_table_index_text, IndexSpec,
};
use crate::render::{decimal, quoted, text_if, where_text, Quote};

verus! {

/// A statement with an expression key is refused, by the inline form and by
/// `CREATE INDEX` alike, whatever else it holds.
pub proof fn lemma_expr_column_refused(create: IndexCreateStatement)
    requires
        has_expr_column(create.columns@),
    ensures
        columns_check(create.columns@) == Err::<(), IndexError>(IndexError::ExprColumn),
        create_check(create) == Err::<(), IndexError>(IndexError::ExprColumn),
{
}

/// A statement with no keys is refused.
pub proof fn lemma_empty_columns_refused(create: IndexCreateStatement)
    requires
        create.columns@.len() == 0,
    ensures
        create_check(create) == Err::<(), IndexError>(IndexError::EmptyColumns),
{
}

/// A statement whose keys are all table columns, on a plain or schema-qualified
/// table, is rendered.
pub proof fn lemma_table_columns_accepted(create: IndexCreateStatement)
    requires
        create.columns@.len() > 0,
        forall|i: int| 0 <= i < create.columns@.len() ==> (#[trigger] create.columns@[i]) is TableColumn,
        !(create.table is TableAlias),
    ensures
        create_check(create) == Ok::<(), IndexError>(()),
{
    assert(!has_expr_column(create.columns@));
}

/// Without conditions the filter is empty in every dialect, and a dialect
/// without partial indexes writes no filter at all.
pub proof fn lemma_no_condition_no_filter(create: IndexCreateStatement)
    requires
        create.condition.conditions@.len() == 0,
    ensures
        PostgresQueryBuilder.spec_filter(create.condition) == Seq::<char>::empty(),
        SqliteQueryBuilder.spec_filter(create.condition) == Seq::<char>::empty(),
        MysqlQueryBuilder.spec_filter(create.condition) == Seq::<char>::empty(),
{
}

/// Rendering is a function of the dialect and the statement: two renderings of
/// one statement by one dialect give the same text.
pub proof fn lemma_rendering_deterministic<B: IndexSpec>(
    b: B,
    create: IndexCreateStatement,
    first: Seq<char>,
    second: Seq<char>,
)
    requires
        first == b.spec_index_create_statement(create),
        second == b.spec_index_create_statement(create),
    ensures
        first == second,
{
}

/// A key with a length is written as its quoted name, ` (<length>)` and its
/// direction; a length of ten reads ` (10)`.
pub proof fn lemma_key_length_after_name(q: Quote, column: IndexColumnTableColumn)
    requires
        column.prefix is Some,
    ensures
        column_text(q, true, column) == quoted(q, column.name@) + " ("@ + decimal(
            column.prefix->0 as nat,
        ) + ")"@ + crate::index_builder::order_text(column.order),
        column.prefix == Some(10u32) ==> column_text(q, true, column) == quoted(q, column.name@)
            + " (10)"@ + crate::index_builder::order_text(column.order),
{
    reveal_strlit(" (");
    reveal_strlit(")");
    reveal_strlit(" (10)");
    assert(decimal(10) =~= seq!['1', '0']) by {
        assert(decimal(1) == seq!['1']);
    }
    if column.prefix == Some(10u32) {
        assert(" ("@ + decimal(10) + ")"@ =~= " (10)"@);
    }
}

/// A descending key ends in ` DESC`, an ascending one in ` ASC`; a key with no
/// direction ends with its name or its length, with no direction word.
pub proof fn lemma_order_suffix(q: Quote, key_lengths: bool, column: IndexColumnTableColumn)
    ensures
        column.order == Some(IndexOrder::Desc) ==> column_text(q, key_lengths, column)
            == quoted(q, column.name@) + text_if(
            key_lengths,
            crate::index_builder::key_length_text(column.prefix),
        ) + " DESC"@,
        column.order == Some(IndexOrder::Asc) ==> column_text(q, key_lengths, column) == quoted(
            q,
            column.name@,
        ) + text_if(key_lengths, crate::index_builder::key_length_text(column.prefix))
            + " ASC"@,
        column.order is None ==> column_text(q, key_lengths, column) == quoted(q, column.name@)
            + text_if(key_lengths, crate::index_builder::key_length_text(column.prefix)),
{
    if column.order is None {
        let s = quoted(q, column.name@) + text_if(
            key_lengths,
            crate::index_builder::key_length_text(column.prefix),
        );
        assert(s + Seq::<char>::empty() =~= s);
    }
}

/// The keys of a statement appear in its `CREATE INDEX`, in order, each with
/// its name, length and direction, inside one pair of parentheses after the
/// table (and, in Postgres, the index method).
pub proof fn lemma_create_lists_columns(create: IndexCreateStatement)
    ensures
        PostgresQueryBuilder.spec_index_create_statement(create) == crate::backend::create_head_text(
            double_quote(),
            create,
        ) + crate::backend::postgres_index_type_text(create.index_type) + " "@ + columns_text(
            double_quote(),
            true,
            create.columns@,
        ) + text_if(create.nulls_not_distinct, " NULLS NOT DISTINCT"@) + where_text(
            double_quote(),
            create.condition,
        ),
        SqliteQueryBuilder.spec_index_create_statement(create) == crate::backend::create_head_text(
            double_quote(),
            create,
        ) + " "@ + columns_text(double_quote(), false, create.columns@) + where_text(
            double_quote(),
            create.condition,
        ),
        MysqlQueryBuilder.spec_index_create_statement(create)
            == crate::backend::mysql_create_head_text(create) + " "@ + columns_text(
            crate::backend::backtick(),
            true,
            create.columns@,
        ) + crate::backend::mysql_index_type_text(create.index_type),
{
    let h = crate::backend::create_head_text(double_quote(), create);
    assert(PostgresQueryBuilder.spec_index_create_statement(create) =~= h
        + crate::backend::postgres_index_type_text(create.index_type) + " "@ + columns_text(
        double_quote(),
        true,
        create.columns@,
    ) + text_if(create.nulls_not_distinct, " NULLS NOT DISTINCT"@) + where_text(
        double_quote(),
        create.condition,
    ));
    assert(SqliteQueryBuilder.spec_index_create_statement(create) =~= h + " "@ + columns_text(
        double_quote(),
        false,
        create.columns@,
    ) + where_text(double_quote(), create.condition));
    assert(MysqlQueryBuilder.spec_index_create_statement(create)
        =~= crate::backend::mysql_create_head_text(create) + " "@ + columns_text(
        crate::backend::backtick(),
        true,
        create.columns@,
    ) + crate::backend::mysql_index_type_text(create.index_type));
}

/// A key list is its keys' texts, in order, separated by `, `: appending a
/// table-column key appends `, ` and that key's text.
pub proof fn lemma_columns_in_order(
    q: Quote,
    key_lengths: bool,
    columns: Seq<IndexColumn>,
    column: IndexColumnTableColumn,
)
    requires
        columns.len() > 0,
    ensures
        columns_body(q, key_lengths, columns.push(IndexColumn::TableColumn(column))) == columns_body(
            q,
            key_lengths,
            columns,
        ) + ", "@ + column_text(q, key_lengths, column),
{
    let s = columns.push(IndexColumn::TableColumn(column));
    assert(s.drop_last() =~= columns);
}

/// The inline form of a named index on a double-quoting dialect begins
/// `CONSTRAINT "<name>" `, then the dialect's prefix, then the key list.
pub proof fn lemma_inline_named_index<B: IndexSpec>(b: B, create: IndexCreateStatement)
    requires
        b.spec_quote() == double_quote(),
        create.name is Some,
        create.condition.conditions@.len() == 0,
        b.spec_filter(create.condition) == Seq::<char>::empty(),
    ensures
        default_table_index_text(&b, create) == "CONSTRAINT "@ + quoted(
            double_quote(),
            create.name->0@,
        ) + " "@ + b.spec_index_prefix(create) + columns_text(
            double_quote(),
            b.spec_key_lengths(),
            create.columns@,
        ),
{
    let t = "CONSTRAINT "@ + quoted(double_quote(), create.name->0@) + " "@ + b.spec_index_prefix(
        create,
    ) + columns_text(double_quote(), b.spec_key_lengths(), create.columns@);
    assert(t + Seq::<char>::empty() =~= t);
}

} // verus!
