use sea_query::render::write_expr;
use sea_query::ExprTrait;
use sea_query::{
    ConditionHolder, Expr, IndexBuilder, IndexColumn, IndexColumnTableColumn,
    IndexCreateStatement, IndexDropStatement, IndexError, IndexOrder, IndexType,
    MysqlQueryBuilder, PostgresQueryBuilder, Quote, SqlString, SqliteQueryBuilder, TableRef,
};

fn col(name: &str, prefix: Option<u32>, order: Option<IndexOrder>) -> IndexColumn {
    IndexColumn::TableColumn(IndexColumnTableColumn { name: name.to_string(), prefix, order })
}

fn statement(name: Option<&str>, columns: Vec<IndexColumn>) -> IndexCreateStatement {
    IndexCreateStatement {
        name: name.map(|n| n.to_string()),
        table: TableRef::Table("font".to_string()),
        columns,
        index_type: None,
        primary: false,
        unique: false,
        nulls_not_distinct: false,
        if_not_exists: false,
        condition: ConditionHolder { conditions: vec![] },
    }
}

fn create<B: IndexBuilder>(b: &B, s: &IndexCreateStatement) -> Result<String, IndexError> {
    let mut w = SqlString::new();
    b.prepare_index_create_statement(s, &mut w)?;
    Ok(w.into_string())
}

fn inline<B: IndexBuilder>(b: &B, s: &IndexCreateStatement) -> Result<String, IndexError> {
    let mut w = SqlString::new();
    b.prepare_table_index_expression(s, &mut w)?;
    Ok(w.into_string())
}

fn drop<B: IndexBuilder>(b: &B, s: &IndexDropStatement) -> Result<String, IndexError> {
    let mut w = SqlString::new();
    b.prepare_index_drop_statement(s, &mut w)?;
    Ok(w.into_string())
}

#[test]
fn inline_named_index_on_double_quote_dialect() {
    let s = statement(Some("idx_name"), vec![col("name", None, None)]);
    assert_eq!(inline(&PostgresQueryBuilder, &s).unwrap(), r#"CONSTRAINT "idx_name" ("name")"#);
    assert_eq!(inline(&SqliteQueryBuilder, &s).unwrap(), r#"CONSTRAINT "idx_name" ("name")"#);
    let mut u = statement(Some("idx_name"), vec![col("name", None, None)]);
    u.unique = true;
    assert_eq!(
        inline(&PostgresQueryBuilder, &u).unwrap(),
        r#"CONSTRAINT "idx_name" UNIQUE ("name")"#
    );
}

#[test]
fn inline_index_mysql() {
    let mut s = statement(Some("idx_name"), vec![col("name", Some(10), None)]);
    s.unique = true;
    s.index_type = Some(IndexType::BTree);
    assert_eq!(
        inline(&MysqlQueryBuilder, &s).unwrap(),
        "UNIQUE KEY `idx_name` (`name` (10)) USING BTREE"
    );
}

#[test]
fn create_index_postgres() {
    let mut s = statement(
        Some("idx-glyph-aspect"),
        vec![col("aspect", None, Some(IndexOrder::Desc)), col("id", None, Some(IndexOrder::Asc))],
    );
    s.unique = true;
    s.if_not_exists = true;
    s.index_type = Some(IndexType::Hash);
    assert_eq!(
        create(&PostgresQueryBuilder, &s).unwrap(),
        r#"CREATE UNIQUE INDEX IF NOT EXISTS "idx-glyph-aspect" ON "font" USING HASH ("aspect" DESC, "id" ASC)"#
    );
}

#[test]
fn create_index_postgres_partial() {
    let mut s = statement(Some("idx"), vec![col("name", None, None)]);
    s.table = TableRef::SchemaTable("public".to_string(), "font".to_string());
    s.nulls_not_distinct = true;
    s.condition = ConditionHolder {
        conditions: vec![Expr::col("name").binary(sea_query::BinOper::Equal, Expr::val("a"))],
    };
    assert_eq!(
        create(&PostgresQueryBuilder, &s).unwrap(),
        r#"CREATE INDEX "idx" ON "public"."font" ("name") NULLS NOT DISTINCT WHERE "name" = 'a'"#
    );
}

#[test]
fn create_index_sqlite_with_two_conditions() {
    let mut s = statement(Some("idx"), vec![col("name", Some(10), None)]);
    s.condition = ConditionHolder {
        conditions: vec![
            Expr::col("a").binary(sea_query::BinOper::Equal, Expr::from(1u32)),
            Expr::col("b").binary(sea_query::BinOper::Like, Expr::val("it's")),
        ],
    };
    assert_eq!(
        create(&SqliteQueryBuilder, &s).unwrap(),
        r#"CREATE INDEX "idx" ON "font" ("name") WHERE ("a" = 1) AND ("b" LIKE 'it''s')"#
    );
}

#[test]
fn create_index_mysql() {
    let mut s = statement(Some("idx"), vec![col("name", None, None), col("id", None, None)]);
    s.index_type = Some(IndexType::FullText);
    s.condition = ConditionHolder { conditions: vec![Expr::col("x")] };
    assert_eq!(
        create(&MysqlQueryBuilder, &s).unwrap(),
        "CREATE FULLTEXT INDEX `idx` ON `font` (`name`, `id`)"
    );
}

#[test]
fn column_prefix_renders_after_name() {
    let s = statement(Some("idx"), vec![col("name", Some(10), None)]);
    let pg = create(&PostgresQueryBuilder, &s).unwrap();
    assert!(pg.contains(r#""name" (10)"#));
    assert_eq!(pg, r#"CREATE INDEX "idx" ON "font" ("name" (10))"#);
    let my = create(&MysqlQueryBuilder, &s).unwrap();
    assert_eq!(my, "CREATE INDEX `idx` ON `font` (`name` (10))");
    let s = statement(Some("idx"), vec![col("name", Some(4294967295), Some(IndexOrder::Asc))]);
    assert_eq!(
        create(&PostgresQueryBuilder, &s).unwrap(),
        r#"CREATE INDEX "idx" ON "font" ("name" (4294967295) ASC)"#
    );
}

#[test]
fn order_suffixes() {
    let s = statement(
        None,
        vec![col("a", None, Some(IndexOrder::Desc)), col("b", None, None), col("c", None, Some(IndexOrder::Asc))],
    );
    assert_eq!(inline(&PostgresQueryBuilder, &s).unwrap(), r#"("a" DESC, "b", "c" ASC)"#);
}

#[test]
fn expr_column_fails_and_writes_nothing() {
    let s = statement(Some("idx"), vec![col("a", None, None), IndexColumn::Expr(Expr::col("b"))]);
    assert_eq!(create(&PostgresQueryBuilder, &s), Err(IndexError::ExprColumn));
    assert_eq!(create(&SqliteQueryBuilder, &s), Err(IndexError::ExprColumn));
    assert_eq!(create(&MysqlQueryBuilder, &s), Err(IndexError::ExprColumn));
    assert_eq!(inline(&PostgresQueryBuilder, &s), Err(IndexError::ExprColumn));
    assert_eq!(inline(&MysqlQueryBuilder, &s), Err(IndexError::ExprColumn));
    let mut w = SqlString::new();
    assert_eq!(PostgresQueryBuilder.prepare_index_create_statement(&s, &mut w), Err(IndexError::ExprColumn));
    assert_eq!(w.as_str(), "");
}

#[test]
fn empty_columns_fail() {
    let s = statement(Some("idx"), vec![]);
    assert_eq!(create(&PostgresQueryBuilder, &s), Err(IndexError::EmptyColumns));
    assert_eq!(inline(&SqliteQueryBuilder, &s), Err(IndexError::EmptyColumns));
}

#[test]
fn aliased_table_fails() {
    let mut s = statement(Some("idx"), vec![col("a", None, None)]);
    s.table = TableRef::TableAlias("font".to_string(), "f".to_string());
    assert_eq!(create(&SqliteQueryBuilder, &s), Err(IndexError::UnsupportedTableRef));
    let d = IndexDropStatement { name: "idx".to_string(), table: s.table, if_exists: false };
    assert_eq!(drop(&MysqlQueryBuilder, &d), Err(IndexError::UnsupportedTableRef));
}

#[test]
fn no_where_without_condition() {
    let s = statement(Some("idx"), vec![col("a", None, None)]);
    assert!(!create(&PostgresQueryBuilder, &s).unwrap().contains("WHERE"));
    assert!(!create(&SqliteQueryBuilder, &s).unwrap().contains("WHERE"));
    assert!(!create(&MysqlQueryBuilder, &s).unwrap().contains("WHERE"));
    assert!(!inline(&MysqlQueryBuilder, &s).unwrap().contains("WHERE"));
}

#[test]
fn rendering_twice_is_identical() {
    let mut s = statement(Some("idx"), vec![col("a", Some(3), Some(IndexOrder::Desc))]);
    s.primary = true;
    for_each_twice(&PostgresQueryBuilder, &s);
    for_each_twice(&SqliteQueryBuilder, &s);
    for_each_twice(&MysqlQueryBuilder, &s);
}

fn for_each_twice<B: IndexBuilder>(b: &B, s: &IndexCreateStatement) {
    assert_eq!(create(b, s).unwrap(), create(b, s).unwrap());
    assert_eq!(inline(b, s).unwrap(), inline(b, s).unwrap());
}

#[test]
fn drop_index_statements() {
    let d = IndexDropStatement {
        name: "idx".to_string(),
        table: TableRef::SchemaTable("public".to_string(), "font".to_string()),
        if_exists: true,
    };
    assert_eq!(drop(&PostgresQueryBuilder, &d).unwrap(), r#"DROP INDEX IF EXISTS "public"."idx""#);
    assert_eq!(drop(&SqliteQueryBuilder, &d).unwrap(), r#"DROP INDEX IF EXISTS "public"."idx""#);
    assert_eq!(drop(&MysqlQueryBuilder, &d).unwrap(), "DROP INDEX `idx` ON `public`.`font`");
    let d = IndexDropStatement { name: "idx".to_string(), table: TableRef::Table("font".to_string()), if_exists: false };
    assert_eq!(drop(&PostgresQueryBuilder, &d).unwrap(), r#"DROP INDEX "idx""#);
}

#[test]
fn primary_key_prefixes() {
    let mut s = statement(None, vec![col("id", None, None)]);
    s.primary = true;
    assert_eq!(inline(&PostgresQueryBuilder, &s).unwrap(), r#"PRIMARY KEY ("id")"#);
    assert_eq!(inline(&MysqlQueryBuilder, &s).unwrap(), "PRIMARY KEY (`id`)");
}

#[test]
fn custom_index_type() {
    let mut s = statement(Some("idx"), vec![col("id", None, None)]);
    s.index_type = Some(IndexType::Custom("brin".to_string()));
    assert_eq!(
        create(&PostgresQueryBuilder, &s).unwrap(),
        r#"CREATE INDEX "idx" ON "font" USING brin ("id")"#
    );
    assert_eq!(create(&MysqlQueryBuilder, &s).unwrap(), "CREATE INDEX `idx` ON `font` (`id`) USING brin");
    assert_eq!(create(&SqliteQueryBuilder, &s).unwrap(), r#"CREATE INDEX "idx" ON "font" ("id")"#);
}

#[test]
fn expression_parenthesizes_nested_operands() {
    let e = Expr::col("a")
        .binary(sea_query::BinOper::Equal, Expr::from(1u32))
        .binary(sea_query::BinOper::Or, Expr::col("b").binary(sea_query::BinOper::NotEqual, Expr::val("x")));
    let mut w = SqlString::new();
    write_expr(Quote { left: '"', right: '"' }, &e, &mut w);
    assert_eq!(w.as_str(), r#"("a" = 1) OR ("b" <> 'x')"#);
}

