use sea_query::render::write_expr;
use sea_query::{Expr, ExprTrait, Quote, SqlString, SqliteExpr, Value};

fn render(e: &Expr) -> String {
    let mut w = SqlString::new();
    write_expr(Quote { left: '"', right: '"' }, e, &mut w);
    w.into_string()
}

#[test]
fn glob_operator() {
    assert_eq!(render(&Expr::col("name").glob(Expr::val("a"))), r#""name" GLOB 'a'"#);
    assert_eq!(render(&Expr::col("name").glob("a".to_string())), r#""name" GLOB 'a'"#);
}

#[test]
fn match_operator() {
    assert_eq!(render(&Expr::col("name").matches(Expr::val("a"))), r#""name" MATCH 'a'"#);
}

#[test]
fn get_json_field_operator() {
    assert_eq!(render(&Expr::col("variant").get_json_field(Expr::val("a"))), r#""variant" -> 'a'"#);
}

#[test]
fn cast_json_field_operator() {
    assert_eq!(render(&Expr::col("variant").cast_json_field(Expr::val("a"))), r#""variant" ->> 'a'"#);
}

#[test]
fn operators_on_values_and_nested_expressions() {
    let e = Value::Str("x".to_string()).glob(Expr::col("pattern"));
    assert_eq!(render(&e), r#"'x' GLOB "pattern""#);
    let e = Expr::col("doc").get_json_field(Expr::val("a")).cast_json_field(7u32);
    assert_eq!(render(&e), r#"("doc" -> 'a') ->> 7"#);
    assert_eq!(render(&Expr::col("a").binary(sea_query::BinOper::And, Expr::col("b"))), r#""a" AND "b""#);
}
