//! Text primitives shared by every dialect: identifiers, numbers, literals,
//! table references, expressions and conditions.
use vstd::prelude::*;
use vstd::string::StrSliceExecFns;
use crate::expr::{BinOper, Expr, Value};
use crate::index::{ConditionHolder, TableRef};
use crate::sqlite_expr::SqliteBinOper;
use crate::writer::SqlWriter;

verus! {

/// The characters that wrap an identifier.
#[derive(Clone, Copy, PartialEq, Eq, Structural)]
pub struct Quote {
    pub left: char,
    pub right: char,
}

/// `text` when `flag` holds, else nothing.
pub open spec fn text_if(flag: bool, text: Seq<char>) -> Seq<char> {
    if flag {
        text
    } else {
        Seq::empty()
    }
}

/// An identifier wrapped in the dialect's quotes.
pub open spec fn quoted(q: Quote, name: Seq<char>) -> Seq<char> {
    seq![q.left] + name + seq![q.right]
}

pub fn write_quoted<W: SqlWriter>(q: Quote, name: &str, sql: &mut W)
    ensures
        final(sql).text() == old(sql).text() + quoted(q, name@),
{
    sql.push_char(q.left);
    sql.push_str(name);
    sql.push_char(q.right);
    assert(sql.text() =~= old(sql).text() + quoted(q, name@));
}

/// The character of a decimal digit.
pub open spec fn digit_char(d: nat) -> char {
    if d == 0 {
        '0'
    } else if d == 1 {
        '1'
    } else if d == 2 {
        '2'
    } else if d == 3 {
        '3'
    } else if d == 4 {
        '4'
    } else if d == 5 {
        '5'
    } else if d == 6 {
        '6'
    } else if d == 7 {
        '7'
    } else if d == 8 {
        '8'
    } else {
        '9'
    }
}

/// The decimal notation of a natural number, without leading zeros.
pub open spec fn decimal(n: nat) -> Seq<char>
    decreases n,
{
    if n < 10 {
        seq![digit_char(n)]
    } else {
        decimal(n / 10).push(digit_char(n % 10))
    }
}

fn digit(d: u32) -> (c: char)
    requires
        d < 10,
    ensures
        c == digit_char(d as nat),
{
    if d == 0 {
        '0'
    } else if d == 1 {
        '1'
    } else if d == 2 {
        '2'
    } else if d == 3 {
        '3'
    } else if d == 4 {
        '4'
    } else if d == 5 {
        '5'
    } else if d == 6 {
        '6'
    } else if d == 7 {
        '7'
    } else if d == 8 {
        '8'
    } else {
        '9'
    }
}

pub fn write_decimal<W: SqlWriter>(n: u32, sql: &mut W)
    ensures
        final(sql).text() == old(sql).text() + decimal(n as nat),
    decreases n,
{
    if n >= 10 {
        write_decimal(n / 10, sql);
    }
    sql.push_char(digit(n % 10));
    assert(sql.text() =~= old(sql).text() + decimal(n as nat));
}

/// A string literal's body, with each single quote doubled.
pub open spec fn escape_literal(s: Seq<char>) -> Seq<char>
    decreases s.len(),
{
    if s.len() == 0 {
        Seq::empty()
    } else {
        let c = s.last();
        escape_literal(s.drop_last()) + if c == '\'' {
            seq!['\'', '\'']
        } else {
            seq![c]
        }
    }
}

/// A string literal in single quotes.
pub open spec fn literal_text(s: Seq<char>) -> Seq<char> {
    seq!['\''] + escape_literal(s) + seq!['\'']
}

pub fn write_literal<W: SqlWriter>(s: &str, sql: &mut W)
    ensures
        final(sql).text() == old(sql).text() + literal_text(s@),
{
    sql.push_char('\'');
    let ghost start = sql.text();
    let n = s.unicode_len();
    let mut i: usize = 0;
    while i < n
        invariant
            n == s@.len(),
            0 <= i <= n,
            start == old(sql).text().push('\''),
            sql.text() == start + escape_literal(s@.take(i as int)),
        decreases n - i,
    {
        let c = s.get_char(i);
        if c == '\'' {
            sql.push_char('\'');
            sql.push_char('\'');
        } else {
            sql.push_char(c);
        }
        assert(s@.take(i + 1).drop_last() =~= s@.take(i as int));
        i = i + 1;
    }
    assert(s@.take(n as int) =~= s@);
    sql.push_char('\'');
    assert(sql.text() =~= old(sql).text() + literal_text(s@));
}

/// A table reference: its name, qualified by schema or followed by its alias.
pub open spec fn table_ref_text(q: Quote, t: TableRef) -> Seq<char> {
    match t {
        TableRef::Table(n) => quoted(q, n@),
        TableRef::SchemaTable(s, n) => quoted(q, s@) + "."@ + quoted(q, n@),
        TableRef::TableAlias(n, a) => quoted(q, n@) + " AS "@ + quoted(q, a@),
    }
}

pub fn write_table_ref<W: SqlWriter>(q: Quote, t: &TableRef, sql: &mut W)
    ensures
        final(sql).text() == old(sql).text() + table_ref_text(q, *t),
{
    match t {
        TableRef::Table(n) => {
            write_quoted(q, n.as_str(), sql);
        },
        TableRef::SchemaTable(s, n) => {
            write_quoted(q, s.as_str(), sql);
            sql.push_str(".");
            write_quoted(q, n.as_str(), sql);
        },
        TableRef::TableAlias(n, a) => {
            write_quoted(q, n.as_str(), sql);
            sql.push_str(" AS ");
            write_quoted(q, a.as_str(), sql);
        },
    }
    assert(sql.text() =~= old(sql).text() + table_ref_text(q, *t));
}

/// The SQL spelling of an operator.
pub open spec fn oper_text(op: BinOper) -> Seq<char> {
    match op {
        BinOper::Equal => "="@,
        BinOper::NotEqual => "<>"@,
        BinOper::Like => "LIKE"@,
        BinOper::And => "AND"@,
        BinOper::Or => "OR"@,
        BinOper::Sqlite(SqliteBinOper::Glob) => "GLOB"@,
        BinOper::Sqlite(SqliteBinOper::Match) => "MATCH"@,
        BinOper::Sqlite(SqliteBinOper::GetJsonField) => "->"@,
        BinOper::Sqlite(SqliteBinOper::CastJsonField) => "->>"@,
    }
}

fn oper_str(op: BinOper) -> (s: &'static str)
    ensures
        s@ == oper_text(op),
{
    match op {
        BinOper::Equal => "=",
        BinOper::NotEqual => "<>",
        BinOper::Like => "LIKE",
        BinOper::And => "AND",
        BinOper::Or => "OR",
        BinOper::Sqlite(SqliteBinOper::Glob) => "GLOB",
        BinOper::Sqlite(SqliteBinOper::Match) => "MATCH",
        BinOper::Sqlite(SqliteBinOper::GetJsonField) => "->",
        BinOper::Sqlite(SqliteBinOper::CastJsonField) => "->>",
    }
}

/// An expression; an operand that is itself a binary expression is parenthesized.
pub open spec fn expr_text(q: Quote, e: Expr) -> Seq<char>
    decreases e, 0nat,
{
    match e {
        Expr::Column(n) => quoted(q, n@),
        Expr::Value(Value::Str(s)) => literal_text(s@),
        Expr::Value(Value::Uint(n)) => decimal(n as nat),
        Expr::Binary(l, op, r) => operand_text(q, *l) + seq![' '] + oper_text(op) + seq![' ']
            + operand_text(q, *r),
    }
}

/// An operand of a binary expression.
pub open spec fn operand_text(q: Quote, e: Expr) -> Seq<char>
    decreases e, 1nat,
{
    if e is Binary {
        seq!['('] + expr_text(q, e) + seq![')']
    } else {
        expr_text(q, e)
    }
}

pub fn write_expr<W: SqlWriter>(q: Quote, e: &Expr, sql: &mut W)
    ensures
        final(sql).text() == old(sql).text() + expr_text(q, *e),
    decreases *e, 0nat,
{
    match e {
        Expr::Column(n) => {
            write_quoted(q, n.as_str(), sql);
        },
        Expr::Value(Value::Str(s)) => {
            write_literal(s.as_str(), sql);
        },
        Expr::Value(Value::Uint(n)) => {
            write_decimal(*n, sql);
        },
        Expr::Binary(l, op, r) => {
            write_operand(q, l, sql);
            sql.push_char(' ');
            sql.push_str(oper_str(*op));
            sql.push_char(' ');
            write_operand(q, r, sql);
        },
    }
    assert(sql.text() =~= old(sql).text() + expr_text(q, *e));
}

fn write_operand<W: SqlWriter>(q: Quote, e: &Expr, sql: &mut W)
    ensures
        final(sql).text() == old(sql).text() + operand_text(q, *e),
    decreases *e, 1nat,
{
    if let Expr::Binary(..) = e {
        sql.push_char('(');
        write_expr(q, e, sql);
        sql.push_char(')');
    } else {
        write_expr(q, e, sql);
    }
    assert(sql.text() =~= old(sql).text() + operand_text(q, *e));
}

/// The conditions of a predicate joined by `AND`; with more than one, each is parenthesized.
pub open spec fn conditions_text(q: Quote, conds: Seq<Expr>) -> Seq<char>
    decreases conds.len(),
{
    if conds.len() == 0 {
        Seq::empty()
    } else if conds.len() == 1 {
        expr_text(q, conds[0])
    } else {
        joined_conditions(q, conds)
    }
}

/// Two or more conditions, each in parentheses, joined by `AND`.
pub open spec fn joined_conditions(q: Quote, conds: Seq<Expr>) -> Seq<char>
    decreases conds.len(),
{
    if conds.len() == 0 {
        Seq::empty()
    } else if conds.len() == 1 {
        seq!['('] + expr_text(q, conds[0]) + seq![')']
    } else {
        joined_conditions(q, conds.drop_last()) + " AND ("@ + expr_text(q, conds.last())
            + seq![')']
    }
}

/// A `WHERE` clause with a leading space, or nothing when there is no condition.
pub open spec fn where_text(q: Quote, c: ConditionHolder) -> Seq<char> {
    if c.conditions@.len() == 0 {
        Seq::empty()
    } else {
        " WHERE "@ + conditions_text(q, c.conditions@)
    }
}

pub fn write_where<W: SqlWriter>(q: Quote, c: &ConditionHolder, sql: &mut W)
    ensures
        final(sql).text() == old(sql).text() + where_text(q, *c),
{
    let conds = &c.conditions;
    let n = conds.len();
    if n == 0 {
        assert(sql.text() =~= old(sql).text() + where_text(q, *c));
        return;
    }
    sql.push_str(" WHERE ");
    if n == 1 {
        write_expr(q, &conds[0], sql);
        assert(sql.text() =~= old(sql).text() + where_text(q, *c));
        return;
    }
    let ghost start = sql.text();
    let mut i: usize = 0;
    while i < n
        invariant
            n == conds@.len(),
            n > 1,
            0 <= i <= n,
            start == old(sql).text() + " WHERE "@,
            sql.text() == start + joined_conditions(q, conds@.take(i as int)),
        decreases n - i,
    {
        if i > 0 {
            sql.push_str(" AND ");
        }
        sql.push_char('(');
        write_expr(q, &conds[i], sql);
        sql.push_char(')');
        proof {
            let t = conds@.take(i + 1);
            assert(t.drop_last() =~= conds@.take(i as int));
            assert(t.last() == conds@[i as int]);
            reveal_strlit(" AND ");
            reveal_strlit(" AND (");
            if i == 0 {
                assert(sql.text() =~= start + joined_conditions(q, t));
            } else {
                assert(sql.text() =~= start + joined_conditions(q, t));
            }
        }
        i = i + 1;
    }
    assert(conds@.take(n as int) =~= conds@);
    assert(sql.text() =~= old(sql).text() + where_text(q, *c));
}

} // verus!
