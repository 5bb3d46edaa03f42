//! SQLite-specific binary operators, granted to every expression-like value.
use vstd::prelude::*;
use crate::expr::{BinOper, Expr, ExprTrait};

verus! {

/// Operators that only the SQLite family understands.
#[derive(Clone, Copy, PartialEq, Eq, Structural)]
pub enum SqliteBinOper {
    /// `GLOB`
    Glob,
    /// `MATCH`
    Match,
    /// `->`: a JSON field as JSON.
    GetJsonField,
    /// `->>`: a JSON field cast to an SQL value.
    CastJsonField,
}

/// SQLite-specific operator methods, available on every [`ExprTrait`] value.
pub trait SqliteExpr: ExprTrait {
    /// `self GLOB right`
    fn glob<T: Into<Expr>>(self, right: T) -> (r: Expr)
        ensures
            r matches Expr::Binary(left, op, arg) && *left == self.spec_expr() && op
                == BinOper::Sqlite(SqliteBinOper::Glob) && call_ensures(T::into, (right,), *arg),
    {
        let e = right.into();
        self.binary(BinOper::Sqlite(SqliteBinOper::Glob), e)
    }

    /// `self MATCH right`
    fn matches<T: Into<Expr>>(self, right: T) -> (r: Expr)
        ensures
            r matches Expr::Binary(left, op, arg) && *left == self.spec_expr() && op
                == BinOper::Sqlite(SqliteBinOper::Match) && call_ensures(T::into, (right,), *arg),
    {
        let e = right.into();
        self.binary(BinOper::Sqlite(SqliteBinOper::Match), e)
    }

    /// `self -> right`
    fn get_json_field<T: Into<Expr>>(self, right: T) -> (r: Expr)
        ensures
            r matches Expr::Binary(left, op, arg) && *left == self.spec_expr() && op
                == BinOper::Sqlite(SqliteBinOper::GetJsonField) && call_ensures(T::into, (right,), *arg),
    {
        let e = right.into();
        self.binary(BinOper::Sqlite(SqliteBinOper::GetJsonField), e)
    }

    /// `self ->> right`
    fn cast_json_field<T: Into<Expr>>(self, right: T) -> (r: Expr)
        ensures
            r matches Expr::Binary(left, op, arg) && *left == self.spec_expr() && op
                == BinOper::Sqlite(SqliteBinOper::CastJsonField) && call_ensures(T::into, (right,), *arg),
    {
        let e = right.into();
        self.binary(BinOper::Sqlite(SqliteBinOper::CastJsonField), e)
    }
}

impl<T: ExprTrait> SqliteExpr for T {}

} // verus!
