//! The shared expression tree and its minimal combination capability.
use vstd::prelude::*;
use vstd::string::StringExecFns;
use crate::sqlite_expr::SqliteBinOper;

verus! {

/// A literal value inside an expression.
pub enum Value {
    Str(String),
    Uint(u32),
}

/// Binary operators common to every dialect, plus a slot for dialect extensions.
#[derive(Clone, Copy, PartialEq, Eq, Structural)]
pub enum BinOper {
    Equal,
    NotEqual,
    Like,
    And,
    Or,
    Sqlite(SqliteBinOper),
}

/// A dialect-neutral expression node.
pub enum Expr {
    Column(String),
    Value(Value),
    Binary(Box<Expr>, BinOper, Box<Expr>),
}

impl Expr {
    /// A column reference.
    pub fn col(name: &str) -> (e: Expr)
        ensures
            e matches Expr::Column(n) && n@ == name@,
    {
        Expr::Column(String::from_str(name))
    }

    /// A string literal.
    pub fn val(s: &str) -> (e: Expr)
        ensures
            e matches Expr::Value(Value::Str(v)) && v@ == s@,
    {
        Expr::Value(Value::Str(String::from_str(s)))
    }
}

impl From<Value> for Expr {
    fn from(v: Value) -> (e: Expr)
        ensures
            e == Expr::Value(v),
    {
        Expr::Value(v)
    }
}

impl vstd::std_specs::convert::FromSpecImpl<Value> for Expr {
    open spec fn obeys_from_spec() -> bool {
        true
    }

    open spec fn from_spec(v: Value) -> Expr {
        Expr::Value(v)
    }
}

impl From<String> for Expr {
    fn from(s: String) -> (e: Expr)
        ensures
            e == Expr::Value(Value::Str(s)),
    {
        Expr::Value(Value::Str(s))
    }
}

impl vstd::std_specs::convert::FromSpecImpl<String> for Expr {
    open spec fn obeys_from_spec() -> bool {
        true
    }

    open spec fn from_spec(s: String) -> Expr {
        Expr::Value(Value::Str(s))
    }
}

impl From<u32> for Expr {
    fn from(n: u32) -> (e: Expr)
        ensures
            e == Expr::Value(Value::Uint(n)),
    {
        Expr::Value(Value::Uint(n))
    }
}

impl vstd::std_specs::convert::FromSpecImpl<u32> for Expr {
    open spec fn obeys_from_spec() -> bool {
        true
    }

    open spec fn from_spec(n: u32) -> Expr {
        Expr::Value(Value::Uint(n))
    }
}

/// The capability every expression-like value has: it can be combined with a
/// right-hand operand under a binary operator.
pub trait ExprTrait: Sized {
    /// The expression this value stands for.
    spec fn spec_expr(self) -> Expr;

    fn binary(self, op: BinOper, right: Expr) -> (r: Expr)
        ensures
            r == Expr::Binary(Box::new(self.spec_expr()), op, Box::new(right)),
    ;
}

impl ExprTrait for Expr {
    open spec fn spec_expr(self) -> Expr {
        self
    }

    fn binary(self, op: BinOper, right: Expr) -> (r: Expr) {
        Expr::Binary(Box::new(self), op, Box::new(right))
    }
}

impl ExprTrait for Value {
    open spec fn spec_expr(self) -> Expr {
        Expr::Value(self)
    }

    fn binary(self, op: BinOper, right: Expr) -> (r: Expr) {
        Expr::Binary(Box::new(Expr::Value(self)), op, Box::new(right))
    }
}

} // verus!
