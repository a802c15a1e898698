use vstd::prelude::*;

verus! {

/// Prefix operators of the surface syntax.
#[derive(Clone, Copy, Debug, PartialEq, Eq, Structural)]
pub enum UnaryOp {
    /// `-x`
    Negate,
    /// `!x`
    Not,
}

/// Infix operators of the surface syntax.
#[derive(Clone, Copy, Debug, PartialEq, Eq, Structural)]
pub enum BinaryOp {
    Add,
    Sub,
    Mul,
    Div,
    Eq,
    Ne,
    Lt,
    Le,
    Gt,
    Ge,
    And,
    Or,
    Xor,
    BitAnd,
    BitOr,
    Shl,
    Shr,
}

/// An expression over named variables, as produced by a parser.
#[derive(Debug)]
pub enum Expr {
    /// A non-negative numeric literal.
    Literal(u64),
    /// A reference to a declared variable.
    Variable(String),
    Unary(UnaryOp, Box<Expr>),
    Binary(BinaryOp, Box<Expr>, Box<Expr>),
    /// Explicit parentheses.
    Group(Box<Expr>),
}

/// The operators that only have meaning on fixed-width bit-vectors.
pub open spec fn is_bitwise(op: BinaryOp) -> bool {
    match op {
        BinaryOp::Xor | BinaryOp::BitAnd | BinaryOp::BitOr | BinaryOp::Shl | BinaryOp::Shr => true,
        _ => false,
    }
}

/// Whether a bitwise or shift operator occurs anywhere in `e`.
pub open spec fn has_bitwise(e: Expr) -> bool
    decreases e,
{
    match e {
        Expr::Literal(_) => false,
        Expr::Variable(_) => false,
        Expr::Unary(_, a) => has_bitwise(*a),
        Expr::Binary(op, l, r) => is_bitwise(op) || has_bitwise(*l) || has_bitwise(*r),
        Expr::Group(a) => has_bitwise(*a),
    }
}

impl BinaryOp {
    pub fn is_bitwise(self) -> (r: bool)
        ensures
            r == is_bitwise(self),
    {
        match self {
            BinaryOp::Xor | BinaryOp::BitAnd | BinaryOp::BitOr | BinaryOp::Shl | BinaryOp::Shr => true,
            _ => false,
        }
    }
}

} // verus!
