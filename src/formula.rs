use vstd::prelude::*;
use crate::domain::{Z3Type, bv_modulus, supported_width};
use crate::error::Z3Error;
use crate::expr::{BinaryOp, Expr, UnaryOp, has_bitwise, is_bitwise};

verus! {

/// Unary operations of the solver.
#[derive(Clone, Copy, Debug, PartialEq, Eq, Structural)]
pub enum SolverUnOp {
    /// Integer negation.
    Neg,
    /// Two's-complement negation.
    BvNeg,
    /// Boolean negation.
    Not,
    /// Bitwise complement.
    BvNot,
}

/// Binary operations of the solver. `Add` and `Mul` are the solver's
/// n-ary integer sum and product, applied to two operands.
#[derive(Clone, Copy, Debug, PartialEq, Eq, Structural)]
pub enum SolverBinOp {
    Add,
    Sub,
    Mul,
    Div,
    BvAdd,
    BvSub,
    BvMul,
    BvUDiv,
    Eq,
    Lt,
    Le,
    Gt,
    Ge,
    BvULt,
    BvULe,
    BvUGt,
    BvUGe,
    And,
    Or,
    BvXor,
    BvAnd,
    BvOr,
    BvShl,
    BvLShr,
}

/// A constraint in the solver's own terms, ready to be asserted.
#[derive(Debug)]
pub enum Formula {
    /// An integer constant.
    IntConst(i128),
    /// A bit-vector constant: value and width.
    BvConst(u64, usize),
    /// A declared free variable.
    Var(String),
    /// Explicit parentheses of the source, kept for fidelity.
    Group(Box<Formula>),
    Unary(SolverUnOp, Box<Formula>),
    Binary(SolverBinOp, Box<Formula>, Box<Formula>),
    /// All the named variables take pairwise different values.
    Distinct(Vec<String>),
}

/// The constant that literal `n` becomes in domain `d`.
pub open spec fn lower_literal(d: Z3Type, n: u64) -> Formula {
    match d {
        Z3Type::Int => Formula::IntConst(n as i128),
        Z3Type::BV(w) => Formula::BvConst((n as int % bv_modulus(w)) as u64, w),
    }
}

pub open spec fn lower_unary(d: Z3Type, op: UnaryOp) -> SolverUnOp {
    match (d, op) {
        (Z3Type::Int, UnaryOp::Negate) => SolverUnOp::Neg,
        (Z3Type::Int, UnaryOp::Not) => SolverUnOp::Not,
        (Z3Type::BV(_), UnaryOp::Negate) => SolverUnOp::BvNeg,
        (Z3Type::BV(_), UnaryOp::Not) => SolverUnOp::BvNot,
    }
}

/// The solver operation for a binary operator other than `Ne`, whose
/// lowering is the negation of `Eq`.
pub open spec fn lower_binary(d: Z3Type, op: BinaryOp) -> SolverBinOp {
    match op {
        BinaryOp::Add => if d is Int { SolverBinOp::Add } else { SolverBinOp::BvAdd },
        BinaryOp::Sub => if d is Int { SolverBinOp::Sub } else { SolverBinOp::BvSub },
        BinaryOp::Mul => if d is Int { SolverBinOp::Mul } else { SolverBinOp::BvMul },
        BinaryOp::Div => if d is Int { SolverBinOp::Div } else { SolverBinOp::BvUDiv },
        BinaryOp::Eq | BinaryOp::Ne => SolverBinOp::Eq,
        BinaryOp::Lt => if d is Int { SolverBinOp::Lt } else { SolverBinOp::BvULt },
        BinaryOp::Le => if d is Int { SolverBinOp::Le } else { SolverBinOp::BvULe },
        BinaryOp::Gt => if d is Int { SolverBinOp::Gt } else { SolverBinOp::BvUGt },
        BinaryOp::Ge => if d is Int { SolverBinOp::Ge } else { SolverBinOp::BvUGe },
        BinaryOp::And => SolverBinOp::And,
        BinaryOp::Or => SolverBinOp::Or,
        BinaryOp::Xor => SolverBinOp::BvXor,
        BinaryOp::BitAnd => SolverBinOp::BvAnd,
        BinaryOp::BitOr => SolverBinOp::BvOr,
        BinaryOp::Shl => SolverBinOp::BvShl,
        BinaryOp::Shr => SolverBinOp::BvLShr,
    }
}

/// Lowering of `e` under a well-formed domain `d`, one rule per node kind.
pub open spec fn lower(d: Z3Type, e: Expr) -> Result<Formula, Z3Error>
    decreases e,
{
    match e {
        Expr::Literal(n) => Ok(lower_literal(d, n)),
        Expr::Variable(x) => Ok(Formula::Var(x)),
        Expr::Group(a) => match lower(d, *a) {
            Ok(f) => Ok(Formula::Group(Box::new(f))),
            Err(x) => Err(x),
        },
        Expr::Unary(op, a) => match lower(d, *a) {
            Ok(f) => Ok(Formula::Unary(lower_unary(d, op), Box::new(f))),
            Err(x) => Err(x),
        },
        Expr::Binary(op, l, r) => if d is Int && is_bitwise(op) {
            Err(Z3Error::UnsupportedOperation)
        } else {
            match lower(d, *l) {
                Err(x) => Err(x),
                Ok(fl) => match lower(d, *r) {
                    Err(x) => Err(x),
                    Ok(fr) => {
                        let eq = Formula::Binary(lower_binary(d, op), Box::new(fl), Box::new(fr));
                        if op is Ne {
                            Ok(Formula::Unary(SolverUnOp::Not, Box::new(eq)))
                        } else {
                            Ok(eq)
                        }
                    },
                },
            }
        },
    }
}

/// Compilation of `e` under `d`: an unusable domain is refused first.
pub open spec fn compiled(d: Z3Type, e: Expr) -> Result<Formula, Z3Error> {
    if d.wf() {
        lower(d, e)
    } else {
        Err(Z3Error::UnsupportedWidth)
    }
}

/// The source operator that a solver unary operation reads as.
pub open spec fn source_unary(op: SolverUnOp) -> UnaryOp {
    match op {
        SolverUnOp::Neg | SolverUnOp::BvNeg => UnaryOp::Negate,
        SolverUnOp::Not | SolverUnOp::BvNot => UnaryOp::Not,
    }
}

/// The source operator that a solver binary operation reads as.
pub open spec fn source_binary(op: SolverBinOp) -> BinaryOp {
    match op {
        SolverBinOp::Add | SolverBinOp::BvAdd => BinaryOp::Add,
        SolverBinOp::Sub | SolverBinOp::BvSub => BinaryOp::Sub,
        SolverBinOp::Mul | SolverBinOp::BvMul => BinaryOp::Mul,
        SolverBinOp::Div | SolverBinOp::BvUDiv => BinaryOp::Div,
        SolverBinOp::Eq => BinaryOp::Eq,
        SolverBinOp::Lt | SolverBinOp::BvULt => BinaryOp::Lt,
        SolverBinOp::Le | SolverBinOp::BvULe => BinaryOp::Le,
        SolverBinOp::Gt | SolverBinOp::BvUGt => BinaryOp::Gt,
        SolverBinOp::Ge | SolverBinOp::BvUGe => BinaryOp::Ge,
        SolverBinOp::And => BinaryOp::And,
        SolverBinOp::Or => BinaryOp::Or,
        SolverBinOp::BvXor => BinaryOp::Xor,
        SolverBinOp::BvAnd => BinaryOp::BitAnd,
        SolverBinOp::BvOr => BinaryOp::BitOr,
        SolverBinOp::BvShl => BinaryOp::Shl,
        SolverBinOp::BvLShr => BinaryOp::Shr,
    }
}

/// `f` has the shape of `e` node for node: each node of `f` reads as the
/// corresponding node of `e`, and `l != r` appears as `!(l == r)`.
pub open spec fn mirrors(e: Expr, f: Formula) -> bool
    decreases e,
{
    match e {
        Expr::Literal(n) => match f {
            Formula::IntConst(v) => v == n,
            Formula::BvConst(v, w) => supported_width(w) && v == n as int % bv_modulus(w),
            _ => false,
        },
        Expr::Variable(x) => f == Formula::Var(x),
        Expr::Group(a) => match f {
            Formula::Group(g) => mirrors(*a, *g),
            _ => false,
        },
        Expr::Unary(op, a) => match f {
            Formula::Unary(fop, g) => source_unary(fop) == op && mirrors(*a, *g),
            _ => false,
        },
        Expr::Binary(op, l, r) => if op is Ne {
            match f {
                Formula::Unary(SolverUnOp::Not, g) => match *g {
                    Formula::Binary(SolverBinOp::Eq, fl, fr) => mirrors(*l, *fl) && mirrors(*r, *fr),
                    _ => false,
                },
                _ => false,
            }
        } else {
            match f {
                Formula::Binary(fop, fl, fr) => source_binary(fop) == op && mirrors(*l, *fl)
                    && mirrors(*r, *fr),
                _ => false,
            }
        },
    }
}

/// Reduces a literal to the values of a bit-vector width.
fn truncate(n: u64, w: usize) -> (r: u64)
    requires
        supported_width(w),
    ensures
        r as int == n as int % bv_modulus(w),
{
    if w == 8 {
        n % 0x100
    } else if w == 16 {
        n % 0x1_0000
    } else if w == 32 {
        n % 0x1_0000_0000
    } else {
        proof {
            vstd::arithmetic::div_mod::lemma_small_mod(n as nat, 0x1_0000_0000_0000_0000nat);
        }
        n
    }
}

fn lower_expr(d: Z3Type, e: &Expr) -> (r: Result<Formula, Z3Error>)
    requires
        d.wf(),
    ensures
        r == lower(d, *e),
    decreases e,
{
    match e {
        Expr::Literal(n) => match d {
            Z3Type::Int => Ok(Formula::IntConst(*n as i128)),
            Z3Type::BV(w) => Ok(Formula::BvConst(truncate(*n, w), w)),
        },
        Expr::Variable(x) => Ok(Formula::Var(x.clone())),
        Expr::Group(a) => match lower_expr(d, a) {
            Ok(f) => Ok(Formula::Group(Box::new(f))),
            Err(x) => Err(x),
        },
        Expr::Unary(op, a) => {
            let fop = match (d, op) {
                (Z3Type::Int, UnaryOp::Negate) => SolverUnOp::Neg,
                (Z3Type::Int, UnaryOp::Not) => SolverUnOp::Not,
                (Z3Type::BV(_), UnaryOp::Negate) => SolverUnOp::BvNeg,
                (Z3Type::BV(_), UnaryOp::Not) => SolverUnOp::BvNot,
            };
            match lower_expr(d, a) {
                Ok(f) => Ok(Formula::Unary(fop, Box::new(f))),
                Err(x) => Err(x),
            }
        },
        Expr::Binary(op, l, r) => {
            if d.is_int() && op.is_bitwise() {
                return Err(Z3Error::UnsupportedOperation);
            }
            let fl = match lower_expr(d, l) {
                Ok(f) => f,
                Err(x) => return Err(x),
            };
            let fr = match lower_expr(d, r) {
                Ok(f) => f,
                Err(x) => return Err(x),
            };
            let eq = Formula::Binary(binary_op(d, *op), Box::new(fl), Box::new(fr));
            match op {
                BinaryOp::Ne => Ok(Formula::Unary(SolverUnOp::Not, Box::new(eq))),
                _ => Ok(eq),
            }
        },
    }
}

fn binary_op(d: Z3Type, op: BinaryOp) -> (r: SolverBinOp)
    ensures
        r == lower_binary(d, op),
{
    let on_int = d.is_int();
    match op {
        BinaryOp::Add => if on_int { SolverBinOp::Add } else { SolverBinOp::BvAdd },
        BinaryOp::Sub => if on_int { SolverBinOp::Sub } else { SolverBinOp::BvSub },
        BinaryOp::Mul => if on_int { SolverBinOp::Mul } else { SolverBinOp::BvMul },
        BinaryOp::Div => if on_int { SolverBinOp::Div } else { SolverBinOp::BvUDiv },
        BinaryOp::Eq | BinaryOp::Ne => SolverBinOp::Eq,
        BinaryOp::Lt => if on_int { SolverBinOp::Lt } else { SolverBinOp::BvULt },
        BinaryOp::Le => if on_int { SolverBinOp::Le } else { SolverBinOp::BvULe },
        BinaryOp::Gt => if on_int { SolverBinOp::Gt } else { SolverBinOp::BvUGt },
        BinaryOp::Ge => if on_int { SolverBinOp::Ge } else { SolverBinOp::BvUGe },
        BinaryOp::And => SolverBinOp::And,
        BinaryOp::Or => SolverBinOp::Or,
        BinaryOp::Xor => SolverBinOp::BvXor,
        BinaryOp::BitAnd => SolverBinOp::BvAnd,
        BinaryOp::BitOr => SolverBinOp::BvOr,
        BinaryOp::Shl => SolverBinOp::BvShl,
        BinaryOp::Shr => SolverBinOp::BvLShr,
    }
}

/// Compiles `e` into a solver formula under domain `d`.
pub fn compile(d: Z3Type, e: &Expr) -> (r: Result<Formula, Z3Error>)
    ensures
        r == compiled(d, *e),
{
    match d.validate() {
        Ok(()) => lower_expr(d, e),
        Err(x) => Err(x),
    }
}

/// Compilation is total wherever the domain allows every operator used:
/// under a usable domain, an expression with no bitwise operator, or any
/// expression under a bit-vector domain, compiles, and the result has the
/// expression's shape node for node.
pub proof fn lemma_compile_total_and_mirrors(d: Z3Type, e: Expr)
    requires
        d.wf(),
        d is BV || !has_bitwise(e),
    ensures
        compiled(d, e) is Ok,
        mirrors(e, compiled(d, e)->Ok_0),
    decreases e,
{
    match e {
        Expr::Literal(n) => {},
        Expr::Variable(_) => {},
        Expr::Group(a) => {
            lemma_compile_total_and_mirrors(d, *a);
        },
        Expr::Unary(op, a) => {
            lemma_compile_total_and_mirrors(d, *a);
        },
        Expr::Binary(op, l, r) => {
            lemma_compile_total_and_mirrors(d, *l);
            lemma_compile_total_and_mirrors(d, *r);
        },
    }
}

/// Under the integer domain, an expression that uses a bitwise or shift
/// operator anywhere is refused with `UnsupportedOperation`.
pub proof fn lemma_integer_refuses_bitwise(e: Expr)
    requires
        has_bitwise(e),
    ensures
        compiled(Z3Type::Int, e) == Err::<Formula, Z3Error>(Z3Error::UnsupportedOperation),
    decreases e,
{
    match e {
        Expr::Literal(_) => {},
        Expr::Variable(_) => {},
        Expr::Group(a) => {
            lemma_integer_refuses_bitwise(*a);
        },
        Expr::Unary(_, a) => {
            lemma_integer_refuses_bitwise(*a);
        },
        Expr::Binary(op, l, r) => {
            if !is_bitwise(op) {
                if has_bitwise(*l) {
                    lemma_integer_refuses_bitwise(*l);
                } else {
                    lemma_integer_refuses_bitwise(*r);
                    lemma_compile_total_and_mirrors(Z3Type::Int, *l);
                }
            }
        },
    }
}

/// A formula over unbounded integers.
pub fn z3_formula(e: &Expr) -> (r: Result<Formula, Z3Error>)
    ensures
        r == compiled(Z3Type::Int, *e),
{
    compile(Z3Type::Int, e)
}

/// A formula over 8-bit vectors.
pub fn z3_formula_u8(e: &Expr) -> (r: Result<Formula, Z3Error>)
    ensures
        r == compiled(Z3Type::BV(8), *e),
{
    compile(Z3Type::BV(8), e)
}

/// A formula over 16-bit vectors.
pub fn z3_formula_u16(e: &Expr) -> (r: Result<Formula, Z3Error>)
    ensures
        r == compiled(Z3Type::BV(16), *e),
{
    compile(Z3Type::BV(16), e)
}

/// A formula over 32-bit vectors.
pub fn z3_formula_u32(e: &Expr) -> (r: Result<Formula, Z3Error>)
    ensures
        r == compiled(Z3Type::BV(32), *e),
{
    compile(Z3Type::BV(32), e)
}

/// A formula over 64-bit vectors.
pub fn z3_formula_u64(e: &Expr) -> (r: Result<Formula, Z3Error>)
    ensures
        r == compiled(Z3Type::BV(64), *e),
{
    compile(Z3Type::BV(64), e)
}

} // verus!
