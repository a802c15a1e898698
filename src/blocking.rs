use vstd::prelude::*;
use crate::domain::Z3Type;
use crate::error::Z3Error;
use crate::formula::{Formula, SolverBinOp, SolverUnOp};
use crate::variables::unique_names;

verus! {

/// The constant that model value `v` becomes in domain `d`.
pub open spec fn value_const(d: Z3Type, v: i128) -> Formula {
    match d {
        Z3Type::Int => Formula::IntConst(v),
        Z3Type::BV(w) => Formula::BvConst(v as u64, w),
    }
}

/// `name == v`.
pub open spec fn equality(d: Z3Type, name: String, v: i128) -> Formula {
    Formula::Binary(SolverBinOp::Eq, Box::new(Formula::Var(name)), Box::new(value_const(d, v)))
}

/// The conjunction of `names[k] == vals[k]` for `k` from `i` to the end,
/// nested to the right.
pub open spec fn conjunction_from(d: Z3Type, names: Seq<String>, vals: Seq<i128>, i: int) -> Formula
    decreases names.len() - i,
{
    if i >= names.len() - 1 {
        equality(d, names[i], vals[i])
    } else {
        Formula::Binary(
            SolverBinOp::And,
            Box::new(equality(d, names[i], vals[i])),
            Box::new(conjunction_from(d, names, vals, i + 1)),
        )
    }
}

/// The clause that forbids exactly the assignment `names == vals`.
pub open spec fn blocking(d: Z3Type, names: Seq<String>, vals: Seq<i128>) -> Formula {
    Formula::Unary(SolverUnOp::Not, Box::new(conjunction_from(d, names, vals, 0)))
}

fn equality_exec(d: Z3Type, name: &String, v: i128) -> (r: Formula)
    ensures
        r == equality(d, *name, v),
{
    let c = match d {
        Z3Type::Int => Formula::IntConst(v),
        Z3Type::BV(w) => Formula::BvConst(v as u64, w),
    };
    Formula::Binary(SolverBinOp::Eq, Box::new(Formula::Var(name.clone())), Box::new(c))
}

/// Builds the blocking clause `!(n0 == v0 && n1 == v1 && ...)` that rules
/// out the assignment of `values` to `names` on the next solve.
pub fn disallow(d: Z3Type, names: &Vec<String>, values: &Vec<i128>) -> (r: Result<Formula, Z3Error>)
    requires
        names@.len() == values@.len(),
    ensures
        names@.len() == 0 ==> r == Err::<Formula, Z3Error>(Z3Error::EmptyVariableSet),
        names@.len() > 0 ==> r == Ok::<Formula, Z3Error>(blocking(d, names@, values@)),
{
    let n = names.len();
    if n == 0 {
        return Err(Z3Error::EmptyVariableSet);
    }
    let mut i: usize = n - 1;
    let mut acc = equality_exec(d, &names[i], values[i]);
    while i > 0
        invariant
            n == names@.len(),
            n == values@.len(),
            i < n,
            acc == conjunction_from(d, names@, values@, i as int),
        decreases i,
    {
        i -= 1;
        let eq = equality_exec(d, &names[i], values[i]);
        acc = Formula::Binary(SolverBinOp::And, Box::new(eq), Box::new(acc));
    }
    Ok(Formula::Unary(SolverUnOp::Not, Box::new(acc)))
}

/// The value that the assignment of `t` to `names` gives variable `x`
/// (0 for a name that is not assigned).
pub open spec fn lookup(names: Seq<String>, t: Seq<i128>, x: Seq<char>) -> int {
    if exists|i: int| 0 <= i < names.len() && names[i]@ == x {
        t[choose|i: int| 0 <= i < names.len() && names[i]@ == x] as int
    } else {
        0
    }
}

/// Value of a variable or a constant under an assignment.
pub open spec fn term_value(f: Formula, names: Seq<String>, t: Seq<i128>) -> int {
    match f {
        Formula::Var(x) => lookup(names, t, x@),
        Formula::IntConst(v) => v as int,
        Formula::BvConst(v, _) => v as int,
        _ => 0,
    }
}

/// Truth under an assignment of a formula built from equalities between
/// variables and constants, conjunction, negation and parentheses.
/// Any other formula counts as false.
pub open spec fn holds(f: Formula, names: Seq<String>, t: Seq<i128>) -> bool
    decreases f,
{
    match f {
        Formula::Binary(SolverBinOp::Eq, l, r) => term_value(*l, names, t) == term_value(
            *r,
            names,
            t,
        ),
        Formula::Binary(SolverBinOp::And, l, r) => holds(*l, names, t) && holds(*r, names, t),
        Formula::Unary(SolverUnOp::Not, a) => !holds(*a, names, t),
        Formula::Group(a) => holds(*a, names, t),
        _ => false,
    }
}

proof fn lemma_lookup(names: Seq<String>, t: Seq<i128>, i: int)
    requires
        unique_names(names),
        0 <= i < names.len(),
    ensures
        lookup(names, t, names[i]@) == t[i] as int,
{
    let x = names[i]@;
    assert(0 <= i < names.len() && names[i]@ == x);
    let j = choose|j: int| 0 <= j < names.len() && names[j]@ == x;
    if j < i {
        assert(names[j]@ != names[i]@);
    } else if i < j {
        assert(names[i]@ != names[j]@);
    }
}

proof fn lemma_conjunction(
    d: Z3Type,
    names: Seq<String>,
    sol: Seq<i128>,
    t: Seq<i128>,
    i: int,
)
    requires
        unique_names(names),
        0 <= i < names.len(),
        sol.len() == names.len(),
        t.len() == names.len(),
        forall|k: int| 0 <= k < sol.len() ==> d.fits(#[trigger] sol[k] as int),
        d.wf(),
    ensures
        holds(conjunction_from(d, names, sol, i), names, t) <==> (forall|k: int|
            i <= k < names.len() ==> t[k] == sol[k]),
    decreases names.len() - i,
{
    lemma_lookup(names, t, i);
    assert(d.fits(sol[i] as int));
    assert(term_value(value_const(d, sol[i]), names, t) == sol[i] as int);
    assert(term_value(Formula::Var(names[i]), names, t) == t[i] as int);
    let eq = equality(d, names[i], sol[i]);
    assert(holds(eq, names, t) <==> t[i] == sol[i]);
    if i < names.len() - 1 {
        lemma_conjunction(d, names, sol, t, i + 1);
        assert((forall|k: int| i <= k < names.len() ==> t[k] == sol[k]) <==> (t[i] == sol[i] && (
        forall|k: int| i + 1 <= k < names.len() ==> t[k] == sol[k])));
    } else {
        assert((forall|k: int| i <= k < names.len() ==> t[k] == sol[k]) <==> t[i] == sol[i]);
    }
}

/// The blocking clause of `sol` is false under exactly one assignment to
/// `names`: `sol` itself. Every other assignment of the same length
/// satisfies it.
pub proof fn lemma_blocking_excludes_exactly(
    d: Z3Type,
    names: Seq<String>,
    sol: Seq<i128>,
    t: Seq<i128>,
)
    requires
        d.wf(),
        names.len() > 0,
        unique_names(names),
        sol.len() == names.len(),
        t.len() == names.len(),
        forall|k: int| 0 <= k < sol.len() ==> d.fits(#[trigger] sol[k] as int),
    ensures
        holds(blocking(d, names, sol), names, t) <==> t != sol,
{
    lemma_conjunction(d, names, sol, t, 0);
    if forall|k: int| 0 <= k < names.len() ==> t[k] == sol[k] {
        assert(t =~= sol);
    }
}

} // verus!
