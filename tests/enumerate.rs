use std::collections::HashMap;

use easyz3::domain::Z3Type;
use easyz3::enumerate::{z3_solve, z3_solve_u8, Action, Enumerator, Phase, SatResult};
use easyz3::error::Z3Error;
use easyz3::expr::{BinaryOp, Expr};
use easyz3::formula::{compile, Formula, SolverBinOp, SolverUnOp};

fn names(v: &[&str]) -> Vec<String> {
    v.iter().map(|s| s.to_string()).collect()
}

fn var(n: &str) -> Expr {
    Expr::Variable(n.to_string())
}

fn bin(op: BinaryOp, l: Expr, r: Expr) -> Expr {
    Expr::Binary(op, Box::new(l), Box::new(r))
}

/// Value of a formula under an assignment, for the operators these tests use.
fn value(f: &Formula, env: &HashMap<String, i128>, width: u32) -> i128 {
    let mask = |v: i128| if width == 0 { v } else { v.rem_euclid(1i128 << width) };
    let b = |x: bool| x as i128;
    match f {
        Formula::IntConst(v) => *v,
        Formula::BvConst(v, _) => *v as i128,
        Formula::Var(n) => env[n],
        Formula::Group(g) => value(g, env, width),
        Formula::Unary(op, a) => {
            let x = value(a, env, width);
            match op {
                SolverUnOp::Not => b(x == 0),
                SolverUnOp::Neg | SolverUnOp::BvNeg => mask(-x),
                SolverUnOp::BvNot => mask(!x),
            }
        }
        Formula::Binary(op, l, r) => {
            let (x, y) = (value(l, env, width), value(r, env, width));
            match op {
                SolverBinOp::Add | SolverBinOp::BvAdd => mask(x + y),
                SolverBinOp::Sub | SolverBinOp::BvSub => mask(x - y),
                SolverBinOp::Eq => b(x == y),
                SolverBinOp::Ge | SolverBinOp::BvUGe => b(x >= y),
                SolverBinOp::Lt | SolverBinOp::BvULt => b(x < y),
                SolverBinOp::And => b(x != 0 && y != 0),
                SolverBinOp::Or => b(x != 0 || y != 0),
                SolverBinOp::BvXor => x ^ y,
                other => panic!("not needed here: {:?}", other),
            }
        }
        Formula::Distinct(_) => panic!("not needed here"),
    }
}

/// A brute-force stand-in for a solver over a small candidate range.
struct Brute {
    names: Vec<String>,
    range: std::ops::RangeInclusive<i128>,
    width: u32,
    asserted: Vec<Formula>,
    model: Option<Vec<i128>>,
}

impl Brute {
    fn check(&mut self) -> SatResult {
        let n = self.names.len();
        let lo = *self.range.start();
        let span = (*self.range.end() - lo + 1) as usize;
        let mut idx = vec![0usize; n];
        loop {
            let tuple: Vec<i128> = idx.iter().map(|i| lo + *i as i128).collect();
            let env: HashMap<String, i128> =
                self.names.iter().cloned().zip(tuple.iter().cloned()).collect();
            if self.asserted.iter().all(|f| value(f, &env, self.width) != 0) {
                self.model = Some(tuple);
                return SatResult::Sat;
            }
            let mut k = 0;
            loop {
                if k == n {
                    self.model = None;
                    return SatResult::Unsat;
                }
                idx[k] += 1;
                if idx[k] < span {
                    break;
                }
                idx[k] = 0;
                k += 1;
            }
        }
    }
}

/// Drives an enumeration to its end; returns the solutions and the number
/// of blocking clauses counted after each one.
fn run(mut en: Enumerator, solver: &mut Brute) -> (Vec<Vec<i128>>, Vec<usize>, Phase) {
    let mut found = Vec::new();
    let mut counts = Vec::new();
    loop {
        match en.next_action() {
            Action::Check => {
                let r = solver.check();
                en.on_check(r);
            }
            Action::GetModel => {
                let vals: Vec<Option<i128>> =
                    solver.model.clone().unwrap().into_iter().map(Some).collect();
                let before = en.blocking_count();
                let (tuple, clause) = en.on_model(&vals).unwrap();
                assert_eq!(en.blocking_count(), before + 1);
                solver.asserted.push(clause);
                counts.push(en.blocking_count());
                found.push(tuple);
            }
            Action::Stop => return (found, counts, en.current_phase()),
        }
    }
}



#[test]
fn integer_sum_has_four_solutions() {
    // a + b == 3 && a >= 0 && b >= 0
    let e = bin(
        BinaryOp::And,
        bin(
            BinaryOp::And,
            bin(BinaryOp::Eq, bin(BinaryOp::Add, var("a"), var("b")), Expr::Literal(3)),
            bin(BinaryOp::Ge, var("a"), Expr::Literal(0)),
        ),
        bin(BinaryOp::Ge, var("b"), Expr::Literal(0)),
    );
    let f = compile(Z3Type::Int, &e).unwrap();
    let mut solver = Brute { names: names(&["a", "b"]), range: -6..=6, width: 0, asserted: vec![f], model: None };
    let en = z3_solve(names(&["a", "b"])).unwrap();
    let (mut found, counts, phase) = run(en, &mut solver);
    assert_eq!(phase, Phase::Exhausted);
    assert_eq!(counts, vec![1, 2, 3, 4]);
    found.sort();
    assert_eq!(found, vec![vec![0, 3], vec![1, 2], vec![2, 1], vec![3, 0]]);
}

#[test]
fn bit_vector_xor_enumeration() {
    // a ^ b == 0 && a < 4
    let e = bin(
        BinaryOp::And,
        bin(BinaryOp::Eq, bin(BinaryOp::Xor, var("a"), var("b")), Expr::Literal(0)),
        bin(BinaryOp::Lt, var("a"), Expr::Literal(4)),
    );
    let f = compile(Z3Type::BV(8), &e).unwrap();
    let mut solver = Brute { names: names(&["a", "b"]), range: 0..=255, width: 8, asserted: vec![f], model: None };
    let en = z3_solve_u8(names(&["a", "b"])).unwrap();
    let (mut found, _, phase) = run(en, &mut solver);
    assert_eq!(phase, Phase::Exhausted);
    found.sort();
    assert_eq!(found, vec![vec![0, 0], vec![1, 1], vec![2, 2], vec![3, 3]]);
}

#[test]
fn solve_refuses_bad_variable_lists() {
    assert_eq!(z3_solve(names(&[])).unwrap_err(), Z3Error::EmptyVariableSet);
    assert_eq!(z3_solve(names(&["a", "a"])).unwrap_err(), Z3Error::DuplicateVariable);
    assert_eq!(Enumerator::new(Z3Type::BV(3), names(&["a"])).unwrap_err(), Z3Error::UnsupportedWidth);
}

#[test]
fn missing_or_oversized_model_values_fail() {
    let mut en = z3_solve_u8(names(&["a", "b"])).unwrap();
    assert_eq!(en.next_action(), Action::Check);
    en.on_check(SatResult::Sat);
    assert_eq!(en.next_action(), Action::GetModel);
    assert_eq!(en.on_model(&vec![Some(1), None]).unwrap_err(), Z3Error::ModelExtractionFailed);
    assert_eq!(en.next_action(), Action::Stop);
    assert_eq!(en.blocking_count(), 0);

    let mut en = z3_solve_u8(names(&["a"])).unwrap();
    en.on_check(SatResult::Sat);
    assert_eq!(en.on_model(&vec![Some(256)]).unwrap_err(), Z3Error::ModelExtractionFailed);
    assert_eq!(en.current_phase(), Phase::Failed);
}

#[test]
fn repeated_model_is_refused() {
    let mut en = z3_solve(names(&["a"])).unwrap();
    en.on_check(SatResult::Sat);
    let (t, _) = en.on_model(&vec![Some(-7)]).unwrap();
    assert_eq!(t, vec![-7]);
    assert_eq!(en.current_phase(), Phase::Blocked);
    en.on_check(SatResult::Sat);
    assert_eq!(en.on_model(&vec![Some(-7)]).unwrap_err(), Z3Error::RepeatedSolution);
    assert_eq!(en.blocking_count(), 1);
}

#[test]
fn unknown_is_not_unsat() {
    let mut en = z3_solve(names(&["a"])).unwrap();
    en.on_check(SatResult::Unknown);
    assert_eq!(en.current_phase(), Phase::Inconclusive);
    assert_eq!(en.next_action(), Action::Stop);
    let mut en = z3_solve(names(&["a"])).unwrap();
    en.on_check(SatResult::Unsat);
    assert_eq!(en.current_phase(), Phase::Exhausted);
    assert_eq!(en.variable_names(), names(&["a"]));
}

#[test]
fn model_without_every_variable_fails() {
    let mut en = z3_solve(names(&["a", "b"])).unwrap();
    en.on_check(SatResult::Sat);
    assert_eq!(en.on_model(&vec![Some(1)]).unwrap_err(), Z3Error::ModelExtractionFailed);
    assert_eq!(en.current_phase(), Phase::Failed);
    assert_eq!(en.blocking_count(), 0);
}

#[test]
fn each_solution_violates_only_its_own_blocking_clause() {
    let mut en = z3_solve(names(&["a", "b"])).unwrap();
    let mut clauses = Vec::new();
    let mut sols = Vec::new();
    for t in [[1i128, 2], [2, 1], [-3, 0]] {
        en.on_check(SatResult::Sat);
        let (s, c) = en.on_model(&vec![Some(t[0]), Some(t[1])]).unwrap();
        sols.push(s);
        clauses.push(c);
    }
    for (i, c) in clauses.iter().enumerate() {
        for (j, s) in sols.iter().enumerate() {
            let env: HashMap<String, i128> =
                names(&["a", "b"]).into_iter().zip(s.iter().cloned()).collect();
            assert_eq!(value(c, &env, 0) != 0, i != j);
        }
    }
}
