use easyz3::domain::Z3Type;
use easyz3::error::Z3Error;
use easyz3::expr::{BinaryOp, Expr, UnaryOp};
use easyz3::formula::{
    compile, z3_formula, z3_formula_u16, z3_formula_u32, z3_formula_u64, z3_formula_u8, Formula,
    SolverBinOp, SolverUnOp,
};

fn var(n: &str) -> Expr {
    Expr::Variable(n.to_string())
}

fn lit(n: u64) -> Expr {
    Expr::Literal(n)
}

fn bin(op: BinaryOp, l: Expr, r: Expr) -> Expr {
    Expr::Binary(op, Box::new(l), Box::new(r))
}

fn is_binary(f: &Formula, want: SolverBinOp) -> bool {
    matches!(f, Formula::Binary(op, _, _) if *op == want)
}

#[test]
fn bit_vector_widths() {
    for w in [8usize, 16, 32, 64] {
        assert_eq!(Z3Type::bit_vector(w), Ok(Z3Type::BV(w)));
        assert_eq!(Z3Type::BV(w).validate(), Ok(()));
    }
    for w in [0usize, 1, 7, 9, 12, 24, 63, 65, 128] {
        assert_eq!(Z3Type::bit_vector(w), Err(Z3Error::UnsupportedWidth));
        assert_eq!(Z3Type::BV(w).validate(), Err(Z3Error::UnsupportedWidth));
    }
    assert_eq!(Z3Type::Int.validate(), Ok(()));
}

#[test]
fn type_names() {
    assert!(Z3Type::Int.is_int());
    assert!(!Z3Type::BV(8).is_int());
    assert!(Z3Type::BV(8).allows_bitwise());
    assert!(!Z3Type::Int.allows_bitwise());
    assert_eq!(Z3Type::Int.rust_type_name(), "i64");
    assert_eq!(Z3Type::BV(8).rust_type_name(), "u8");
    assert_eq!(Z3Type::BV(16).rust_type_name(), "u16");
    assert_eq!(Z3Type::BV(32).rust_type_name(), "u32");
    assert_eq!(Z3Type::BV(64).rust_type_name(), "u64");
    assert_eq!(Z3Type::Int.z3_type_name(), "z3::ast::Int");
    assert_eq!(Z3Type::BV(32).z3_type_name(), "z3::ast::BV");
}

#[test]
fn value_ranges() {
    assert!(Z3Type::Int.value_fits(-5));
    assert!(Z3Type::Int.value_fits(i64::MAX as i128));
    assert!(!Z3Type::Int.value_fits(i64::MAX as i128 + 1));
    assert!(Z3Type::BV(8).value_fits(255));
    assert!(!Z3Type::BV(8).value_fits(256));
    assert!(!Z3Type::BV(8).value_fits(-1));
    assert!(Z3Type::BV(64).value_fits(u64::MAX as i128));
}

#[test]
fn xor_under_bit_vectors_and_integers() {
    // a ^ b == 0
    let e = bin(BinaryOp::Eq, bin(BinaryOp::Xor, var("a"), var("b")), lit(0));
    let f = z3_formula_u8(&e).unwrap();
    match &f {
        Formula::Binary(SolverBinOp::Eq, l, r) => {
            assert!(is_binary(l, SolverBinOp::BvXor));
            assert!(matches!(**r, Formula::BvConst(0, 8)));
        }
        other => panic!("unexpected {:?}", other),
    }
    assert_eq!(z3_formula(&e).unwrap_err(), Z3Error::UnsupportedOperation);
}

#[test]
fn every_bitwise_operator_is_refused_on_integers() {
    for op in [BinaryOp::Xor, BinaryOp::BitAnd, BinaryOp::BitOr, BinaryOp::Shl, BinaryOp::Shr] {
        let deep = Expr::Group(Box::new(bin(
            BinaryOp::And,
            bin(BinaryOp::Ge, var("a"), lit(1)),
            Expr::Unary(UnaryOp::Not, Box::new(bin(op, var("a"), var("b")))),
        )));
        assert_eq!(z3_formula(&deep).unwrap_err(), Z3Error::UnsupportedOperation);
        assert!(z3_formula_u32(&deep).is_ok());
    }
}

#[test]
fn integer_lowering_keeps_the_shape() {
    // (a + b) * 2 != -c
    let e = bin(
        BinaryOp::Ne,
        bin(BinaryOp::Mul, Expr::Group(Box::new(bin(BinaryOp::Add, var("a"), var("b")))), lit(2)),
        Expr::Unary(UnaryOp::Negate, Box::new(var("c"))),
    );
    let f = z3_formula(&e).unwrap();
    let Formula::Unary(SolverUnOp::Not, eq) = &f else { panic!("{:?}", f) };
    let Formula::Binary(SolverBinOp::Eq, l, r) = &**eq else { panic!("{:?}", eq) };
    let Formula::Binary(SolverBinOp::Mul, g, two) = &**l else { panic!("{:?}", l) };
    assert!(matches!(**two, Formula::IntConst(2)));
    let Formula::Group(sum) = &**g else { panic!("{:?}", g) };
    assert!(is_binary(sum, SolverBinOp::Add));
    let Formula::Unary(SolverUnOp::Neg, c) = &**r else { panic!("{:?}", r) };
    assert!(matches!(&**c, Formula::Var(n) if n == "c"));
}

#[test]
fn compiling_twice_gives_the_same_formula() {
    let e = bin(BinaryOp::Or, bin(BinaryOp::Lt, var("x"), lit(10)), bin(BinaryOp::Div, var("y"), lit(3)));
    let a = format!("{:?}", z3_formula(&e).unwrap());
    let b = format!("{:?}", z3_formula(&e).unwrap());
    assert_eq!(a, b);
}

#[test]
fn bit_vector_lowering() {
    let e = bin(
        BinaryOp::Lt,
        bin(BinaryOp::Shr, bin(BinaryOp::Sub, var("a"), lit(300)), lit(1)),
        Expr::Unary(UnaryOp::Not, Box::new(var("b"))),
    );
    let f = z3_formula_u8(&e).unwrap();
    let Formula::Binary(SolverBinOp::BvULt, l, r) = &f else { panic!("{:?}", f) };
    let Formula::Binary(SolverBinOp::BvLShr, sub, one) = &**l else { panic!("{:?}", l) };
    assert!(matches!(**one, Formula::BvConst(1, 8)));
    let Formula::Binary(SolverBinOp::BvSub, _, k) = &**sub else { panic!("{:?}", sub) };
    // 300 mod 256
    assert!(matches!(**k, Formula::BvConst(44, 8)));
    assert!(matches!(&**r, Formula::Unary(SolverUnOp::BvNot, _)));
}

#[test]
fn literal_truncation_per_width() {
    let e = lit(0x1_0001_0203);
    assert!(matches!(z3_formula_u8(&e).unwrap(), Formula::BvConst(0x03, 8)));
    assert!(matches!(z3_formula_u16(&e).unwrap(), Formula::BvConst(0x0203, 16)));
    assert!(matches!(z3_formula_u32(&e).unwrap(), Formula::BvConst(0x0001_0203, 32)));
    assert!(matches!(z3_formula_u64(&e).unwrap(), Formula::BvConst(0x1_0001_0203, 64)));
    assert!(matches!(z3_formula(&e).unwrap(), Formula::IntConst(0x1_0001_0203)));
    let big = lit(u64::MAX);
    assert!(matches!(z3_formula_u64(&big).unwrap(), Formula::BvConst(u64::MAX, 64)));
}

#[test]
fn unsupported_width_is_refused_before_compiling() {
    let e = bin(BinaryOp::Add, var("a"), lit(1));
    assert_eq!(compile(Z3Type::BV(12), &e).unwrap_err(), Z3Error::UnsupportedWidth);
}
