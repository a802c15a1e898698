use vstd::prelude::*;
use crate::domain::Z3Type;
use crate::error::Z3Error;
use crate::expr::Expr;
use crate::formula::{Formula, compile, compiled};
use crate::variables::{has_duplicate, unique_names};

verus! {

/// A free variable of the solver and its sort.
#[derive(Debug)]
pub struct Declaration {
    pub name: String,
    pub sort: Z3Type,
}

/// One operation on a live solver session, in the order it must be run.
#[derive(Debug)]
pub enum Command {
    /// Open a fresh session with the default configuration.
    NewSession,
    /// Declare a fresh free variable.
    Declare(Declaration),
    /// Add a constraint to the session.
    Assert(Formula),
}

/// One declaration per name, in order, all of sort `d`.
pub open spec fn declarations(d: Z3Type, names: Seq<String>) -> Seq<Command> {
    Seq::new(names.len(), |i: int| Command::Declare(Declaration { name: names[i], sort: d }))
}

/// The outcome of declaring `names` under `d`: the domain is checked
/// first, then the names for repeats.
pub open spec fn declared(d: Z3Type, names: Seq<String>) -> Result<Seq<Command>, Z3Error> {
    if !d.wf() {
        Err(Z3Error::UnsupportedWidth)
    } else if !unique_names(names) {
        Err(Z3Error::DuplicateVariable)
    } else {
        Ok(declarations(d, names))
    }
}

/// Declares each of `names`, in order, as a free variable of domain `d`.
pub fn declare_variables(d: Z3Type, names: &Vec<String>) -> (r: Result<Vec<Command>, Z3Error>)
    ensures
        r is Ok <==> declared(d, names@) is Ok,
        r is Ok ==> r->Ok_0@ == declared(d, names@)->Ok_0,
        r is Err ==> r->Err_0 == declared(d, names@)->Err_0,
{
    if let Err(x) = d.validate() {
        return Err(x);
    }
    if has_duplicate(names) {
        return Err(Z3Error::DuplicateVariable);
    }
    let mut out: Vec<Command> = Vec::new();
    let mut i: usize = 0;
    while i < names.len()
        invariant
            i <= names.len(),
            out@ == declarations(d, names@.subrange(0, i as int)),
        decreases names.len() - i,
    {
        out.push(Command::Declare(Declaration { name: names[i].clone(), sort: d }));
        i += 1;
        assert(out@ =~= declarations(d, names@.subrange(0, i as int)));
    }
    assert(names@.subrange(0, names@.len() as int) =~= names@);
    Ok(out)
}

/// Opens a session and declares `names` under `d`.
pub fn init(d: Z3Type, names: &Vec<String>) -> (r: Result<Vec<Command>, Z3Error>)
    ensures
        r is Ok <==> declared(d, names@) is Ok,
        r is Ok ==> r->Ok_0@ == seq![Command::NewSession] + declared(d, names@)->Ok_0,
        r is Err ==> r->Err_0 == declared(d, names@)->Err_0,
{
    match declare_variables(d, names) {
        Ok(decls) => {
            let mut out: Vec<Command> = Vec::new();
            out.push(Command::NewSession);
            let mut rest = decls;
            out.append(&mut rest);
            Ok(out)
        },
        Err(x) => Err(x),
    }
}

/// Compiles `e` under `d` into an assertion.
pub fn constraint(d: Z3Type, e: &Expr) -> (r: Result<Command, Z3Error>)
    ensures
        r is Ok <==> compiled(d, *e) is Ok,
        r is Ok ==> r->Ok_0 == Command::Assert(compiled(d, *e)->Ok_0),
        r is Err ==> r->Err_0 == compiled(d, *e)->Err_0,
{
    match compile(d, e) {
        Ok(f) => Ok(Command::Assert(f)),
        Err(x) => Err(x),
    }
}

/// `c` asserts that exactly the variables `names` are pairwise distinct.
pub open spec fn asserts_distinct(c: Command, names: Seq<String>) -> bool {
    match c {
        Command::Assert(Formula::Distinct(v)) => v@ == names,
        _ => false,
    }
}

/// A copy of `names`, element for element.
pub fn copy_names(names: &Vec<String>) -> (r: Vec<String>)
    ensures
        r@ == names@,
{
    let mut out: Vec<String> = Vec::new();
    let mut i: usize = 0;
    while i < names.len()
        invariant
            i <= names.len(),
            out@ == names@.subrange(0, i as int),
        decreases names.len() - i,
    {
        out.push(names[i].clone());
        i += 1;
        assert(out@ =~= names@.subrange(0, i as int));
    }
    assert(names@.subrange(0, names@.len() as int) =~= names@);
    out
}

/// Asserts that all of `names` take pairwise different values.
pub fn z3_distinct(names: &Vec<String>) -> (r: Result<Command, Z3Error>)
    ensures
        names@.len() == 0 ==> r == Err::<Command, Z3Error>(Z3Error::EmptyVariableSet),
        names@.len() > 0 ==> r is Ok && asserts_distinct(r->Ok_0, names@),
{
    if names.len() == 0 {
        return Err(Z3Error::EmptyVariableSet);
    }
    Ok(Command::Assert(Formula::Distinct(copy_names(names))))
}

/// Opens a session and declares `names` as unbounded integers.
pub fn z3_init(names: &Vec<String>) -> (r: Result<Vec<Command>, Z3Error>)
    ensures
        r is Ok <==> declared(Z3Type::Int, names@) is Ok,
        r is Ok ==> r->Ok_0@ == seq![Command::NewSession] + declared(Z3Type::Int, names@)->Ok_0,
        r is Err ==> r->Err_0 == declared(Z3Type::Int, names@)->Err_0,
{
    init(Z3Type::Int, names)
}

/// Declares `names` as unbounded integers.
pub fn z3_var(names: &Vec<String>) -> (r: Result<Vec<Command>, Z3Error>)
    ensures
        r is Ok <==> declared(Z3Type::Int, names@) is Ok,
        r is Ok ==> r->Ok_0@ == declared(Z3Type::Int, names@)->Ok_0,
        r is Err ==> r->Err_0 == declared(Z3Type::Int, names@)->Err_0,
{
    declare_variables(Z3Type::Int, names)
}

/// Asserts `e` over unbounded integers.
pub fn z3_constraint(e: &Expr) -> (r: Result<Command, Z3Error>)
    ensures
        r is Ok <==> compiled(Z3Type::Int, *e) is Ok,
        r is Ok ==> r->Ok_0 == Command::Assert(compiled(Z3Type::Int, *e)->Ok_0),
        r is Err ==> r->Err_0 == compiled(Z3Type::Int, *e)->Err_0,
{
    constraint(Z3Type::Int, e)
}

/// Opens a session and declares `names` as 8-bit vectors.
pub fn z3_init_u8(names: &Vec<String>) -> (r: Result<Vec<Command>, Z3Error>)
    ensures
        r is Ok <==> declared(Z3Type::BV(8), names@) is Ok,
        r is Ok ==> r->Ok_0@ == seq![Command::NewSession] + declared(Z3Type::BV(8), names@)->Ok_0,
        r is Err ==> r->Err_0 == declared(Z3Type::BV(8), names@)->Err_0,
{
    init(Z3Type::BV(8), names)
}

/// Declares `names` as 8-bit vectors.
pub fn z3_var_u8(names: &Vec<String>) -> (r: Result<Vec<Command>, Z3Error>)
    ensures
        r is Ok <==> declared(Z3Type::BV(8), names@) is Ok,
        r is Ok ==> r->Ok_0@ == declared(Z3Type::BV(8), names@)->Ok_0,
        r is Err ==> r->Err_0 == declared(Z3Type::BV(8), names@)->Err_0,
{
    declare_variables(Z3Type::BV(8), names)
}

/// Asserts `e` over 8-bit vectors.
pub fn z3_constraint_u8(e: &Expr) -> (r: Result<Command, Z3Error>)
    ensures
        r is Ok <==> compiled(Z3Type::BV(8), *e) is Ok,
        r is Ok ==> r->Ok_0 == Command::Assert(compiled(Z3Type::BV(8), *e)->Ok_0),
        r is Err ==> r->Err_0 == compiled(Z3Type::BV(8), *e)->Err_0,
{
    constraint(Z3Type::BV(8), e)
}

/// Opens a session and declares `names` as 16-bit vectors.
pub fn z3_init_u16(names: &Vec<String>) -> (r: Result<Vec<Command>, Z3Error>)
    ensures
        r is Ok <==> declared(Z3Type::BV(16), names@) is Ok,
        r is Ok ==> r->Ok_0@ == seq![Command::NewSession] + declared(Z3Type::BV(16), names@)->Ok_0,
        r is Err ==> r->Err_0 == declared(Z3Type::BV(16), names@)->Err_0,
{
    init(Z3Type::BV(16), names)
}

/// Declares `names` as 16-bit vectors.
pub fn z3_var_u16(names: &Vec<String>) -> (r: Result<Vec<Command>, Z3Error>)
    ensures
        r is Ok <==> declared(Z3Type::BV(16), names@) is Ok,
        r is Ok ==> r->Ok_0@ == declared(Z3Type::BV(16), names@)->Ok_0,
        r is Err ==> r->Err_0 == declared(Z3Type::BV(16), names@)->Err_0,
{
    declare_variables(Z3Type::BV(16), names)
}

/// Asserts `e` over 16-bit vectors.
pub fn z3_constraint_u16(e: &Expr) -> (r: Result<Command, Z3Error>)
    ensures
        r is Ok <==> compiled(Z3Type::BV(16), *e) is Ok,
        r is Ok ==> r->Ok_0 == Command::Assert(compiled(Z3Type::BV(16), *e)->Ok_0),
        r is Err ==> r->Err_0 == compiled(Z3Type::BV(16), *e)->Err_0,
{
    constraint(Z3Type::BV(16), e)
}

/// Opens a session and declares `names` as 32-bit vectors.
pub fn z3_init_u32(names: &Vec<String>) -> (r: Result<Vec<Command>, Z3Error>)
    ensures
        r is Ok <==> declared(Z3Type::BV(32), names@) is Ok,
        r is Ok ==> r->Ok_0@ == seq![Command::NewSession] + declared(Z3Type::BV(32), names@)->Ok_0,
        r is Err ==> r->Err_0 == declared(Z3Type::BV(32), names@)->Err_0,
{
    init(Z3Type::BV(32), names)
}

/// Declares `names` as 32-bit vectors.
pub fn z3_var_u32(names: &Vec<String>) -> (r: Result<Vec<Command>, Z3Error>)
    ensures
        r is Ok <==> declared(Z3Type::BV(32), names@) is Ok,
        r is Ok ==> r->Ok_0@ == declared(Z3Type::BV(32), names@)->Ok_0,
        r is Err ==> r->Err_0 == declared(Z3Type::BV(32), names@)->Err_0,
{
    declare_variables(Z3Type::BV(32), names)
}

/// Asserts `e` over 32-bit vectors.
pub fn z3_constraint_u32(e: &Expr) -> (r: Result<Command, Z3Error>)
    ensures
        r is Ok <==> compiled(Z3Type::BV(32), *e) is Ok,
        r is Ok ==> r->Ok_0 == Command::Assert(compiled(Z3Type::BV(32), *e)->Ok_0),
        r is Err ==> r->Err_0 == compiled(Z3Type::BV(32), *e)->Err_0,
{
    constraint(Z3Type::BV(32), e)
}

/// Opens a session and declares `names` as 64-bit vectors.
pub fn z3_init_u64(names: &Vec<String>) -> (r: Result<Vec<Command>, Z3Error>)
    ensures
        r is Ok <==> declared(Z3Type::BV(64), names@) is Ok,
        r is Ok ==> r->Ok_0@ == seq![Command::NewSession] + declared(Z3Type::BV(64), names@)->Ok_0,
        r is Err ==> r->Err_0 == declared(Z3Type::BV(64), names@)->Err_0,
{
    init(Z3Type::BV(64), names)
}

/// Declares `names` as 64-bit vectors.
pub fn z3_var_u64(names: &Vec<String>) -> (r: Result<Vec<Command>, Z3Error>)
    ensures
        r is Ok <==> declared(Z3Type::BV(64), names@) is Ok,
        r is Ok ==> r->Ok_0@ == declared(Z3Type::BV(64), names@)->Ok_0,
        r is Err ==> r->Err_0 == declared(Z3Type::BV(64), names@)->Err_0,
{
    declare_variables(Z3Type::BV(64), names)
}

/// Asserts `e` over 64-bit vectors.
pub fn z3_constraint_u64(e: &Expr) -> (r: Result<Command, Z3Error>)
    ensures
        r is Ok <==> compiled(Z3Type::BV(64), *e) is Ok,
        r is Ok ==> r->Ok_0 == Command::Assert(compiled(Z3Type::BV(64), *e)->Ok_0),
        r is Err ==> r->Err_0 == compiled(Z3Type::BV(64), *e)->Err_0,
{
    constraint(Z3Type::BV(64), e)
}

} // verus!
