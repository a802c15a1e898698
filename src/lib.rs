//! A small compiler from arithmetic / boolean expressions over named
//! variables into the constraint language of an SMT solver, with an
//! all-solutions enumeration protocol built on blocking clauses.
use vstd::prelude::*;

pub mod blocking;
pub mod domain;
pub mod enumerate;
pub mod error;
pub mod expr;
pub mod formula;
pub mod session;
pub mod variables;

verus! {

} // verus!
