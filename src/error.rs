use vstd::prelude::*;

verus! {

/// Everything that can go wrong while compiling, declaring or enumerating.
#[derive(Clone, Copy, Debug, PartialEq, Eq, Structural)]
pub enum Z3Error {
    /// A bit-vector width other than 8, 16, 32 or 64.
    UnsupportedWidth,
    /// A bitwise or shift operator under the integer domain.
    UnsupportedOperation,
    /// Input outside the supported grammar.
    MalformedExpression,
    /// An operation that needs at least one variable got none.
    EmptyVariableSet,
    /// A variable name occurs more than once.
    DuplicateVariable,
    /// A satisfiable model lacks a value for a declared variable, or holds
    /// one that does not fit the domain's native scalar type.
    ModelExtractionFailed,
    /// The solver returned a model that an asserted blocking clause forbids.
    RepeatedSolution,
}

} // verus!
