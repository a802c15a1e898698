use vstd::prelude::*;
use crate::error::Z3Error;

verus! {

/// One token of a comma-separated variable list.
#[derive(Debug)]
pub enum Token {
    Ident(String),
    Punct(char),
    /// Any other token: a literal or a bracketed group.
    Other,
}

/// A variable list may hold names and commas only.
pub open spec fn token_ok(t: Token) -> bool {
    t is Ident || t == Token::Punct(',')
}

/// The names among `ts`, in order.
pub open spec fn idents(ts: Seq<Token>) -> Seq<String>
    decreases ts.len(),
{
    if ts.len() == 0 {
        seq![]
    } else {
        let rest = idents(ts.drop_last());
        match ts.last() {
            Token::Ident(s) => rest.push(s),
            _ => rest,
        }
    }
}

/// No name occurs twice.
pub open spec fn unique_names(names: Seq<String>) -> bool {
    forall|i: int, j: int| 0 <= i < j < names.len() ==> names[i]@ != names[j]@
}

/// Reads the names of a comma-separated variable list such as `a, b, c`.
pub fn extract_variables(tokens: &Vec<Token>) -> (r: Result<Vec<String>, Z3Error>)
    ensures
        r is Ok <==> (forall|i: int| 0 <= i < tokens@.len() ==> token_ok(#[trigger] tokens@[i])),
        r is Ok ==> r->Ok_0@ == idents(tokens@),
        r is Err ==> r->Err_0 == Z3Error::MalformedExpression,
{
    let mut v: Vec<String> = Vec::new();
    let mut i: usize = 0;
    while i < tokens.len()
        invariant
            i <= tokens.len(),
            v@ == idents(tokens@.subrange(0, i as int)),
            forall|k: int| 0 <= k < i ==> token_ok(#[trigger] tokens@[k]),
        decreases tokens.len() - i,
    {
        assert(tokens@.subrange(0, i + 1).drop_last() =~= tokens@.subrange(0, i as int));
        match &tokens[i] {
            Token::Ident(s) => {
                v.push(s.clone());
            },
            Token::Punct(c) => {
                if *c != ',' {
                    return Err(Z3Error::MalformedExpression);
                }
            },
            Token::Other => {
                return Err(Z3Error::MalformedExpression);
            },
        }
        i += 1;
    }
    assert(tokens@.subrange(0, tokens@.len() as int) =~= tokens@);
    Ok(v)
}

/// Whether some name occurs twice in `names`.
pub fn has_duplicate(names: &Vec<String>) -> (r: bool)
    ensures
        r == !unique_names(names@),
{
    let mut i: usize = 0;
    while i < names.len()
        invariant
            i <= names.len(),
            forall|a: int, b: int| 0 <= a < b < names@.len() && a < i ==> names@[a]@ != names@[b]@,
        decreases names.len() - i,
    {
        let mut j: usize = i + 1;
        while j < names.len()
            invariant
                i < names.len(),
                i + 1 <= j <= names.len(),
                forall|a: int, b: int|
                    0 <= a < b < names@.len() && a < i ==> names@[a]@ != names@[b]@,
                forall|b: int| i < b < j ==> names@[i as int]@ != names@[b]@,
            decreases names.len() - j,
        {
            if names[i] == names[j] {
                assert(!unique_names(names@));
                return true;
            }
            j += 1;
        }
        i += 1;
    }
    false
}

} // verus!
