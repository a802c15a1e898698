use vstd::prelude::*;
use crate::blocking::{blocking, disallow, holds, lemma_blocking_excludes_exactly};
use crate::domain::Z3Type;
use crate::error::Z3Error;
use crate::formula::Formula;
use crate::session::copy_names;
use crate::variables::{has_duplicate, unique_names};

verus! {

/// What the solver answered to a satisfiability check.
#[derive(Clone, Copy, Debug, PartialEq, Eq, Structural)]
pub enum SatResult {
    Sat,
    Unsat,
    Unknown,
}

/// Where an enumeration stands.
#[derive(Clone, Copy, Debug, PartialEq, Eq, Structural)]
pub enum Phase {
    /// Variables declared, nothing solved yet.
    Ready,
    /// The last check was satisfiable; its model is awaited.
    AwaitingModel,
    /// The blocking clause of the last model has been handed out.
    Blocked,
    /// No further solutions exist.
    Exhausted,
    /// The solver could not decide; enumeration stops without a verdict.
    Inconclusive,
    /// A model could not be used; enumeration stops.
    Failed,
}

/// What the session driver must do next.
#[derive(Clone, Copy, Debug, PartialEq, Eq, Structural)]
pub enum Action {
    /// Run a satisfiability check and report it with `on_check`.
    Check,
    /// Evaluate every declared variable in the model, in declaration order,
    /// and report the values with `on_model`.
    GetModel,
    /// Enumeration is over.
    Stop,
}

/// The action that belongs to each phase.
pub open spec fn action_of(p: Phase) -> Action {
    match p {
        Phase::Ready | Phase::Blocked => Action::Check,
        Phase::AwaitingModel => Action::GetModel,
        _ => Action::Stop,
    }
}

/// The phase after a check.
pub open spec fn phase_after_check(r: SatResult) -> Phase {
    match r {
        SatResult::Sat => Phase::AwaitingModel,
        SatResult::Unsat => Phase::Exhausted,
        SatResult::Unknown => Phase::Inconclusive,
    }
}

/// The model gives each of the `n` declared variables a value, and each
/// value fits the domain's native scalar type.
pub open spec fn decodes(d: Z3Type, n: nat, values: Seq<Option<i128>>) -> bool {
    &&& values.len() == n
    &&& forall|i: int| 0 <= i < values.len() ==> (#[trigger] values[i] is Some && d.fits(values[i]->Some_0 as int))
}

/// The values of a model that decodes.
pub open spec fn decoded(values: Seq<Option<i128>>) -> Seq<i128> {
    values.map_values(|o: Option<i128>| o->Some_0)
}

/// All-solutions enumeration over a solver session: solve, read the model,
/// block it, solve again. The session itself is driven by the caller, who
/// performs each `next_action` and reports its outcome.
#[derive(Debug)]
pub struct Enumerator {
    domain: Z3Type,
    variables: Vec<String>,
    solutions: Vec<Vec<i128>>,
    phase: Phase,
}

impl Enumerator {
    pub closed spec fn domain(&self) -> Z3Type {
        self.domain
    }

    pub closed spec fn variables(&self) -> Seq<String> {
        self.variables@
    }

    /// The solutions yielded so far, in order. Each has had its blocking
    /// clause handed out, so this also counts the asserted blocking clauses.
    pub closed spec fn solutions(&self) -> Seq<Seq<i128>> {
        self.solutions@.map_values(|s: Vec<i128>| s@)
    }

    pub closed spec fn phase(&self) -> Phase {
        self.phase
    }

    /// The enumeration invariant: a usable domain, a non-empty list of
    /// distinct names, and pairwise different solutions of the right
    /// length whose values fit the domain.
    pub closed spec fn wf(&self) -> bool {
        &&& self.domain.wf()
        &&& self.variables@.len() > 0
        &&& unique_names(self.variables@)
        &&& forall|i: int| 0 <= i < self.solutions@.len() ==> {
            &&& (#[trigger] self.solutions@[i])@.len() == self.variables@.len()
            &&& forall|k: int| 0 <= k < self.solutions@[i]@.len() ==> self.domain.fits(
                #[trigger] self.solutions@[i]@[k] as int,
            )
        }
        &&& forall|i: int, j: int|
            0 <= i < j < self.solutions@.len() ==> self.solutions@[i]@ != self.solutions@[j]@
    }

    /// Starts an enumeration of the assignments to `variables` under `d`.
    pub fn new(d: Z3Type, variables: Vec<String>) -> (r: Result<Enumerator, Z3Error>)
        ensures
            !d.wf() ==> r == Err::<Enumerator, Z3Error>(Z3Error::UnsupportedWidth),
            d.wf() && variables@.len() == 0 ==> r == Err::<Enumerator, Z3Error>(
                Z3Error::EmptyVariableSet,
            ),
            d.wf() && variables@.len() > 0 && !unique_names(variables@) ==> r == Err::<
                Enumerator,
                Z3Error,
            >(Z3Error::DuplicateVariable),
            d.wf() && variables@.len() > 0 && unique_names(variables@) ==> {
                &&& r is Ok
                &&& r->Ok_0.wf()
                &&& r->Ok_0.domain() == d
                &&& r->Ok_0.variables() == variables@
                &&& r->Ok_0.solutions().len() == 0
                &&& r->Ok_0.phase() == Phase::Ready
            },
    {
        if let Err(x) = d.validate() {
            return Err(x);
        }
        if variables.len() == 0 {
            return Err(Z3Error::EmptyVariableSet);
        }
        if has_duplicate(&variables) {
            return Err(Z3Error::DuplicateVariable);
        }
        let e = Enumerator { domain: d, variables, solutions: Vec::new(), phase: Phase::Ready };
        assert(e.solutions() =~= Seq::<Seq<i128>>::empty());
        Ok(e)
    }

    pub fn next_action(&self) -> (r: Action)
        ensures
            r == action_of(self.phase()),
    {
        match self.phase {
            Phase::Ready | Phase::Blocked => Action::Check,
            Phase::AwaitingModel => Action::GetModel,
            _ => Action::Stop,
        }
    }

    /// Where the enumeration stands.
    pub fn current_phase(&self) -> (r: Phase)
        ensures
            r == self.phase(),
    {
        self.phase
    }

    /// Number of blocking clauses handed out so far.
    pub fn blocking_count(&self) -> (r: usize)
        ensures
            r == self.solutions().len(),
    {
        self.solutions.len()
    }

    /// The declared variables, in declaration order.
    pub fn variable_names(&self) -> (r: Vec<String>)
        ensures
            r@ == self.variables(),
    {
        copy_names(&self.variables)
    }

    /// Records the outcome of a satisfiability check.
    pub fn on_check(&mut self, r: SatResult)
        requires
            old(self).wf(),
            action_of(old(self).phase()) == Action::Check,
        ensures
            final(self).wf(),
            final(self).domain() == old(self).domain(),
            final(self).variables() == old(self).variables(),
            final(self).solutions() == old(self).solutions(),
            final(self).phase() == phase_after_check(r),
    {
        self.phase = match r {
            SatResult::Sat => Phase::AwaitingModel,
            SatResult::Unsat => Phase::Exhausted,
            SatResult::Unknown => Phase::Inconclusive,
        };
    }

    /// Records the model's value of each declared variable, in declaration
    /// order (`None` where the model has none). On success returns the solution and the blocking
    /// clause that the caller must assert before the next check.
    pub fn on_model(&mut self, values: &Vec<Option<i128>>) -> (r: Result<
        (Vec<i128>, Formula),
        Z3Error,
    >)
        requires
            old(self).wf(),
            old(self).phase() == Phase::AwaitingModel,
        ensures
            final(self).wf(),
            final(self).domain() == old(self).domain(),
            final(self).variables() == old(self).variables(),
            !decodes(old(self).domain(), old(self).variables().len(), values@) ==> {
                &&& r == Err::<(Vec<i128>, Formula), Z3Error>(Z3Error::ModelExtractionFailed)
                &&& final(self).solutions() == old(self).solutions()
                &&& final(self).phase() == Phase::Failed
            },
            decodes(old(self).domain(), old(self).variables().len(), values@)
                && old(self).solutions().contains(decoded(values@)) ==> {
                &&& r == Err::<(Vec<i128>, Formula), Z3Error>(Z3Error::RepeatedSolution)
                &&& final(self).solutions() == old(self).solutions()
                &&& final(self).phase() == Phase::Failed
            },
            decodes(old(self).domain(), old(self).variables().len(), values@)
                && !old(self).solutions().contains(decoded(values@)) ==> {
                &&& r is Ok
                &&& r->Ok_0.0@ == decoded(values@)
                &&& r->Ok_0.1 == blocking(
                    old(self).domain(),
                    old(self).variables(),
                    decoded(values@),
                )
                &&& final(self).solutions() == old(self).solutions().push(decoded(values@))
                &&& final(self).solutions().len() == old(self).solutions().len() + 1
                &&& final(self).phase() == Phase::Blocked
            },
    {
        let ghost vals = decoded(values@);
        if values.len() != self.variables.len() {
            self.phase = Phase::Failed;
            return Err(Z3Error::ModelExtractionFailed);
        }
        let mut tuple: Vec<i128> = Vec::new();
        let mut i: usize = 0;
        while i < values.len()
            invariant
                self.wf(),
                self.domain == old(self).domain,
                self.variables@ == old(self).variables@,
                self.solutions@ == old(self).solutions@,
                values@.len() == self.variables@.len(),
                i <= values@.len(),
                tuple@ == vals.subrange(0, i as int),
                vals == decoded(values@),
                forall|k: int| 0 <= k < i ==> (#[trigger] values@[k] is Some && self.domain.fits(
                    values@[k]->Some_0 as int,
                )),
            decreases values.len() - i,
        {
            match values[i] {
                Some(v) => {
                    if !self.domain.value_fits(v) {
                        self.phase = Phase::Failed;
                        return Err(Z3Error::ModelExtractionFailed);
                    }
                    tuple.push(v);
                },
                None => {
                    self.phase = Phase::Failed;
                    return Err(Z3Error::ModelExtractionFailed);
                },
            }
            i += 1;
            assert(tuple@ =~= vals.subrange(0, i as int));
        }
        assert(tuple@ =~= vals);
        assert(decodes(self.domain, self.variables@.len(), values@));
        let mut j: usize = 0;
        while j < self.solutions.len()
            invariant
                self.wf(),
                self.domain == old(self).domain,
                self.variables@ == old(self).variables@,
                self.solutions@ == old(self).solutions@,
                values@.len() == self.variables@.len(),
                j <= self.solutions@.len(),
                tuple@ == vals,
                vals == decoded(values@),
                decodes(self.domain, self.variables@.len(), values@),
                forall|k: int| 0 <= k < j ==> (#[trigger] self.solutions@[k])@ != vals,
            decreases self.solutions.len() - j,
        {
            if same_values(&self.solutions[j], &tuple) {
                assert(old(self).solutions()[j as int] == vals);
                assert(old(self).solutions().contains(vals));
                self.phase = Phase::Failed;
                return Err(Z3Error::RepeatedSolution);
            }
            j += 1;
        }
        let clause = match disallow(self.domain, &self.variables, &tuple) {
            Ok(f) => f,
            Err(x) => {
                self.phase = Phase::Failed;
                return Err(x);
            },
        };
        let out = copy_values(&tuple);
        let ghost before = self.solutions();
        self.solutions.push(tuple);
        assert(self.solutions() =~= before.push(vals));
        assert(forall|k: int| 0 <= k < vals.len() ==> self.domain.fits(#[trigger] vals[k] as int))
            by {
            assert(forall|k: int|
                0 <= k < vals.len() ==> vals[k] == (#[trigger] values@[k])->Some_0);
        }
        self.phase = Phase::Blocked;
        Ok((out, clause))
    }
}

impl Enumerator {
    /// The enumeration invariant keeps every solution yielded so far of the
    /// declared length, within the domain, and different from every other:
    /// no solution is yielded twice in one enumeration.
    pub proof fn lemma_solutions_distinct(&self)
        requires
            self.wf(),
        ensures
            forall|i: int, j: int|
                0 <= i < j < self.solutions().len() ==> self.solutions()[i] != self.solutions()[j],
            forall|i: int|
                0 <= i < self.solutions().len() ==> (#[trigger] self.solutions()[i]).len()
                    == self.variables().len(),
            forall|i: int, k: int|
                0 <= i < self.solutions().len() && 0 <= k < self.solutions()[i].len()
                    ==> self.domain().fits(#[trigger] self.solutions()[i][k] as int),
    {
    }

    /// Enumeration cannot outrun a finite solution space: when every
    /// solution yielded so far lies in the finite set `space`, at most
    /// `space.len()` have been yielded. Each yielded solution adds one
    /// blocking clause, so after that many the solver can only answer
    /// unsatisfiable, or hand back a forbidden model, which is refused.
    pub proof fn lemma_bounded_by_space(&self, space: Set<Seq<i128>>)
        requires
            self.wf(),
            space.finite(),
            forall|i: int| 0 <= i < self.solutions().len() ==> space.contains(
                #[trigger] self.solutions()[i],
            ),
        ensures
            self.solutions().len() <= space.len(),
    {
        self.lemma_solutions_distinct();
        let sols = self.solutions();
        assert(sols.no_duplicates());
        sols.unique_seq_to_set();
        assert(sols.to_set().subset_of(space));
        vstd::set_lib::lemma_len_subset(sols.to_set(), space);
    }

    /// Every solution yielded so far satisfies the blocking clause of every
    /// other one and violates only its own: the blocking clauses handed out
    /// forbid exactly the solutions already yielded.
    pub proof fn lemma_blocking_history(&self, i: int, j: int)
        requires
            self.wf(),
            0 <= i < self.solutions().len(),
            0 <= j < self.solutions().len(),
        ensures
            holds(
                blocking(self.domain(), self.variables(), self.solutions()[i]),
                self.variables(),
                self.solutions()[j],
            ) <==> i != j,
    {
        self.lemma_solutions_distinct();
        lemma_blocking_excludes_exactly(
            self.domain(),
            self.variables(),
            self.solutions()[i],
            self.solutions()[j],
        );
        if i != j {
            if i < j {
                assert(self.solutions()[i] != self.solutions()[j]);
            } else {
                assert(self.solutions()[j] != self.solutions()[i]);
            }
        }
    }
}

/// Starts enumerating the assignments to `names` as unbounded integers.
pub fn z3_solve(names: Vec<String>) -> (r: Result<Enumerator, Z3Error>)
    ensures
        r is Ok <==> names@.len() > 0 && unique_names(names@),
        r is Ok ==> {
            &&& r->Ok_0.wf()
            &&& r->Ok_0.domain() == Z3Type::Int
            &&& r->Ok_0.variables() == names@
            &&& r->Ok_0.solutions().len() == 0
            &&& r->Ok_0.phase() == Phase::Ready
        },
        names@.len() == 0 ==> r == Err::<Enumerator, Z3Error>(Z3Error::EmptyVariableSet),
        names@.len() > 0 && !unique_names(names@) ==> r == Err::<Enumerator, Z3Error>(
            Z3Error::DuplicateVariable,
        ),
{
    Enumerator::new(Z3Type::Int, names)
}

/// Starts enumerating the assignments to `names` as 8-bit vectors.
pub fn z3_solve_u8(names: Vec<String>) -> (r: Result<Enumerator, Z3Error>)
    ensures
        r is Ok <==> names@.len() > 0 && unique_names(names@),
        r is Ok ==> {
            &&& r->Ok_0.wf()
            &&& r->Ok_0.domain() == Z3Type::BV(8)
            &&& r->Ok_0.variables() == names@
            &&& r->Ok_0.solutions().len() == 0
            &&& r->Ok_0.phase() == Phase::Ready
        },
        names@.len() == 0 ==> r == Err::<Enumerator, Z3Error>(Z3Error::EmptyVariableSet),
        names@.len() > 0 && !unique_names(names@) ==> r == Err::<Enumerator, Z3Error>(
            Z3Error::DuplicateVariable,
        ),
{
    Enumerator::new(Z3Type::BV(8), names)
}

/// Starts enumerating the assignments to `names` as 16-bit vectors.
pub fn z3_solve_u16(names: Vec<String>) -> (r: Result<Enumerator, Z3Error>)
    ensures
        r is Ok <==> names@.len() > 0 && unique_names(names@),
        r is Ok ==> {
            &&& r->Ok_0.wf()
            &&& r->Ok_0.domain() == Z3Type::BV(16)
            &&& r->Ok_0.variables() == names@
            &&& r->Ok_0.solutions().len() == 0
            &&& r->Ok_0.phase() == Phase::Ready
        },
        names@.len() == 0 ==> r == Err::<Enumerator, Z3Error>(Z3Error::EmptyVariableSet),
        names@.len() > 0 && !unique_names(names@) ==> r == Err::<Enumerator, Z3Error>(
            Z3Error::DuplicateVariable,
        ),
{
    Enumerator::new(Z3Type::BV(16), names)
}

/// Starts enumerating the assignments to `names` as 32-bit vectors.
pub fn z3_solve_u32(names: Vec<String>) -> (r: Result<Enumerator, Z3Error>)
    ensures
        r is Ok <==> names@.len() > 0 && unique_names(names@),
        r is Ok ==> {
            &&& r->Ok_0.wf()
            &&& r->Ok_0.domain() == Z3Type::BV(32)
            &&& r->Ok_0.variables() == names@
            &&& r->Ok_0.solutions().len() == 0
            &&& r->Ok_0.phase() == Phase::Ready
        },
        names@.len() == 0 ==> r == Err::<Enumerator, Z3Error>(Z3Error::EmptyVariableSet),
        names@.len() > 0 && !unique_names(names@) ==> r == Err::<Enumerator, Z3Error>(
            Z3Error::DuplicateVariable,
        ),
{
    Enumerator::new(Z3Type::BV(32), names)
}

/// Starts enumerating the assignments to `names` as 64-bit vectors.
pub fn z3_solve_u64(names: Vec<String>) -> (r: Result<Enumerator, Z3Error>)
    ensures
        r is Ok <==> names@.len() > 0 && unique_names(names@),
        r is Ok ==> {
            &&& r->Ok_0.wf()
            &&& r->Ok_0.domain() == Z3Type::BV(64)
            &&& r->Ok_0.variables() == names@
            &&& r->Ok_0.solutions().len() == 0
            &&& r->Ok_0.phase() == Phase::Ready
        },
        names@.len() == 0 ==> r == Err::<Enumerator, Z3Error>(Z3Error::EmptyVariableSet),
        names@.len() > 0 && !unique_names(names@) ==> r == Err::<Enumerator, Z3Error>(
            Z3Error::DuplicateVariable,
        ),
{
    Enumerator::new(Z3Type::BV(64), names)
}

fn same_values(a: &Vec<i128>, b: &Vec<i128>) -> (r: bool)
    ensures
        r == (a@ == b@),
{
    if a.len() != b.len() {
        return false;
    }
    let mut i: usize = 0;
    while i < a.len()
        invariant
            a@.len() == b@.len(),
            i <= a@.len(),
            forall|k: int| 0 <= k < i ==> a@[k] == b@[k],
        decreases a.len() - i,
    {
        if a[i] != b[i] {
            return false;
        }
        i += 1;
    }
    assert(a@ =~= b@);
    true
}

fn copy_values(a: &Vec<i128>) -> (r: Vec<i128>)
    ensures
        r@ == a@,
{
    let mut out: Vec<i128> = Vec::new();
    let mut i: usize = 0;
    while i < a.len()
        invariant
            i <= a@.len(),
            out@ == a@.subrange(0, i as int),
        decreases a.len() - i,
    {
        out.push(a[i]);
        i += 1;
        assert(out@ =~= a@.subrange(0, i as int));
    }
    assert(out@ =~= a@);
    out
}

} // verus!
