//! The decisions of the bisection method, apart from its arithmetic.
//!
//! A driver holds the bracketing interval `[a, b]` and the current estimate,
//! which starts at `a`. Before each step it tells the solver whether the
//! half-width `(b - a) / 2` still exceeds the tolerance; the solver answers
//! whether to go on, which it does only while its iteration budget lasts.
//! When it goes on, the driver takes the midpoint `(a + b) / 2` as the new
//! estimate, tells the solver whether the target function has the same strict
//! sign at the midpoint as at `a` (their product is positive), and moves the
//! bound that the solver names onto the midpoint. The estimate at the end is
//! the result.
use vstd::prelude::*;

verus! {

/// The bound of the bracketing interval that a step moves onto the midpoint.
#[derive(Clone, Copy, Debug, PartialEq, Eq, Structural)]
pub enum Bound {
    /// The lower bound `a`: the sign change lies in the upper half.
    Lower,
    /// The upper bound `b`: the sign change lies in the lower half, or the
    /// midpoint is itself a root.
    Upper,
}

/// Whether a solver that has made `iterations` of its `max_iterations` steps
/// makes another, given whether the half-width exceeds the tolerance.
pub open spec fn continues(iterations: nat, max_iterations: nat, wider_than_tolerance: bool) -> bool {
    wider_than_tolerance && iterations < max_iterations
}

/// The bound that a step moves, given whether the target function has the
/// same strict sign at the midpoint as at the lower bound.
pub open spec fn bound_to_move(same_sign: bool) -> Bound {
    if same_sign {
        Bound::Lower
    } else {
        Bound::Upper
    }
}

/// The bounds moved, in order, by a solver that has made `iterations` of its
/// `max_iterations` steps, when a driver reports the observations `obs` one
/// step after another. Each observation is the pair (the half-width exceeds
/// the tolerance, the target function keeps its sign at the midpoint). The
/// run ends at the first observation on which the solver stops, or when the
/// observations run out.
pub open spec fn run(iterations: nat, max_iterations: nat, obs: Seq<(bool, bool)>) -> Seq<Bound>
    decreases obs.len(),
{
    if obs.len() == 0 || !continues(iterations, max_iterations, obs[0].0) {
        seq![]
    } else {
        seq![bound_to_move(obs[0].1)] + run(iterations + 1, max_iterations, obs.drop_first())
    }
}

/// A run never makes more steps than the budget has left: from a solver that
/// has made `iterations` of its `max_iterations` steps, at most
/// `max_iterations - iterations` bounds move, whatever the observations.
pub proof fn lemma_run_within_budget(iterations: nat, max_iterations: nat, obs: Seq<(bool, bool)>)
    requires
        iterations <= max_iterations,
    ensures
        run(iterations, max_iterations, obs).len() <= max_iterations - iterations,
    decreases obs.len(),
{
    if obs.len() > 0 && continues(iterations, max_iterations, obs[0].0) {
        lemma_run_within_budget(iterations + 1, max_iterations, obs.drop_first());
    }
}

/// With no budget the solver makes no step, whatever the tolerance and the
/// observations, so the estimate stays at the lower bound it started from.
pub proof fn lemma_no_budget_no_step(obs: Seq<(bool, bool)>)
    ensures
        run(0, 0, obs) == Seq::<Bound>::empty(),
{
}

/// An interval whose half-width does not exceed the tolerance at the start
/// (a degenerate interval, an inverted one, or one narrower than the
/// tolerance) is never narrowed: the estimate stays at the lower bound.
pub proof fn lemma_narrow_start_no_step(max_iterations: nat, obs: Seq<(bool, bool)>)
    requires
        obs.len() > 0,
        !obs[0].0,
    ensures
        run(0, max_iterations, obs) == Seq::<Bound>::empty(),
{
}

/// The state of one bisection: how many steps it has made, out of how many
/// it may make.
pub struct Bisection {
    iterations: usize,
    max_iterations: usize,
}

impl Bisection {
    /// The number of steps made so far.
    pub closed spec fn spec_iterations(&self) -> nat {
        self.iterations as nat
    }

    /// The number of steps the solver may make in all.
    pub closed spec fn spec_max_iterations(&self) -> nat {
        self.max_iterations as nat
    }

    /// The solver never makes more steps than its budget allows.
    pub open spec fn wf(&self) -> bool {
        self.spec_iterations() <= self.spec_max_iterations()
    }

    /// A solver that has made no step and may make `max_iterations`.
    pub fn new(max_iterations: usize) -> (r: Bisection)
        ensures
            r.wf(),
            r.spec_iterations() == 0,
            r.spec_max_iterations() == max_iterations,
    {
        Bisection { iterations: 0, max_iterations }
    }

    /// The number of steps made so far.
    pub fn iterations(&self) -> (r: usize)
        ensures
            r == self.spec_iterations(),
    {
        self.iterations
    }

    /// The number of steps the solver may make in all.
    pub fn max_iterations(&self) -> (r: usize)
        ensures
            r == self.spec_max_iterations(),
    {
        self.max_iterations
    }

    /// Whether to make another step: only while the half-width of the
    /// interval exceeds the tolerance and the budget is not spent.
    pub fn should_continue(&self, wider_than_tolerance: bool) -> (r: bool)
        requires
            self.wf(),
        ensures
            r == continues(self.spec_iterations(), self.spec_max_iterations(), wider_than_tolerance),
            r ==> self.spec_iterations() < self.spec_max_iterations(),
    {
        wider_than_tolerance && self.iterations < self.max_iterations
    }

    /// Makes one step: counts it and names the bound to move onto the
    /// midpoint, given whether the target function has the same strict sign
    /// at the midpoint as at the lower bound. A zero at the midpoint is no
    /// strict sign, so the upper bound moves onto it.
    pub fn narrow(&mut self, same_sign: bool) -> (r: Bound)
        requires
            old(self).spec_iterations() < old(self).spec_max_iterations(),
        ensures
            r == bound_to_move(same_sign),
            final(self).wf(),
            final(self).spec_iterations() == old(self).spec_iterations() + 1,
            final(self).spec_max_iterations() == old(self).spec_max_iterations(),
    {
        self.iterations = self.iterations + 1;
        if same_sign {
            Bound::Lower
        } else {
            Bound::Upper
        }
    }
}

} // verus!
