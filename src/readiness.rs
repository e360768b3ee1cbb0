//! The three readiness states of an accumulator and their saturating transition.
use vstd::prelude::*;

verus! {

/// How many observations an accumulator has seen, capped at "two or more".
#[derive(Clone, Copy, Debug, PartialEq, Eq, Structural)]
pub enum Readiness {
    /// No observation yet: neither mean nor variance is defined.
    Empty,
    /// Exactly one observation: the mean is defined, the variance is not.
    SingleObservation,
    /// Two or more observations: mean and variance are both defined.
    Ready,
}

impl Readiness {
    /// Position of the state along `Empty -> SingleObservation -> Ready`.
    pub open spec fn rank(self) -> nat {
        match self {
            Readiness::Empty => 0,
            Readiness::SingleObservation => 1,
            Readiness::Ready => 2,
        }
    }

    /// The state after one more observation; `Ready` is terminal.
    pub open spec fn advanced(self) -> Readiness {
        match self {
            Readiness::Empty => Readiness::SingleObservation,
            _ => Readiness::Ready,
        }
    }

    /// The state reached after exactly `n` observations.
    pub open spec fn after(n: nat) -> Readiness {
        if n == 0 {
            Readiness::Empty
        } else if n == 1 {
            Readiness::SingleObservation
        } else {
            Readiness::Ready
        }
    }

    /// Advances the state by one observation.
    pub fn advance(self) -> (r: Readiness)
        ensures
            r == self.advanced(),
    {
        match self {
            Readiness::Empty => Readiness::SingleObservation,
            _ => Readiness::Ready,
        }
    }

    /// Whether the variance may be reported in this state.
    pub fn has_variance(self) -> (r: bool)
        ensures
            r == (self == Readiness::Ready),
    {
        match self {
            Readiness::Ready => true,
            _ => false,
        }
    }
}

/// Advancing never moves backward, moves forward by at most one step, and stays at `Ready`.
pub proof fn lemma_advance_forward(r: Readiness)
    ensures
        r.rank() <= r.advanced().rank() <= r.rank() + 1,
        r.advanced().rank() == r.rank() + 1 || r == Readiness::Ready,
        r == Readiness::Ready ==> r.advanced() == Readiness::Ready,
{
}

/// The state after `n + 1` observations is the state after `n`, advanced once.
pub proof fn lemma_after_step(n: nat)
    ensures
        Readiness::after(n + 1) == Readiness::after(n).advanced(),
{
}

/// Readiness never regresses: more observations never give a lower state.
pub proof fn lemma_after_monotone(m: nat, n: nat)
    requires
        m <= n,
    ensures
        Readiness::after(m).rank() <= Readiness::after(n).rank(),
{
}

} // verus!
