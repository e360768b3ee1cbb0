//! The state of an accumulator that decides what it may report: its fixed width
//! and how many observations it has observed.
use vstd::prelude::*;

use crate::readiness::Readiness;

verus! {

/// An observation whose length differs from the accumulator's width.
#[derive(Clone, Copy, Debug, PartialEq, Eq, Structural)]
pub struct DimensionMismatch {
    /// The accumulator's width.
    pub expected: usize,
    /// The length of the observation that was offered.
    pub found: usize,
}

/// Which statistics a query reports; the rest come back as not-a-number vectors.
#[derive(Clone, Copy, Debug, PartialEq, Eq, Structural)]
pub enum Report {
    /// Neither mean nor variance: both are all not-a-number.
    Undefined,
    /// The stored mean; the variance is all not-a-number.
    MeanOnly,
    /// The stored mean, and the variance `m2 / sum_of_weights` element-wise.
    MeanAndVariance,
}

/// The reporting policy: what a query may report in each readiness state.
pub open spec fn report_of(r: Readiness) -> Report {
    match r {
        Readiness::Empty => Report::Undefined,
        Readiness::SingleObservation => Report::MeanOnly,
        Readiness::Ready => Report::MeanAndVariance,
    }
}

/// Applies the reporting policy to a readiness state.
pub fn report_for(r: Readiness) -> (p: Report)
    ensures
        p == report_of(r),
{
    match r {
        Readiness::Empty => Report::Undefined,
        Readiness::SingleObservation => Report::MeanOnly,
        Readiness::Ready => Report::MeanAndVariance,
    }
}

/// The abstract state of a ledger: its width and the number of observations observed.
pub struct LedgerView {
    pub width: nat,
    pub observed: nat,
}

impl LedgerView {
    /// A ledger of the given width that has observed nothing.
    pub open spec fn fresh(width: nat) -> LedgerView {
        LedgerView { width, observed: 0 }
    }

    pub open spec fn readiness(self) -> Readiness {
        Readiness::after(self.observed)
    }

    pub open spec fn report(self) -> Report {
        report_of(self.readiness())
    }

    /// Whether an observation of length `len` fits this ledger.
    pub open spec fn accepts(self, len: nat) -> bool {
        len == self.width
    }

    /// The state after an observation of length `len` is offered: observed when
    /// its length is the width, refused (and nothing changes) otherwise.
    pub open spec fn offered(self, len: nat) -> LedgerView {
        if self.accepts(len) {
            LedgerView { width: self.width, observed: self.observed + 1 }
        } else {
            self
        }
    }

    /// The state after offering observations of the given lengths, in order.
    pub open spec fn offered_all(self, lens: Seq<nat>) -> LedgerView
        decreases lens.len(),
    {
        if lens.len() == 0 {
            self
        } else {
            self.offered_all(lens.drop_last()).offered(lens.last())
        }
    }
}

/// The width and readiness of one accumulator.
pub struct Ledger {
    width: usize,
    readiness: Readiness,
    observed: Ghost<nat>,
}

impl View for Ledger {
    type V = LedgerView;

    closed spec fn view(&self) -> LedgerView {
        LedgerView { width: self.width as nat, observed: self.observed@ }
    }
}

impl Ledger {
    #[verifier::type_invariant]
    spec fn readiness_counts(self) -> bool {
        self.readiness == Readiness::after(self.observed@)
    }

    /// A ledger for observations of `width` elements, with nothing observed.
    pub fn new(width: usize) -> (l: Ledger)
        ensures
            l@ == LedgerView::fresh(width as nat),
    {
        Ledger { width, readiness: Readiness::Empty, observed: Ghost(0) }
    }

    /// The number of elements of every observation.
    pub fn width(&self) -> (w: usize)
        ensures
            w as nat == self@.width,
    {
        self.width
    }

    /// The current readiness state.
    pub fn readiness(&self) -> (r: Readiness)
        ensures
            r == self@.readiness(),
    {
        proof {
            use_type_invariant(self);
        }
        self.readiness
    }

    /// Checks that an observation of length `len` fits, without admitting it.
    pub fn check_width(&self, len: usize) -> (res: Result<(), DimensionMismatch>)
        ensures
            res is Ok <==> self@.accepts(len as nat),
            res matches Err(e) ==> e.expected as nat == self@.width && e.found == len,
    {
        if len == self.width {
            Ok(())
        } else {
            Err(DimensionMismatch { expected: self.width, found: len })
        }
    }

    /// Records one observation of length `len`: the readiness advances by one step
    /// when its length is the width; otherwise the ledger is unchanged and the
    /// mismatch is returned.
    pub fn record_observation(&mut self, len: usize) -> (res: Result<(), DimensionMismatch>)
        ensures
            final(self)@ == old(self)@.offered(len as nat),
            res is Ok <==> old(self)@.accepts(len as nat),
            res matches Err(e) ==> e.expected as nat == old(self)@.width && e.found == len,
    {
        proof {
            use_type_invariant(&*self);
        }
        let checked = self.check_width(len);
        if checked.is_ok() {
            let next = Ledger {
                width: self.width,
                readiness: self.readiness.advance(),
                observed: Ghost(self.observed@ + 1),
            };
            *self = next;
        }
        checked
    }

    /// What a query reports in the current state. Reading it changes nothing.
    pub fn report(&self) -> (p: Report)
        ensures
            p == self@.report(),
    {
        proof {
            use_type_invariant(self);
        }
        report_for(self.readiness)
    }
}

/// A fresh accumulator reports neither mean nor variance.
pub proof fn lemma_fresh_reports_nothing(width: nat)
    ensures
        LedgerView::fresh(width).readiness() == Readiness::Empty,
        LedgerView::fresh(width).report() == Report::Undefined,
{
}

/// After exactly one observation of the right width, a query reports the mean
/// and not the variance.
pub proof fn lemma_single_observation_reports_mean(width: nat)
    ensures
        LedgerView::fresh(width).offered(width).readiness() == Readiness::SingleObservation,
        LedgerView::fresh(width).offered(width).report() == Report::MeanOnly,
{
}

/// The variance is reported exactly in the `Ready` state, that is after two or
/// more observations.
pub proof fn lemma_variance_only_when_ready(v: LedgerView)
    ensures
        v.report() == Report::MeanAndVariance <==> v.readiness() == Readiness::Ready,
        v.readiness() == Readiness::Ready <==> v.observed >= 2,
{
}

/// Offering observations never lowers the number observed, and each one of the
/// right width raises it by exactly one.
pub proof fn lemma_offered_all_counts(v: LedgerView, lens: Seq<nat>, i: int)
    requires
        0 <= i <= lens.len(),
    ensures
        v.offered_all(lens.take(i)).width == v.width,
        v.offered_all(lens.take(i)).observed <= v.offered_all(lens).observed,
    decreases lens.len(),
{
    if lens.len() > 0 && i < lens.len() {
        let rest = lens.drop_last();
        assert(lens.take(i) == rest.take(i));
        lemma_offered_all_counts(v, rest, i);
        assert(rest.take(rest.len() as int) == rest);
        lemma_offered_all_counts(v, rest, rest.len() as int);
    } else {
        assert(lens.take(i) == lens);
        if lens.len() > 0 {
            let rest = lens.drop_last();
            assert(rest.take(rest.len() as int) == rest);
            lemma_offered_all_counts(v, rest, rest.len() as int);
        }
    }
}

/// Readiness never regresses: along any sequence of offered observations, the
/// state after a longer prefix is never lower than after a shorter one.
pub proof fn lemma_readiness_never_regresses(v: LedgerView, lens: Seq<nat>, i: int, j: int)
    requires
        0 <= i <= j <= lens.len(),
    ensures
        v.offered_all(lens.take(i)).readiness().rank() <= v.offered_all(lens.take(j)).readiness().rank(),
{
    let pre = lens.take(j);
    assert(pre.take(i) == lens.take(i));
    lemma_offered_all_counts(v, pre, i);
    crate::readiness::lemma_after_monotone(
        v.offered_all(lens.take(i)).observed,
        v.offered_all(lens.take(j)).observed,
    );
}

} // verus!
