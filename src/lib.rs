//! Bookkeeping of a running weighted mean and variance over fixed-width vectors.
//!
//! The accumulator moves through three readiness states as observations arrive,
//! and that state alone decides which statistics a query may report. This crate
//! holds that decision logic and the width check on incoming observations; the
//! floating-point update of the mean and `m2` is left to the caller.
use vstd::prelude::*;

pub mod ledger;
pub mod readiness;

verus! {

} // verus!
