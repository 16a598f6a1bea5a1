//! The ways in which a reward computation ends without a result.

use crate::config::Flag;
use vstd::prelude::*;

verus! {

/// What the chain was asked for and does not hold.
#[derive(Clone, Copy, Debug, PartialEq, Eq, Structural)]
pub enum Missing {
    /// The block that a block identifier names.
    Block,
    /// The state root recorded for a slot.
    StateRoot,
    /// The state stored under a state root.
    State,
}

/// Which participation data is not available.
#[derive(Clone, Copy, Debug, PartialEq, Eq, Structural)]
pub enum ParticipationGap {
    /// No participation data could be built from the state.
    Cache,
    /// The data holds nothing for this flag in the epoch being scored.
    Flag(Flag),
}

/// Why a reward computation ended without a result. Every failure ends the
/// whole computation: there are no partial results.
#[derive(Clone, Copy, Debug, PartialEq, Eq, Structural)]
pub enum RewardsError {
    /// The chain does not hold the requested block or state.
    NotFound(Missing),
    /// Participation data is not available.
    Participation(ParticipationGap),
    /// A product did not fit in 64 bits, a divisor was zero, or an amount
    /// did not fit in its signed field.
    Arithmetic,
    /// This validator index lies beyond the validator registry.
    ValidatorLookup(usize),
    /// A protocol primitive rejected its inputs.
    Spec,
}

/// The outcome of a computation that returns a vector, as a sequence.
pub open spec fn seq_outcome<T>(r: Result<Vec<T>, RewardsError>) -> Result<Seq<T>, RewardsError> {
    match r {
        Ok(items) => Ok(items@),
        Err(e) => Err(e),
    }
}

} // verus!
