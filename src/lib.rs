//! Normal and log-normal distributions, with binary64 values held as their
//! IEEE-754 bit patterns so that the decisions on them (validation, ordering,
//! the support boundary, rejection in the polar method) are proved exactly.
use vstd::prelude::*;

pub mod ieee;
pub mod normal;
pub mod statistics;

verus! {

} // verus!
