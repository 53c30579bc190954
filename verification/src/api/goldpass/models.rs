//! The record of a Gold Pass season.

use vstd::prelude::*;

verus! {

/// The time span of a Gold Pass season.
#[derive(Debug, Clone, PartialEq, Eq)]
pub struct APIGoldPassSeason {
    pub start_time: String,
    pub end_time: String,
}

} // verus!
