//! Medal ranking derived from the worst deviation of a track.

use vstd::prelude::*;

use crate::slm::Slm;

verus! {

/// Upper limit (exclusive), in millimetres, of the Platinum rank.
pub const PLATINUM_LIMIT: u64 = 25_000;

/// Upper limit (exclusive), in millimetres, of the Gold rank.
pub const GOLD_LIMIT: u64 = 50_000;

/// Upper limit (exclusive), in millimetres, of the Silver rank.
pub const SILVER_LIMIT: u64 = 75_000;

/// Upper limit (exclusive), in millimetres, of the Bronze rank.
pub const BRONZE_LIMIT: u64 = 100_000;

/// The medal colour associated with a maximum deviation value.
#[derive(Debug, Clone, PartialEq, Eq, Structural)]
pub enum Rank {
    /// Max deviation less than 25 meters.
    Platinum,
    /// Max deviation less than 50 meters.
    Gold,
    /// Max deviation less than 75 meters.
    Silver,
    /// Max deviation less than 100 meters.
    Bronze,
}

/// The rank earned by a given maximum deviation, in millimetres.
pub open spec fn rank_of(deviation: int) -> Option<Rank> {
    if deviation < PLATINUM_LIMIT {
        Some(Rank::Platinum)
    } else if deviation < GOLD_LIMIT {
        Some(Rank::Gold)
    } else if deviation < SILVER_LIMIT {
        Some(Rank::Silver)
    } else if deviation < BRONZE_LIMIT {
        Some(Rank::Bronze)
    } else {
        None
    }
}

impl Rank {
    /// Classify a maximum deviation, given in millimetres.
    pub fn from_deviation(value: u64) -> (r: Option<Rank>)
        ensures
            r == rank_of(value as int),
    {
        if value < PLATINUM_LIMIT {
            Some(Rank::Platinum)
        } else if value < GOLD_LIMIT {
            Some(Rank::Gold)
        } else if value < SILVER_LIMIT {
            Some(Rank::Silver)
        } else if value < BRONZE_LIMIT {
            Some(Rank::Bronze)
        } else {
            None
        }
    }

    /// Display name of the rank.
    pub fn to_str(&self) -> (r: &'static str)
        ensures
            r@ == match self {
                Rank::Platinum => "PLATINUM"@,
                Rank::Gold => "GOLD"@,
                Rank::Silver => "SILVER"@,
                Rank::Bronze => "BRONZE"@,
            },
    {
        match self {
            Rank::Platinum => "PLATINUM",
            Rank::Gold => "GOLD",
            Rank::Silver => "SILVER",
            Rank::Bronze => "BRONZE",
        }
    }
}

/// The medal earned by a mission: the rank its worst deviation falls under,
/// or none when even Bronze was missed.
pub fn compute_rank(slm: &Slm) -> (r: Option<Rank>)
    ensures
        r == rank_of(slm.max_deviation as int),
{
    Rank::from_deviation(slm.max_deviation)
}

} // verus!
