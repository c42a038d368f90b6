//! Threshold tier classifier: maps a held balance to a discrete capability
//! tier.  Thresholds are ascending and non-overlapping; a balance exactly at
//! a threshold maps to the higher tier.

use vstd::prelude::*;

verus! {

/// Balance (in base units) required for the lowest paid tier.
pub const BASIC_THRESHOLD: u64 = 100_000_000;

/// Balance (in base units) required for the middle tier.
pub const PRO_THRESHOLD: u64 = 500_000_000;

/// Balance (in base units) required for the highest tier.
pub const ELITE_THRESHOLD: u64 = 1_000_000_000;

/// Discrete capability level derived from a held balance.
#[derive(Clone, Copy, Debug, PartialEq, Eq, Structural)]
pub enum AccessTier {
    NoAccess,
    Basic,
    Pro,
    Elite,
}

/// The tier a balance entitles its holder to: the highest threshold the
/// balance reaches, inclusive at the boundary.
pub open spec fn spec_classify(balance: u64) -> AccessTier {
    if balance >= ELITE_THRESHOLD {
        AccessTier::Elite
    } else if balance >= PRO_THRESHOLD {
        AccessTier::Pro
    } else if balance >= BASIC_THRESHOLD {
        AccessTier::Basic
    } else {
        AccessTier::NoAccess
    }
}

/// Numeric rank of a tier; higher tiers have strictly higher ranks.
pub open spec fn spec_tier_level(t: AccessTier) -> u8 {
    match t {
        AccessTier::NoAccess => 0,
        AccessTier::Basic => 1,
        AccessTier::Pro => 2,
        AccessTier::Elite => 3,
    }
}

impl AccessTier {
    /// Classify a balance: check the highest tier first, fall through to
    /// lower ones, default to `NoAccess`.
    pub fn from_balance(balance: u64) -> (t: AccessTier)
        ensures
            t == spec_classify(balance),
    {
        if balance >= ELITE_THRESHOLD {
            AccessTier::Elite
        } else if balance >= PRO_THRESHOLD {
            AccessTier::Pro
        } else if balance >= BASIC_THRESHOLD {
            AccessTier::Basic
        } else {
            AccessTier::NoAccess
        }
    }

    /// Numeric level of the tier, for storage and for order comparisons.
    pub fn to_u8(&self) -> (level: u8)
        ensures
            level == spec_tier_level(*self),
    {
        match self {
            AccessTier::NoAccess => 0,
            AccessTier::Basic => 1,
            AccessTier::Pro => 2,
            AccessTier::Elite => 3,
        }
    }
}

} // verus!
