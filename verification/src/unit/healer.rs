//! Healers are a support unit that can heal other units.

use vstd::prelude::*;

use crate::error::GameError;
use crate::research::Level;

verus! {

/// The stats of the Healer kind at one research tier.
#[derive(Debug, Clone, Copy, PartialEq, Eq, Structural, Hash)]
pub struct HealerInfo {
    /// The research tier these stats belong to.
    pub level: Level,
    /// The maximum health.
    pub max_health: u32,
    /// The health that one heal restores.
    pub heal_amount: u32,
    /// The squared distance within which the healer can heal.
    pub heal_range: u32,
}

impl HealerInfo {
    /// The last research tier of the Healer kind.
    pub const MAX_LEVEL: Level = 2;

    /// The heal amount at a tier: 10, then 12 from tier 1 and 17 from tier 2 on.
    pub open spec fn heal_amount_at(level: Level) -> u32 {
        if level >= 2 {
            17
        } else if level >= 1 {
            12
        } else {
            10
        }
    }

    /// The stats of a Healer at a tier.
    pub open spec fn at_level(level: Level) -> HealerInfo {
        HealerInfo {
            level,
            max_health: 100,
            heal_amount: Self::heal_amount_at(level),
            heal_range: 30,
        }
    }

    /// A record is well formed when its tier exists and every stat is the
    /// one of that tier.
    pub open spec fn wf(&self) -> bool {
        &&& self.level <= Self::MAX_LEVEL
        &&& *self == Self::at_level(self.level)
    }

    /// Every stat of `self` is at least the same stat of `earlier`.
    pub open spec fn improves_on(&self, earlier: &HealerInfo) -> bool {
        &&& self.level >= earlier.level
        &&& self.max_health >= earlier.max_health
        &&& self.heal_amount >= earlier.heal_amount
        &&& self.heal_range >= earlier.heal_range
    }

    /// Computes the stats of a Healer at a tier.
    fn stats_at(level: Level) -> (info: HealerInfo)
        ensures
            info == Self::at_level(level),
        no_unwind
    {
        HealerInfo {
            level,
            max_health: 100,
            heal_amount: if level >= 2 {
                17
            } else if level >= 1 {
                12
            } else {
                10
            },
            heal_range: 30,
        }
    }

    /// Whether the record is well formed.
    pub fn is_wf(&self) -> (ok: bool)
        ensures
            ok == self.wf(),
    {
        self.level <= Self::MAX_LEVEL && *self == Self::stats_at(self.level)
    }

    /// Advances the record by one tier and recomputes every stat from the
    /// new tier. At the last tier nothing changes and the limit is reported.
    pub fn research(&mut self) -> (result: Result<(), GameError>)
        ensures
            old(self).level < Self::MAX_LEVEL ==> result is Ok && *final(self) == Self::at_level(
                (old(self).level + 1) as Level,
            ),
            old(self).level >= Self::MAX_LEVEL ==> result == Err::<(), GameError>(
                GameError::ResearchLimitExceeded,
            ) && *final(self) == *old(self),
        no_unwind
    {
        if self.level >= Self::MAX_LEVEL {
            return Err(GameError::ResearchLimitExceeded);
        }
        *self = Self::stats_at(self.level + 1);
        Ok(())
    }

    /// Research never lowers a stat: the stats of a later tier are at least
    /// those of an earlier one.
    pub proof fn lemma_stats_monotonic(earlier: Level, later: Level)
        requires
            earlier <= later,
        ensures
            Self::at_level(later).improves_on(&Self::at_level(earlier)),
    {
    }
}

impl Default for HealerInfo {
    /// The stats of a Healer before any research.
    fn default() -> (info: HealerInfo)
        ensures
            info == HealerInfo::at_level(0),
    {
        HealerInfo::stats_at(0)
    }
}

} // verus!
