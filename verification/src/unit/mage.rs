//! Mages are a fragile but specialized ranged unit for large areas.

use vstd::prelude::*;

use crate::error::GameError;
use crate::research::Level;

verus! {

/// The stats of the Mage kind at one research tier.
#[derive(Debug, Clone, Copy, PartialEq, Eq, Structural, Hash)]
pub struct MageInfo {
    /// The research tier these stats belong to.
    pub level: Level,
    /// The maximum health.
    pub max_health: u32,
    /// The damage of one attack.
    pub damage: u32,
    /// The squared distance within which the mage can attack.
    pub attack_range: u32,
}

impl MageInfo {
    /// The last research tier of the Mage kind.
    pub const MAX_LEVEL: Level = 3;

    /// The damage at a tier: 60, then 75 from tier 1, 90 from tier 2 and 105 from tier 3 on.
    pub open spec fn damage_at(level: Level) -> u32 {
        if level >= 3 {
            105
        } else if level >= 2 {
            90
        } else if level >= 1 {
            75
        } else {
            60
        }
    }

    /// The stats of a Mage at a tier.
    pub open spec fn at_level(level: Level) -> MageInfo {
        MageInfo {
            level,
            max_health: 80,
            damage: Self::damage_at(level),
            attack_range: 30,
        }
    }

    /// A record is well formed when its tier exists and every stat is the
    /// one of that tier.
    pub open spec fn wf(&self) -> bool {
        &&& self.level <= Self::MAX_LEVEL
        &&& *self == Self::at_level(self.level)
    }

    /// Every stat of `self` is at least the same stat of `earlier`.
    pub open spec fn improves_on(&self, earlier: &MageInfo) -> bool {
        &&& self.level >= earlier.level
        &&& self.max_health >= earlier.max_health
        &&& self.damage >= earlier.damage
        &&& self.attack_range >= earlier.attack_range
    }

    /// Computes the stats of a Mage at a tier.
    fn stats_at(level: Level) -> (info: MageInfo)
        ensures
            info == Self::at_level(level),
        no_unwind
    {
        MageInfo {
            level,
            max_health: 80,
            damage: if level >= 3 {
                105
            } else if level >= 2 {
                90
            } else if level >= 1 {
                75
            } else {
                60
            },
            attack_range: 30,
        }
    }

    /// Whether the record is well formed.
    pub fn is_wf(&self) -> (ok: bool)
        ensures
            ok == self.wf(),
    {
        self.level <= Self::MAX_LEVEL && *self == Self::stats_at(self.level)
    }

    /// Advances the record by one tier and recomputes every stat from the
    /// new tier. At the last tier nothing changes and the limit is reported.
    pub fn research(&mut self) -> (result: Result<(), GameError>)
        ensures
            old(self).level < Self::MAX_LEVEL ==> result is Ok && *final(self) == Self::at_level(
                (old(self).level + 1) as Level,
            ),
            old(self).level >= Self::MAX_LEVEL ==> result == Err::<(), GameError>(
                GameError::ResearchLimitExceeded,
            ) && *final(self) == *old(self),
        no_unwind
    {
        if self.level >= Self::MAX_LEVEL {
            return Err(GameError::ResearchLimitExceeded);
        }
        *self = Self::stats_at(self.level + 1);
        Ok(())
    }

    /// Research never lowers a stat: the stats of a later tier are at least
    /// those of an earlier one.
    pub proof fn lemma_stats_monotonic(earlier: Level, later: Level)
        requires
            earlier <= later,
        ensures
            Self::at_level(later).improves_on(&Self::at_level(earlier)),
    {
    }
}

impl Default for MageInfo {
    /// The stats of a Mage before any research.
    fn default() -> (info: MageInfo)
        ensures
            info == MageInfo::at_level(0),
    {
        MageInfo::stats_at(0)
    }
}

} // verus!
