//! Rangers are a ranged unit with good all-around combat.

use vstd::prelude::*;

use crate::error::GameError;
use crate::research::Level;

verus! {

/// The stats of the Ranger kind at one research tier.
#[derive(Debug, Clone, Copy, PartialEq, Eq, Structural, Hash)]
pub struct RangerInfo {
    /// The research tier these stats belong to.
    pub level: Level,
    /// The maximum health.
    pub max_health: u32,
    /// The damage of one attack.
    pub damage: u32,
    /// The squared distance within which the ranger can attack.
    pub attack_range: u32,
    /// The squared distance within which the ranger can see.
    pub vision_range: u32,
}

impl RangerInfo {
    /// The last research tier of the Ranger kind.
    pub const MAX_LEVEL: Level = 2;

    /// The attack range at a tier: 50, and 60 from tier 1 on.
    pub open spec fn attack_range_at(level: Level) -> u32 {
        if level >= 1 {
            60
        } else {
            50
        }
    }

    /// The vision range at a tier: 70, and 100 from tier 2 on.
    pub open spec fn vision_range_at(level: Level) -> u32 {
        if level >= 2 {
            100
        } else {
            70
        }
    }

    /// The stats of a Ranger at a tier.
    pub open spec fn at_level(level: Level) -> RangerInfo {
        RangerInfo {
            level,
            max_health: 200,
            damage: 30,
            attack_range: Self::attack_range_at(level),
            vision_range: Self::vision_range_at(level),
        }
    }

    /// A record is well formed when its tier exists and every stat is the
    /// one of that tier.
    pub open spec fn wf(&self) -> bool {
        &&& self.level <= Self::MAX_LEVEL
        &&& *self == Self::at_level(self.level)
    }

    /// Every stat of `self` is at least the same stat of `earlier`.
    pub open spec fn improves_on(&self, earlier: &RangerInfo) -> bool {
        &&& self.level >= earlier.level
        &&& self.max_health >= earlier.max_health
        &&& self.damage >= earlier.damage
        &&& self.attack_range >= earlier.attack_range
        &&& self.vision_range >= earlier.vision_range
    }

    /// Computes the stats of a Ranger at a tier.
    fn stats_at(level: Level) -> (info: RangerInfo)
        ensures
            info == Self::at_level(level),
        no_unwind
    {
        RangerInfo {
            level,
            max_health: 200,
            damage: 30,
            attack_range: if level >= 1 {
                60
            } else {
                50
            },
            vision_range: if level >= 2 {
                100
            } else {
                70
            },
        }
    }

    /// Whether the record is well formed.
    pub fn is_wf(&self) -> (ok: bool)
        ensures
            ok == self.wf(),
    {
        self.level <= Self::MAX_LEVEL && *self == Self::stats_at(self.level)
    }

    /// Advances the record by one tier and recomputes every stat from the
    /// new tier. At the last tier nothing changes and the limit is reported.
    pub fn research(&mut self) -> (result: Result<(), GameError>)
        ensures
            old(self).level < Self::MAX_LEVEL ==> result is Ok && *final(self) == Self::at_level(
                (old(self).level + 1) as Level,
            ),
            old(self).level >= Self::MAX_LEVEL ==> result == Err::<(), GameError>(
                GameError::ResearchLimitExceeded,
            ) && *final(self) == *old(self),
        no_unwind
    {
        if self.level >= Self::MAX_LEVEL {
            return Err(GameError::ResearchLimitExceeded);
        }
        *self = Self::stats_at(self.level + 1);
        Ok(())
    }

    /// Research never lowers a stat: the stats of a later tier are at least
    /// those of an earlier one.
    pub proof fn lemma_stats_monotonic(earlier: Level, later: Level)
        requires
            earlier <= later,
        ensures
            Self::at_level(later).improves_on(&Self::at_level(earlier)),
    {
    }
}

impl Default for RangerInfo {
    /// The stats of a Ranger before any research.
    fn default() -> (info: RangerInfo)
        ensures
            info == RangerInfo::at_level(0),
    {
        RangerInfo::stats_at(0)
    }
}

} // verus!
