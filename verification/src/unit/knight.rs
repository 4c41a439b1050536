//! Knights are a melee unit that is strong in numbers.

use vstd::prelude::*;

use crate::error::GameError;
use crate::research::Level;

verus! {

/// The stats of the Knight kind at one research tier.
#[derive(Debug, Clone, Copy, PartialEq, Eq, Structural, Hash)]
pub struct KnightInfo {
    /// The research tier these stats belong to.
    pub level: Level,
    /// The maximum health.
    pub max_health: u32,
    /// The damage of one attack.
    pub damage: u32,
    /// The squared distance within which the knight can attack.
    pub attack_range: u32,
    /// The damage that the knight's armor takes off each hit.
    pub defense: u32,
}

impl KnightInfo {
    /// The last research tier of the Knight kind.
    pub const MAX_LEVEL: Level = 2;

    /// The defense at a tier: 5, then 10 from tier 1 and 15 from tier 2 on.
    pub open spec fn defense_at(level: Level) -> u32 {
        if level >= 2 {
            15
        } else if level >= 1 {
            10
        } else {
            5
        }
    }

    /// The stats of a Knight at a tier.
    pub open spec fn at_level(level: Level) -> KnightInfo {
        KnightInfo {
            level,
            max_health: 250,
            damage: 80,
            attack_range: 2,
            defense: Self::defense_at(level),
        }
    }

    /// A record is well formed when its tier exists and every stat is the
    /// one of that tier.
    pub open spec fn wf(&self) -> bool {
        &&& self.level <= Self::MAX_LEVEL
        &&& *self == Self::at_level(self.level)
    }

    /// Every stat of `self` is at least the same stat of `earlier`.
    pub open spec fn improves_on(&self, earlier: &KnightInfo) -> bool {
        &&& self.level >= earlier.level
        &&& self.max_health >= earlier.max_health
        &&& self.damage >= earlier.damage
        &&& self.attack_range >= earlier.attack_range
        &&& self.defense >= earlier.defense
    }

    /// Computes the stats of a Knight at a tier.
    fn stats_at(level: Level) -> (info: KnightInfo)
        ensures
            info == Self::at_level(level),
        no_unwind
    {
        KnightInfo {
            level,
            max_health: 250,
            damage: 80,
            attack_range: 2,
            defense: if level >= 2 {
                15
            } else if level >= 1 {
                10
            } else {
                5
            },
        }
    }

    /// Whether the record is well formed.
    pub fn is_wf(&self) -> (ok: bool)
        ensures
            ok == self.wf(),
    {
        self.level <= Self::MAX_LEVEL && *self == Self::stats_at(self.level)
    }

    /// Advances the record by one tier and recomputes every stat from the
    /// new tier. At the last tier nothing changes and the limit is reported.
    pub fn research(&mut self) -> (result: Result<(), GameError>)
        ensures
            old(self).level < Self::MAX_LEVEL ==> result is Ok && *final(self) == Self::at_level(
                (old(self).level + 1) as Level,
            ),
            old(self).level >= Self::MAX_LEVEL ==> result == Err::<(), GameError>(
                GameError::ResearchLimitExceeded,
            ) && *final(self) == *old(self),
        no_unwind
    {
        if self.level >= Self::MAX_LEVEL {
            return Err(GameError::ResearchLimitExceeded);
        }
        *self = Self::stats_at(self.level + 1);
        Ok(())
    }

    /// Research never lowers a stat: the stats of a later tier are at least
    /// those of an earlier one.
    pub proof fn lemma_stats_monotonic(earlier: Level, later: Level)
        requires
            earlier <= later,
        ensures
            Self::at_level(later).improves_on(&Self::at_level(earlier)),
    {
    }
}

impl Default for KnightInfo {
    /// The stats of a Knight before any research.
    fn default() -> (info: KnightInfo)
        ensures
            info == KnightInfo::at_level(0),
    {
        KnightInfo::stats_at(0)
    }
}

} // verus!
