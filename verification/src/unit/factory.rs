//! Factories are the hub for producing combative robots.

use vstd::prelude::*;

use crate::error::GameError;
use crate::research::Level;

verus! {

/// The stats of the Factory kind at one research tier.
#[derive(Debug, Clone, Copy, PartialEq, Eq, Structural, Hash)]
pub struct FactoryInfo {
    /// The research tier these stats belong to.
    pub level: Level,
    /// The maximum health.
    pub max_health: u32,
    /// The production progress that the factory makes in one round.
    pub build_speed: u32,
}

impl FactoryInfo {
    /// The last research tier of the Factory kind.
    pub const MAX_LEVEL: Level = 1;

    /// The build speed at a tier: 1, and 2 from tier 1 on.
    pub open spec fn build_speed_at(level: Level) -> u32 {
        if level >= 1 {
            2
        } else {
            1
        }
    }

    /// The stats of a Factory at a tier.
    pub open spec fn at_level(level: Level) -> FactoryInfo {
        FactoryInfo {
            level,
            max_health: 300,
            build_speed: Self::build_speed_at(level),
        }
    }

    /// A record is well formed when its tier exists and every stat is the
    /// one of that tier.
    pub open spec fn wf(&self) -> bool {
        &&& self.level <= Self::MAX_LEVEL
        &&& *self == Self::at_level(self.level)
    }

    /// Every stat of `self` is at least the same stat of `earlier`.
    pub open spec fn improves_on(&self, earlier: &FactoryInfo) -> bool {
        &&& self.level >= earlier.level
        &&& self.max_health >= earlier.max_health
        &&& self.build_speed >= earlier.build_speed
    }

    /// Computes the stats of a Factory at a tier.
    fn stats_at(level: Level) -> (info: FactoryInfo)
        ensures
            info == Self::at_level(level),
        no_unwind
    {
        FactoryInfo {
            level,
            max_health: 300,
            build_speed: if level >= 1 {
                2
            } else {
                1
            },
        }
    }

    /// Whether the record is well formed.
    pub fn is_wf(&self) -> (ok: bool)
        ensures
            ok == self.wf(),
    {
        self.level <= Self::MAX_LEVEL && *self == Self::stats_at(self.level)
    }

    /// Advances the record by one tier and recomputes every stat from the
    /// new tier. At the last tier nothing changes and the limit is reported.
    pub fn research(&mut self) -> (result: Result<(), GameError>)
        ensures
            old(self).level < Self::MAX_LEVEL ==> result is Ok && *final(self) == Self::at_level(
                (old(self).level + 1) as Level,
            ),
            old(self).level >= Self::MAX_LEVEL ==> result == Err::<(), GameError>(
                GameError::ResearchLimitExceeded,
            ) && *final(self) == *old(self),
        no_unwind
    {
        if self.level >= Self::MAX_LEVEL {
            return Err(GameError::ResearchLimitExceeded);
        }
        *self = Self::stats_at(self.level + 1);
        Ok(())
    }

    /// Research never lowers a stat: the stats of a later tier are at least
    /// those of an earlier one.
    pub proof fn lemma_stats_monotonic(earlier: Level, later: Level)
        requires
            earlier <= later,
        ensures
            Self::at_level(later).improves_on(&Self::at_level(earlier)),
    {
    }
}

impl Default for FactoryInfo {
    /// The stats of a Factory before any research.
    fn default() -> (info: FactoryInfo)
        ensures
            info == FactoryInfo::at_level(0),
    {
        FactoryInfo::stats_at(0)
    }
}

} // verus!
