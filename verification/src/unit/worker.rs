//! Workers are the foundation of the civilization.

use vstd::prelude::*;

use crate::error::GameError;
use crate::research::Level;
use crate::unit::Percent;

verus! {

/// The stats of the Worker kind at one research tier.
#[derive(Debug, Clone, Copy, PartialEq, Eq, Structural, Hash)]
pub struct WorkerInfo {
    /// The research tier these stats belong to.
    pub level: Level,
    /// The maximum health.
    pub max_health: u32,
    /// The karbonite harvested in one harvest action.
    pub harvest_amount: u32,
    /// The share of a structure's maximum health that one build or repair
    /// action restores.
    pub build_repair_health: Percent,
}

impl WorkerInfo {
    /// The last research tier of the Worker kind.
    pub const MAX_LEVEL: Level = 4;

    /// The harvest amount at a tier: 3, and 4 from tier 1 on.
    pub open spec fn harvest_amount_at(level: Level) -> u32 {
        if level >= 1 {
            4
        } else {
            3
        }
    }

    /// The build and repair power at a tier: 5, then 6 from tier 2, 7 from
    /// tier 3 and 10 from tier 4 on.
    pub open spec fn build_repair_health_at(level: Level) -> Percent {
        if level >= 4 {
            10
        } else if level >= 3 {
            7
        } else if level >= 2 {
            6
        } else {
            5
        }
    }

    /// The stats of a Worker at a tier.
    pub open spec fn at_level(level: Level) -> WorkerInfo {
        WorkerInfo {
            level,
            max_health: 100,
            harvest_amount: Self::harvest_amount_at(level),
            build_repair_health: Self::build_repair_health_at(level),
        }
    }

    /// A record is well formed when its tier exists and every stat is the
    /// one of that tier.
    pub open spec fn wf(&self) -> bool {
        &&& self.level <= Self::MAX_LEVEL
        &&& *self == Self::at_level(self.level)
    }

    /// Every stat of `self` is at least the same stat of `earlier`.
    pub open spec fn improves_on(&self, earlier: &WorkerInfo) -> bool {
        &&& self.level >= earlier.level
        &&& self.max_health >= earlier.max_health
        &&& self.harvest_amount >= earlier.harvest_amount
        &&& self.build_repair_health >= earlier.build_repair_health
    }

    /// Computes the stats of a Worker at a tier.
    fn stats_at(level: Level) -> (info: WorkerInfo)
        ensures
            info == Self::at_level(level),
        no_unwind
    {
        WorkerInfo {
            level,
            max_health: 100,
            harvest_amount: if level >= 1 { 4 } else { 3 },
            build_repair_health: if level >= 4 {
                10
            } else if level >= 3 {
                7
            } else if level >= 2 {
                6
            } else {
                5
            },
        }
    }

    /// Whether the record is well formed.
    pub fn is_wf(&self) -> (ok: bool)
        ensures
            ok == self.wf(),
    {
        self.level <= Self::MAX_LEVEL && *self == Self::stats_at(self.level)
    }

    /// Advances the record by one tier and recomputes every stat from the
    /// new tier. At the last tier nothing changes and the limit is reported.
    pub fn research(&mut self) -> (result: Result<(), GameError>)
        ensures
            old(self).level < Self::MAX_LEVEL ==> result is Ok && *final(self) == Self::at_level(
                (old(self).level + 1) as Level,
            ),
            old(self).level >= Self::MAX_LEVEL ==> result == Err::<(), GameError>(
                GameError::ResearchLimitExceeded,
            ) && *final(self) == *old(self),
        no_unwind
    {
        if self.level >= Self::MAX_LEVEL {
            return Err(GameError::ResearchLimitExceeded);
        }
        *self = Self::stats_at(self.level + 1);
        Ok(())
    }

    /// Research never lowers a stat: the stats of a later tier are at least
    /// those of an earlier one.
    pub proof fn lemma_stats_monotonic(earlier: Level, later: Level)
        requires
            earlier <= later,
        ensures
            Self::at_level(later).improves_on(&Self::at_level(earlier)),
    {
    }
}

impl Default for WorkerInfo {
    /// The stats of a Worker before any research.
    fn default() -> (info: WorkerInfo)
        ensures
            info == WorkerInfo::at_level(0),
    {
        WorkerInfo::stats_at(0)
    }
}

} // verus!
