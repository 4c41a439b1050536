//! Rockets are the only unit that can move between planets.

use vstd::prelude::*;

use crate::error::GameError;
use crate::research::Level;
use crate::unit::{unit_views, Unit, UnitView};

verus! {

/// The stats of the Rocket kind at one research tier, and the units that
/// the rocket holds.
#[derive(Debug, PartialEq, Eq)]
pub struct RocketInfo {
    /// The research tier these stats belong to.
    pub level: Level,
    /// The maximum health.
    pub max_health: u32,
    /// The number of units that the rocket can hold.
    pub max_capacity: usize,
    /// The rounds by which a flight of the rocket is shortened.
    pub travel_time_reduction: u32,
    /// The units that the rocket holds, in the order in which they entered.
    pub garrison: Vec<Unit>,
}

/// What a rocket's record holds, as mathematical values.
pub struct RocketView {
    /// The research tier.
    pub level: Level,
    /// The maximum health.
    pub max_health: u32,
    /// The number of units that the rocket can hold.
    pub max_capacity: usize,
    /// The rounds by which a flight of the rocket is shortened.
    pub travel_time_reduction: u32,
    /// The units that the rocket holds, in the order in which they entered.
    pub garrison: Seq<UnitView>,
}

impl View for RocketInfo {
    type V = RocketView;

    open spec fn view(&self) -> RocketView
        decreases self,
    {
        RocketView {
            level: self.level,
            max_health: self.max_health,
            max_capacity: self.max_capacity,
            travel_time_reduction: self.travel_time_reduction,
            garrison: unit_views(self.garrison@),
        }
    }
}

impl RocketView {
    /// The capacity at a tier: 8, and 12 from tier 2 on.
    pub open spec fn max_capacity_at(level: Level) -> usize {
        if level >= 2 {
            12
        } else {
            8
        }
    }

    /// The travel time reduction at a tier: 0, and 20 from tier 1 on.
    pub open spec fn travel_time_reduction_at(level: Level) -> u32 {
        if level >= 1 {
            20
        } else {
            0
        }
    }

    /// The record of a Rocket at a tier that holds the given units.
    pub open spec fn at_level(level: Level, garrison: Seq<UnitView>) -> RocketView {
        RocketView {
            level,
            max_health: 200,
            max_capacity: Self::max_capacity_at(level),
            travel_time_reduction: Self::travel_time_reduction_at(level),
            garrison,
        }
    }

    /// A record is well formed when its tier exists, every stat is the one
    /// of that tier, and the units it holds fit in, are well formed
    /// themselves and are off the map.
    pub open spec fn wf(&self) -> bool
        decreases self,
    {
        &&& self.level <= RocketInfo::MAX_LEVEL
        &&& *self == Self::at_level(self.level, self.garrison)
        &&& self.garrison.len() <= self.max_capacity
        &&& forall|i: int|
            0 <= i < self.garrison.len() ==> {
                &&& (#[trigger] self.garrison[i]).wf()
                &&& self.garrison[i].location is None
            }
    }

    /// Every stat of `self` is at least the same stat of `earlier`.
    pub open spec fn improves_on(&self, earlier: &RocketView) -> bool {
        &&& self.level >= earlier.level
        &&& self.max_health >= earlier.max_health
        &&& self.max_capacity >= earlier.max_capacity
        &&& self.travel_time_reduction >= earlier.travel_time_reduction
    }

    /// Research never lowers a stat: the stats of a later tier are at least
    /// those of an earlier one.
    pub proof fn lemma_stats_monotonic(earlier: Level, later: Level, garrison: Seq<UnitView>)
        requires
            earlier <= later,
        ensures
            Self::at_level(later, garrison).improves_on(&Self::at_level(earlier, garrison)),
    {
    }
}

impl RocketInfo {
    /// The last research tier of the Rocket kind.
    pub const MAX_LEVEL: Level = 2;

    /// Advances the record by one tier and recomputes every stat from the
    /// new tier; the units that the rocket holds stay. At the last tier
    /// nothing changes and the limit is reported.
    pub fn research(&mut self) -> (result: Result<(), GameError>)
        ensures
            old(self).level < Self::MAX_LEVEL ==> result is Ok && final(self)@
                == RocketView::at_level((old(self).level + 1) as Level, old(self)@.garrison),
            old(self).level >= Self::MAX_LEVEL ==> result == Err::<(), GameError>(
                GameError::ResearchLimitExceeded,
            ) && final(self)@ == old(self)@,
        no_unwind
    {
        if self.level >= Self::MAX_LEVEL {
            return Err(GameError::ResearchLimitExceeded);
        }
        let level: Level = self.level + 1;
        self.level = level;
        self.max_health = 200;
        self.max_capacity = Self::max_capacity_at(level);
        self.travel_time_reduction = Self::travel_time_reduction_at(level);
        Ok(())
    }

    /// Computes the capacity at a tier.
    fn max_capacity_at(level: Level) -> (capacity: usize)
        ensures
            capacity == RocketView::max_capacity_at(level),
        no_unwind
    {
        if level >= 2 {
            12
        } else {
            8
        }
    }

    /// Computes the travel time reduction at a tier.
    fn travel_time_reduction_at(level: Level) -> (reduction: u32)
        ensures
            reduction == RocketView::travel_time_reduction_at(level),
        no_unwind
    {
        if level >= 1 {
            20
        } else {
            0
        }
    }

    /// Whether the record is well formed.
    pub fn is_wf(&self) -> (ok: bool)
        ensures
            ok == self@.wf(),
    {
        assert(self@.garrison == unit_views(self.garrison@));
        if self.level > Self::MAX_LEVEL || self.max_health != 200 || self.max_capacity
            != Self::max_capacity_at(self.level) || self.travel_time_reduction
            != Self::travel_time_reduction_at(self.level) || self.garrison.len()
            > self.max_capacity {
            return false;
        }
        let mut i: usize = 0;
        while i < self.garrison.len()
            invariant
                i <= self.garrison.len(),
                self@.garrison == unit_views(self.garrison@),
                forall|j: int|
                    0 <= j < i ==> {
                        &&& (#[trigger] self@.garrison[j]).wf()
                        &&& self@.garrison[j].location is None
                    },
            decreases self.garrison.len() - i,
        {
            let unit = &self.garrison[i];
            if unit.location().is_some() {
                assert(!(self@.garrison[i as int].location is None));
                return false;
            }
            proof {
                use_type_invariant(unit);
            }
            i += 1;
        }
        true
    }

    /// Copies the units that the rocket holds, in their order.
    pub fn garrisoned_units(&self) -> (units: Vec<Unit>)
        ensures
            units@.len() == self@.garrison.len(),
            forall|i: int| 0 <= i < units@.len() ==> (#[trigger] units@[i])@ == self@.garrison[i],
        decreases self, 0nat,
    {
        let mut units: Vec<Unit> = Vec::new();
        let mut i: usize = 0;
        while i < self.garrison.len()
            invariant
                i <= self.garrison.len(),
                units@.len() == i,
                forall|j: int| 0 <= j < i ==> (#[trigger] units@[j])@ == self.garrison@[j]@,
            decreases self.garrison.len() - i,
        {
            units.push(self.garrison[i].clone());
            i += 1;
        }
        assert(self@.garrison == unit_views(self.garrison@));
        units
    }
}

impl Default for RocketInfo {
    /// The record of an empty Rocket before any research.
    fn default() -> (info: RocketInfo)
        ensures
            info@ == RocketView::at_level(0, Seq::empty()),
    {
        let info = RocketInfo {
            level: 0,
            max_health: 200,
            max_capacity: RocketInfo::max_capacity_at(0),
            travel_time_reduction: RocketInfo::travel_time_reduction_at(0),
            garrison: Vec::new(),
        };
        assert(info@.garrison =~= Seq::empty());
        info
    }
}

impl Clone for RocketInfo {
    /// A copy of the record with copies of the units that the rocket holds.
    fn clone(&self) -> (copy: RocketInfo)
        ensures
            copy@ == self@,
        decreases self, 1nat,
    {
        let copy = RocketInfo {
            level: self.level,
            max_health: self.max_health,
            max_capacity: self.max_capacity,
            travel_time_reduction: self.travel_time_reduction,
            garrison: self.garrisoned_units(),
        };
        assert(copy@.garrison =~= self@.garrison);
        copy
    }
}

} // verus!
