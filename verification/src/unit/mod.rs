//! Units are player-controlled entities that can perform certain game
//! actions, depending on their type.

use vstd::prelude::*;

use crate::constants::HEAT_LOSS_PER_ROUND;
use crate::error::GameError;
use crate::location::MapLocation;
use crate::research::Level;
use crate::world::Team;
use self::factory::FactoryInfo;
use self::healer::HealerInfo;
use self::knight::KnightInfo;
use self::mage::MageInfo;
use self::ranger::RangerInfo;
use self::rocket::{RocketInfo, RocketView};
use self::worker::WorkerInfo;

pub mod factory;
pub mod healer;
pub mod knight;
pub mod lemmas;
pub mod mage;
pub mod ranger;
pub mod rocket;
pub mod worker;

verus! {

/// A percentage.
pub type Percent = u32;

/// The ID of a unit is assigned when the unit is spawned.
pub type UnitID = u32;

/// The different unit types, which include factories, rockets, and the robots.
#[derive(Debug, Clone, Copy, PartialEq, Eq, Structural, Hash)]
pub enum UnitType {
    /// Workers are the foundation of the civilization.
    Worker,
    /// Knights are a melee unit that is strong in numbers.
    Knight,
    /// Rangers are a ranged unit with good all-around combat.
    Ranger,
    /// Mages are a fragile but specialized ranged unit for large areas.
    Mage,
    /// Healers are a support unit that can heal other units.
    Healer,
    /// Factories are the hub for producing combative robots.
    Factory,
    /// Rockets are the only unit that can move between planets.
    Rocket,
}

/// The stat record of a unit: exactly one kind's record at a time.
#[derive(Debug, PartialEq, Eq)]
pub enum UnitInfo {
    /// The record of a worker.
    Worker(WorkerInfo),
    /// The record of a knight.
    Knight(KnightInfo),
    /// The record of a ranger.
    Ranger(RangerInfo),
    /// The record of a mage.
    Mage(MageInfo),
    /// The record of a healer.
    Healer(HealerInfo),
    /// The record of a factory.
    Factory(FactoryInfo),
    /// The record of a rocket.
    Rocket(RocketInfo),
}

/// A single unit in the game.
#[derive(Debug, PartialEq, Eq)]
pub struct Unit {
    id: UnitID,
    team: Team,
    unit_type: UnitType,
    location: Option<MapLocation>,
    health: u32,
    movement_heat: u32,
    attack_heat: u32,
    unit_info: UnitInfo,
}

/// What a stat record holds, as mathematical values.
pub enum UnitInfoView {
    /// The record of a worker.
    Worker(WorkerInfo),
    /// The record of a knight.
    Knight(KnightInfo),
    /// The record of a ranger.
    Ranger(RangerInfo),
    /// The record of a mage.
    Mage(MageInfo),
    /// The record of a healer.
    Healer(HealerInfo),
    /// The record of a factory.
    Factory(FactoryInfo),
    /// The record of a rocket.
    Rocket(RocketView),
}

/// What a unit holds, as mathematical values.
pub struct UnitView {
    /// The unique ID of the unit.
    pub id: UnitID,
    /// The team the unit belongs to.
    pub team: Team,
    /// The unit type.
    pub unit_type: UnitType,
    /// The location of the unit, if it is on the map.
    pub location: Option<MapLocation>,
    /// The current health.
    pub health: u32,
    /// The movement heat.
    pub movement_heat: u32,
    /// The attack heat.
    pub attack_heat: u32,
    /// The stat record of the unit's kind.
    pub unit_info: UnitInfoView,
}

/// The views of the units of a sequence, in their order.
pub open spec fn unit_views(units: Seq<Unit>) -> Seq<UnitView>
    decreases units,
{
    Seq::new(
        units.len(),
        |i: int|
            if 0 <= i < units.len() {
                units[i]@
            } else {
                arbitrary()
            },
    )
}

impl View for UnitInfo {
    type V = UnitInfoView;

    open spec fn view(&self) -> UnitInfoView
        decreases self,
    {
        match self {
            UnitInfo::Worker(info) => UnitInfoView::Worker(*info),
            UnitInfo::Knight(info) => UnitInfoView::Knight(*info),
            UnitInfo::Ranger(info) => UnitInfoView::Ranger(*info),
            UnitInfo::Mage(info) => UnitInfoView::Mage(*info),
            UnitInfo::Healer(info) => UnitInfoView::Healer(*info),
            UnitInfo::Factory(info) => UnitInfoView::Factory(*info),
            UnitInfo::Rocket(info) => UnitInfoView::Rocket(info@),
        }
    }
}

impl View for Unit {
    type V = UnitView;

    closed spec fn view(&self) -> UnitView
        decreases self,
    {
        UnitView {
            id: self.id,
            team: self.team,
            unit_type: self.unit_type,
            location: self.location,
            health: self.health,
            movement_heat: self.movement_heat,
            attack_heat: self.attack_heat,
            unit_info: self.unit_info@,
        }
    }
}

impl UnitType {
    /// The last research tier of a kind.
    pub open spec fn max_level(&self) -> Level {
        match self {
            UnitType::Worker => WorkerInfo::MAX_LEVEL,
            UnitType::Knight => KnightInfo::MAX_LEVEL,
            UnitType::Ranger => RangerInfo::MAX_LEVEL,
            UnitType::Mage => MageInfo::MAX_LEVEL,
            UnitType::Healer => HealerInfo::MAX_LEVEL,
            UnitType::Factory => FactoryInfo::MAX_LEVEL,
            UnitType::Rocket => RocketInfo::MAX_LEVEL,
        }
    }

    /// Whether a kind is a structure. Structures are spawned as blueprints,
    /// at a quarter of their maximum health.
    pub open spec fn is_structure(&self) -> bool {
        *self is Factory || *self is Rocket
    }

    /// The table of the kinds that can move at all.
    pub open spec fn permits_movement(&self) -> bool {
        *self is Knight
    }

    /// List all the unit types.
    pub fn all() -> (types: Vec<UnitType>)
        ensures
            types@ == seq![
                UnitType::Worker,
                UnitType::Knight,
                UnitType::Ranger,
                UnitType::Mage,
                UnitType::Healer,
                UnitType::Factory,
                UnitType::Rocket,
            ],
    {
        let mut types: Vec<UnitType> = Vec::new();
        types.push(UnitType::Worker);
        types.push(UnitType::Knight);
        types.push(UnitType::Ranger);
        types.push(UnitType::Mage);
        types.push(UnitType::Healer);
        types.push(UnitType::Factory);
        types.push(UnitType::Rocket);
        assert(types@ =~= seq![
            UnitType::Worker,
            UnitType::Knight,
            UnitType::Ranger,
            UnitType::Mage,
            UnitType::Healer,
            UnitType::Factory,
            UnitType::Rocket,
        ]);
        types
    }

    /// Return the default stats of the given unit type: its record before
    /// any research, holding no unit.
    pub fn default(&self) -> (info: UnitInfo)
        ensures
            info@ == UnitInfoView::at_level(*self, 0),
    {
        match *self {
            UnitType::Worker => UnitInfo::Worker(WorkerInfo::default()),
            UnitType::Knight => UnitInfo::Knight(KnightInfo::default()),
            UnitType::Ranger => UnitInfo::Ranger(RangerInfo::default()),
            UnitType::Mage => UnitInfo::Mage(MageInfo::default()),
            UnitType::Healer => UnitInfo::Healer(HealerInfo::default()),
            UnitType::Factory => UnitInfo::Factory(FactoryInfo::default()),
            UnitType::Rocket => UnitInfo::Rocket(RocketInfo::default()),
        }
    }
}

impl UnitInfoView {
    /// The kind whose record this is.
    pub open spec fn unit_type(&self) -> UnitType {
        match self {
            UnitInfoView::Worker(_) => UnitType::Worker,
            UnitInfoView::Knight(_) => UnitType::Knight,
            UnitInfoView::Ranger(_) => UnitType::Ranger,
            UnitInfoView::Mage(_) => UnitType::Mage,
            UnitInfoView::Healer(_) => UnitType::Healer,
            UnitInfoView::Factory(_) => UnitType::Factory,
            UnitInfoView::Rocket(_) => UnitType::Rocket,
        }
    }

    /// The research tier of the record.
    pub open spec fn level(&self) -> Level {
        match self {
            UnitInfoView::Worker(info) => info.level,
            UnitInfoView::Knight(info) => info.level,
            UnitInfoView::Ranger(info) => info.level,
            UnitInfoView::Mage(info) => info.level,
            UnitInfoView::Healer(info) => info.level,
            UnitInfoView::Factory(info) => info.level,
            UnitInfoView::Rocket(info) => info.level,
        }
    }

    /// The maximum health that the record gives.
    pub open spec fn max_health(&self) -> u32 {
        match self {
            UnitInfoView::Worker(info) => info.max_health,
            UnitInfoView::Knight(info) => info.max_health,
            UnitInfoView::Ranger(info) => info.max_health,
            UnitInfoView::Mage(info) => info.max_health,
            UnitInfoView::Healer(info) => info.max_health,
            UnitInfoView::Factory(info) => info.max_health,
            UnitInfoView::Rocket(info) => info.max_health,
        }
    }

    /// The units that the record holds: those in a rocket, and none for
    /// every other kind.
    pub open spec fn garrison(&self) -> Seq<UnitView> {
        match self {
            UnitInfoView::Rocket(info) => info.garrison,
            _ => Seq::empty(),
        }
    }

    /// The record of a kind at a tier that holds the given units. Only a
    /// rocket holds units.
    pub open spec fn with(kind: UnitType, level: Level, garrison: Seq<UnitView>) -> UnitInfoView {
        match kind {
            UnitType::Worker => UnitInfoView::Worker(WorkerInfo::at_level(level)),
            UnitType::Knight => UnitInfoView::Knight(KnightInfo::at_level(level)),
            UnitType::Ranger => UnitInfoView::Ranger(RangerInfo::at_level(level)),
            UnitType::Mage => UnitInfoView::Mage(MageInfo::at_level(level)),
            UnitType::Healer => UnitInfoView::Healer(HealerInfo::at_level(level)),
            UnitType::Factory => UnitInfoView::Factory(FactoryInfo::at_level(level)),
            UnitType::Rocket => UnitInfoView::Rocket(RocketView::at_level(level, garrison)),
        }
    }

    /// The record of a kind at a tier, holding no unit.
    pub open spec fn at_level(kind: UnitType, level: Level) -> UnitInfoView {
        Self::with(kind, level, Seq::empty())
    }

    /// The record after one more tier of research: the record of the same
    /// kind at the next tier, holding the same units.
    pub open spec fn researched(&self) -> UnitInfoView {
        Self::with(self.unit_type(), (self.level() + 1) as Level, self.garrison())
    }

    /// The record after `times` more tiers of research.
    pub open spec fn researched_times(&self, times: nat) -> UnitInfoView
        decreases times,
    {
        if times == 0 {
            *self
        } else {
            self.researched_times((times - 1) as nat).researched()
        }
    }

    /// A record is well formed when the record of its kind is.
    pub open spec fn wf(&self) -> bool
        decreases self,
    {
        match self {
            UnitInfoView::Worker(info) => info.wf(),
            UnitInfoView::Knight(info) => info.wf(),
            UnitInfoView::Ranger(info) => info.wf(),
            UnitInfoView::Mage(info) => info.wf(),
            UnitInfoView::Healer(info) => info.wf(),
            UnitInfoView::Factory(info) => info.wf(),
            UnitInfoView::Rocket(info) => info.wf(),
        }
    }

    /// The two records are of one kind, and every stat of `self` is at
    /// least the same stat of `earlier`.
    pub open spec fn improves_on(&self, earlier: &UnitInfoView) -> bool {
        match (self, earlier) {
            (UnitInfoView::Worker(a), UnitInfoView::Worker(b)) => a.improves_on(b),
            (UnitInfoView::Knight(a), UnitInfoView::Knight(b)) => a.improves_on(b),
            (UnitInfoView::Ranger(a), UnitInfoView::Ranger(b)) => a.improves_on(b),
            (UnitInfoView::Mage(a), UnitInfoView::Mage(b)) => a.improves_on(b),
            (UnitInfoView::Healer(a), UnitInfoView::Healer(b)) => a.improves_on(b),
            (UnitInfoView::Factory(a), UnitInfoView::Factory(b)) => a.improves_on(b),
            (UnitInfoView::Rocket(a), UnitInfoView::Rocket(b)) => a.improves_on(b),
            _ => false,
        }
    }
}

impl UnitInfo {
    /// The kind whose record this is.
    pub fn unit_type(&self) -> (kind: UnitType)
        ensures
            kind == self@.unit_type(),
    {
        match self {
            UnitInfo::Worker(_) => UnitType::Worker,
            UnitInfo::Knight(_) => UnitType::Knight,
            UnitInfo::Ranger(_) => UnitType::Ranger,
            UnitInfo::Mage(_) => UnitType::Mage,
            UnitInfo::Healer(_) => UnitType::Healer,
            UnitInfo::Factory(_) => UnitType::Factory,
            UnitInfo::Rocket(_) => UnitType::Rocket,
        }
    }

    /// The maximum health that the record gives.
    pub fn max_health(&self) -> (health: u32)
        ensures
            health == self@.max_health(),
    {
        match self {
            UnitInfo::Worker(info) => info.max_health,
            UnitInfo::Knight(info) => info.max_health,
            UnitInfo::Ranger(info) => info.max_health,
            UnitInfo::Mage(info) => info.max_health,
            UnitInfo::Healer(info) => info.max_health,
            UnitInfo::Factory(info) => info.max_health,
            UnitInfo::Rocket(info) => info.max_health,
        }
    }

    /// Whether the record is well formed.
    pub fn is_wf(&self) -> (ok: bool)
        ensures
            ok == self@.wf(),
    {
        match self {
            UnitInfo::Worker(info) => info.is_wf(),
            UnitInfo::Knight(info) => info.is_wf(),
            UnitInfo::Ranger(info) => info.is_wf(),
            UnitInfo::Mage(info) => info.is_wf(),
            UnitInfo::Healer(info) => info.is_wf(),
            UnitInfo::Factory(info) => info.is_wf(),
            UnitInfo::Rocket(info) => info.is_wf(),
        }
    }

    /// Research the next level of the record's kind. At the kind's last
    /// tier nothing changes and the limit is reported.
    pub fn research(&mut self) -> (result: Result<(), GameError>)
        ensures
            old(self)@.level() < old(self)@.unit_type().max_level() ==> {
                &&& result is Ok
                &&& final(self)@ == old(self)@.researched()
            },
            old(self)@.level() >= old(self)@.unit_type().max_level() ==> {
                &&& result == Err::<(), GameError>(GameError::ResearchLimitExceeded)
                &&& final(self)@ == old(self)@
            },
        no_unwind
    {
        match self {
            UnitInfo::Worker(info) => info.research(),
            UnitInfo::Knight(info) => info.research(),
            UnitInfo::Ranger(info) => info.research(),
            UnitInfo::Mage(info) => info.research(),
            UnitInfo::Healer(info) => info.research(),
            UnitInfo::Factory(info) => info.research(),
            UnitInfo::Rocket(info) => info.research(),
        }
    }
}

impl Clone for UnitInfo {
    /// A copy of the record, with copies of the units that it holds.
    fn clone(&self) -> (copy: UnitInfo)
        ensures
            copy@ == self@,
        decreases self,
    {
        match self {
            UnitInfo::Worker(info) => UnitInfo::Worker(*info),
            UnitInfo::Knight(info) => UnitInfo::Knight(*info),
            UnitInfo::Ranger(info) => UnitInfo::Ranger(*info),
            UnitInfo::Mage(info) => UnitInfo::Mage(*info),
            UnitInfo::Healer(info) => UnitInfo::Healer(*info),
            UnitInfo::Factory(info) => UnitInfo::Factory(*info),
            UnitInfo::Rocket(info) => UnitInfo::Rocket(info.clone()),
        }
    }
}

impl UnitView {
    /// A unit is well formed when its type is the kind of its record, the
    /// record is well formed, and its health is at most the maximum health
    /// that the record gives.
    pub open spec fn wf(&self) -> bool
        decreases self,
    {
        &&& self.unit_type == self.unit_info.unit_type()
        &&& self.unit_info.wf()
        &&& self.health <= self.unit_info.max_health()
    }

    /// The health a unit of a kind is spawned with under a record: a
    /// quarter of the maximum health for a structure, the maximum health
    /// for every other kind.
    pub open spec fn spawn_health(kind: UnitType, max_health: u32) -> u32 {
        if kind.is_structure() {
            max_health / 4
        } else {
            max_health
        }
    }

    /// The unit that is built at a research tier: off the map, without
    /// heat, with the record of its kind at that tier and the health that
    /// the kind is spawned with.
    pub open spec fn spawned(id: UnitID, team: Team, kind: UnitType, level: Level) -> UnitView {
        UnitView {
            id,
            team,
            unit_type: kind,
            location: None,
            health: Self::spawn_health(kind, UnitInfoView::at_level(kind, level).max_health()),
            movement_heat: 0,
            attack_heat: 0,
            unit_info: UnitInfoView::at_level(kind, level),
        }
    }

    /// The unit after one more tier of research: only its record changes.
    pub open spec fn researched(&self) -> UnitView {
        UnitView { unit_info: self.unit_info.researched(), ..*self }
    }

    /// The unit after `times` more tiers of research.
    pub open spec fn researched_times(&self, times: nat) -> UnitView
        decreases times,
    {
        if times == 0 {
            *self
        } else {
            self.researched_times((times - 1) as nat).researched()
        }
    }

    /// The unit after it took damage: its health falls by the damage, but
    /// not below zero.
    pub open spec fn damaged(&self, damage: u32) -> UnitView {
        UnitView {
            health: if damage >= self.health {
                0
            } else {
                (self.health - damage) as u32
            },
            ..*self
        }
    }

    /// A heat after one round: it falls by the loss of a round, but not
    /// below zero.
    pub open spec fn cooled(heat: u32) -> u32 {
        if heat <= HEAT_LOSS_PER_ROUND {
            0
        } else {
            (heat - HEAT_LOSS_PER_ROUND) as u32
        }
    }

    /// The unit after the end of a round: both heats have cooled.
    pub open spec fn after_round(&self) -> UnitView {
        UnitView {
            movement_heat: Self::cooled(self.movement_heat),
            attack_heat: Self::cooled(self.attack_heat),
            ..*self
        }
    }
}

impl Unit {
    /// Every unit is well formed, at every moment of its life.
    #[verifier::type_invariant]
    spec fn inv(&self) -> bool {
        self@.wf()
    }

    /// Create a new unit of the given type at the given research level:
    /// the record of the type before any research is researched `level`
    /// times. A level beyond the last tier of the type is rejected.
    pub fn new(id: UnitID, team: Team, unit_type: UnitType, level: Level) -> (result: Result<
        Unit,
        GameError,
    >)
        ensures
            level <= unit_type.max_level() ==> {
                &&& result is Ok
                &&& result->Ok_0@ == UnitView::spawned(id, team, unit_type, level)
                &&& result->Ok_0@.wf()
            },
            level > unit_type.max_level() ==> {
                &&& result is Err
                &&& result->Err_0 == GameError::ResearchLimitExceeded
            },
    {
        let mut unit_info = unit_type.default();
        let mut researched: Level = 0;
        while researched < level
            invariant
                researched <= level,
                researched <= unit_type.max_level(),
                unit_info@ == UnitInfoView::at_level(unit_type, researched),
            decreases level - researched,
        {
            match unit_info.research() {
                Ok(()) => {},
                Err(error) => {
                    return Err(error);
                },
            }
            researched += 1;
        }
        let max_health = unit_info.max_health();
        let health = match unit_type {
            UnitType::Factory | UnitType::Rocket => max_health / 4,
            _ => max_health,
        };
        Ok(
            Unit {
                id,
                team,
                unit_type,
                location: None,
                health,
                movement_heat: 0,
                attack_heat: 0,
                unit_info,
            },
        )
    }

    /// Rebuilds a unit from the parts that a stored unit consists of. The
    /// parts are refused unless they make a well-formed unit.
    pub fn restore(
        id: UnitID,
        team: Team,
        unit_type: UnitType,
        location: Option<MapLocation>,
        health: u32,
        movement_heat: u32,
        attack_heat: u32,
        unit_info: UnitInfo,
    ) -> (unit: Option<Unit>)
        ensures
            match unit {
                Some(unit) => {
                    &&& unit@.wf()
                    &&& unit@ == (UnitView {
                        id,
                        team,
                        unit_type,
                        location,
                        health,
                        movement_heat,
                        attack_heat,
                        unit_info: unit_info@,
                    })
                },
                None => !(UnitView {
                    id,
                    team,
                    unit_type,
                    location,
                    health,
                    movement_heat,
                    attack_heat,
                    unit_info: unit_info@,
                }).wf(),
            },
    {
        if unit_info.unit_type() != unit_type || !unit_info.is_wf() || health
            > unit_info.max_health() {
            return None;
        }
        Some(
            Unit {
                id,
                team,
                unit_type,
                location,
                health,
                movement_heat,
                attack_heat,
                unit_info,
            },
        )
    }

    /// The unique ID of a unit.
    pub fn id(&self) -> (id: UnitID)
        ensures
            id == self@.id,
    {
        self.id
    }

    /// The team the unit belongs to.
    pub fn team(&self) -> (team: Team)
        ensures
            team == self@.team,
    {
        self.team
    }

    /// The unit type. It is the kind of the unit's record, always.
    pub fn unit_type(&self) -> (unit_type: UnitType)
        ensures
            unit_type == self@.unit_type,
            unit_type == self@.unit_info.unit_type(),
    {
        proof {
            use_type_invariant(self);
        }
        self.unit_type
    }

    /// The location of the unit, if currently on the map. Units can be
    /// temporarily removed from the map in rocket-related situations.
    pub fn location(&self) -> (location: Option<MapLocation>)
        ensures
            location == self@.location,
    {
        self.location
    }

    /// The current health of the unit. It is at most the maximum health of
    /// the unit's record.
    pub fn health(&self) -> (health: u32)
        ensures
            health == self@.health,
            health <= self@.unit_info.max_health(),
    {
        proof {
            use_type_invariant(self);
        }
        self.health
    }

    /// The movement heat of the unit.
    pub fn movement_heat(&self) -> (heat: u32)
        ensures
            heat == self@.movement_heat,
    {
        self.movement_heat
    }

    /// The attack heat of the unit.
    pub fn attack_heat(&self) -> (heat: u32)
        ensures
            heat == self@.attack_heat,
    {
        self.attack_heat
    }

    /// The stat record of the unit. It is well formed and of the unit's
    /// type, always.
    pub fn unit_info(&self) -> (info: &UnitInfo)
        ensures
            info@ == self@.unit_info,
            info@.wf(),
            info@.unit_type() == self@.unit_type,
    {
        proof {
            use_type_invariant(self);
        }
        &self.unit_info
    }

    /// Returns whether the unit is currently able to make a movement to a
    /// valid location: whether its kind can move at all.
    pub fn is_move_ready(&self) -> (ready: bool)
        ensures
            ready == self@.unit_type.permits_movement(),
    {
        proof {
            use_type_invariant(self);
        }
        match self.unit_info {
            UnitInfo::Knight(_) => true,
            _ => false,
        }
    }

    /// Move the unit to this location.
    pub fn move_to(&mut self, location: Option<MapLocation>)
        ensures
            final(self)@ == (UnitView { location, ..old(self)@ }),
            final(self)@.wf(),
    {
        proof {
            use_type_invariant(&*self);
        }
        self.location = location;
    }

    /// Take the amount of damage given, returning true if the unit has died.
    /// Returns false if the unit is still alive.
    pub fn take_damage(&mut self, damage: u32) -> (dead: bool)
        ensures
            final(self)@ == old(self)@.damaged(damage),
            dead == (final(self)@.health == 0),
            final(self)@.wf(),
    {
        proof {
            use_type_invariant(&*self);
        }
        let taken = if damage < self.health {
            damage
        } else {
            self.health
        };
        self.health = self.health - taken;
        self.health == 0
    }

    /// Returns the garrisoned units in this unit. Only applicable to Rockets,
    /// and returns None otherwise.
    pub fn garrisoned_units(&self) -> (units: Option<Vec<Unit>>)
        ensures
            self@.unit_type is Rocket ==> {
                &&& units is Some
                &&& units->Some_0@.len() == self@.unit_info.garrison().len()
                &&& forall|i: int|
                    0 <= i < units->Some_0@.len() ==> (#[trigger] units->Some_0@[i])@
                        == self@.unit_info.garrison()[i]
            },
            !(self@.unit_type is Rocket) ==> units is None,
    {
        proof {
            use_type_invariant(self);
        }
        match &self.unit_info {
            UnitInfo::Rocket(info) => Some(info.garrisoned_units()),
            _ => None,
        }
    }

    /// Research the next level. At the last tier of the unit's type nothing
    /// changes and the limit is reported.
    pub fn research(&mut self) -> (result: Result<(), GameError>)
        ensures
            old(self)@.unit_info.level() < old(self)@.unit_type.max_level() ==> {
                &&& result is Ok
                &&& final(self)@ == old(self)@.researched()
            },
            old(self)@.unit_info.level() >= old(self)@.unit_type.max_level() ==> {
                &&& result is Err
                &&& result->Err_0 == GameError::ResearchLimitExceeded
                &&& final(self)@ == old(self)@
            },
            final(self)@.wf(),
    {
        proof {
            use_type_invariant(&*self);
        }
        self.unit_info.research()
    }

    /// Process the end of the round.
    pub fn next_round(&mut self)
        ensures
            final(self)@ == old(self)@.after_round(),
            final(self)@.wf(),
    {
        proof {
            use_type_invariant(&*self);
        }
        let movement_loss = if HEAT_LOSS_PER_ROUND < self.movement_heat {
            HEAT_LOSS_PER_ROUND
        } else {
            self.movement_heat
        };
        self.movement_heat = self.movement_heat - movement_loss;
        let attack_loss = if HEAT_LOSS_PER_ROUND < self.attack_heat {
            HEAT_LOSS_PER_ROUND
        } else {
            self.attack_heat
        };
        self.attack_heat = self.attack_heat - attack_loss;
    }
}

impl Clone for Unit {
    /// A copy of the unit, with copies of the units that it holds.
    fn clone(&self) -> (copy: Unit)
        ensures
            copy@ == self@,
        decreases self,
    {
        proof {
            use_type_invariant(self);
        }
        Unit {
            id: self.id,
            team: self.team,
            unit_type: self.unit_type,
            location: self.location,
            health: self.health,
            movement_heat: self.movement_heat,
            attack_heat: self.attack_heat,
            unit_info: self.unit_info.clone(),
        }
    }
}

} // verus!
