//! What holds of every unit and of every stat record.

use vstd::prelude::*;

use crate::location::MapLocation;
use crate::research::Level;
use crate::unit::{UnitID, UnitInfoView, UnitType, UnitView};
use crate::world::Team;

verus! {

impl UnitInfoView {
    /// The record of a kind at one of its tiers is well formed, of that kind
    /// and at that tier.
    pub proof fn lemma_at_level_wf(kind: UnitType, level: Level)
        requires
            level <= kind.max_level(),
        ensures
            Self::at_level(kind, level).wf(),
            Self::at_level(kind, level).unit_type() == kind,
            Self::at_level(kind, level).level() == level,
    {
    }

    /// Research is monotonic: from one tier of a kind to the next, no stat
    /// falls.
    pub proof fn lemma_research_monotonic(kind: UnitType, level: Level)
        requires
            level < kind.max_level(),
        ensures
            Self::at_level(kind, (level + 1) as Level).improves_on(&Self::at_level(kind, level)),
    {
    }

    /// Research of a well-formed record below its kind's last tier gives a
    /// well-formed record of the same kind, one tier higher, in which no
    /// stat has fallen.
    pub proof fn lemma_research_improves(info: UnitInfoView)
        requires
            info.wf(),
            info.level() < info.unit_type().max_level(),
        ensures
            info.researched().wf(),
            info.researched().unit_type() == info.unit_type(),
            info.researched().level() == info.level() + 1,
            info.researched().improves_on(&info),
    {
    }

    /// Researching the record of a kind before any research `level` times
    /// gives the record of the kind at that tier.
    pub proof fn lemma_research_replay(kind: UnitType, level: Level)
        requires
            level <= kind.max_level(),
        ensures
            Self::at_level(kind, 0).researched_times(level as nat) == Self::at_level(kind, level),
        decreases level,
    {
        if level > 0 {
            Self::lemma_research_replay(kind, (level - 1) as Level);
        }
    }
}

impl UnitView {
    /// Every unit that is built at a tier of its kind is well formed: its
    /// type is the kind of its record.
    pub proof fn lemma_spawned_wf(id: UnitID, team: Team, kind: UnitType, level: Level)
        requires
            level <= kind.max_level(),
        ensures
            Self::spawned(id, team, kind, level).wf(),
            Self::spawned(id, team, kind, level).unit_info.unit_type() == kind,
    {
    }

    /// A factory and a rocket are built with exactly a quarter of the
    /// maximum health of their tier, every other kind with all of it.
    pub proof fn lemma_spawn_health(id: UnitID, team: Team, kind: UnitType, level: Level)
        requires
            level <= kind.max_level(),
        ensures
            kind is Factory || kind is Rocket ==> 4 * Self::spawned(id, team, kind, level).health
                == Self::spawned(id, team, kind, level).unit_info.max_health(),
            !(kind is Factory || kind is Rocket) ==> Self::spawned(id, team, kind, level).health
                == Self::spawned(id, team, kind, level).unit_info.max_health(),
    {
    }

    /// Building a unit at a tier gives the same unit as building it before
    /// any research and researching that many times; and each of these
    /// research steps starts below the last tier of the kind.
    pub proof fn lemma_research_replay(id: UnitID, team: Team, kind: UnitType, level: Level)
        requires
            level <= kind.max_level(),
        ensures
            Self::spawned(id, team, kind, 0).researched_times(level as nat) == Self::spawned(
                id,
                team,
                kind,
                level,
            ),
            forall|done: nat|
                done < level ==> (#[trigger] Self::spawned(id, team, kind, 0).researched_times(
                    done,
                )).unit_info.level() < kind.max_level(),
        decreases level,
    {
        if level > 0 {
            let before = (level - 1) as Level;
            Self::lemma_research_replay(id, team, kind, before);
            assert forall|done: nat| done < level implies (#[trigger] Self::spawned(
                id,
                team,
                kind,
                0,
            ).researched_times(done)).unit_info.level() < kind.max_level() by {
                if done == before {
                } else {
                }
            }
        }
    }

    /// The kind of a unit never changes and the unit stays well formed:
    /// whatever is done to a well-formed unit, its type stays what it was
    /// and stays the kind of its record.
    pub proof fn lemma_wf_preserved(unit: UnitView, damage: u32, location: Option<MapLocation>)
        requires
            unit.wf(),
        ensures
            unit.damaged(damage).wf(),
            unit.damaged(damage).unit_type == unit.unit_type,
            unit.after_round().wf(),
            unit.after_round().unit_type == unit.unit_type,
            (UnitView { location, ..unit }).wf(),
            unit.unit_info.level() < unit.unit_type.max_level() ==> {
                &&& unit.researched().wf()
                &&& unit.researched().unit_type == unit.unit_type
            },
    {
    }
}

} // verus!
