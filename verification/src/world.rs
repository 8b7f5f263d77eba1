//! The entities of the world, as the engine reads them from the world store.
//!
//! Each entity has a view: the same record over mathematical integers and
//! sequences of characters.  Contracts speak of views.

use vstd::prelude::*;

verus! {

/// A place in the world.
#[derive(Clone, Debug, PartialEq, Eq)]
pub struct Location {
    pub id: i32,
    pub name: String,
    pub prosperity: i32,
    pub safety: i32,
}

/// A faction and its standing.
#[derive(Clone, Debug, PartialEq, Eq)]
pub struct Faction {
    pub id: i32,
    pub name: String,
    pub power: i32,
    pub relation: String,
}

/// A non-player character.  The engine carries these along and never
/// changes them.
#[derive(Clone, Debug, PartialEq, Eq)]
pub struct Npc {
    pub id: i32,
    pub name: String,
    pub role: String,
    pub status: String,
    pub location_id: i32,
}

/// The player: there is exactly one.
#[derive(Clone, Debug, PartialEq, Eq)]
pub struct Player {
    pub id: i32,
    pub location_id: i32,
    pub reputation: i32,
}

/// The global state of the story: there is exactly one.
#[derive(Clone, Debug, PartialEq, Eq)]
pub struct World {
    pub tension: i32,
    pub story_phase: String,
}

/// A snapshot of every entity of the world.
#[derive(Clone, Debug, PartialEq, Eq)]
pub struct WorldState {
    pub locations: Vec<Location>,
    pub factions: Vec<Faction>,
    pub npcs: Vec<Npc>,
    pub player: Player,
    pub world: World,
}

/// The view of a `Location`.
pub struct LocationView {
    pub id: int,
    pub name: Seq<char>,
    pub prosperity: int,
    pub safety: int,
}

/// The view of a `Faction`.
pub struct FactionView {
    pub id: int,
    pub name: Seq<char>,
    pub power: int,
    pub relation: Seq<char>,
}

/// The view of an `Npc`.
pub struct NpcView {
    pub id: int,
    pub name: Seq<char>,
    pub role: Seq<char>,
    pub status: Seq<char>,
    pub location_id: int,
}

/// The view of a `Player`.
pub struct PlayerView {
    pub id: int,
    pub location_id: int,
    pub reputation: int,
}

/// The view of a `World`.
pub struct WorldView {
    pub tension: int,
    pub story_phase: Seq<char>,
}

/// The view of a `WorldState`.
pub struct WorldStateView {
    pub locations: Seq<LocationView>,
    pub factions: Seq<FactionView>,
    pub npcs: Seq<NpcView>,
    pub player: PlayerView,
    pub world: WorldView,
}

impl View for Location {
    type V = LocationView;

    open spec fn view(&self) -> LocationView {
        LocationView {
            id: self.id as int,
            name: self.name@,
            prosperity: self.prosperity as int,
            safety: self.safety as int,
        }
    }
}

impl DeepView for Location {
    type V = LocationView;

    open spec fn deep_view(&self) -> LocationView {
        self@
    }
}

impl View for Faction {
    type V = FactionView;

    open spec fn view(&self) -> FactionView {
        FactionView {
            id: self.id as int,
            name: self.name@,
            power: self.power as int,
            relation: self.relation@,
        }
    }
}

impl DeepView for Faction {
    type V = FactionView;

    open spec fn deep_view(&self) -> FactionView {
        self@
    }
}

impl View for Npc {
    type V = NpcView;

    open spec fn view(&self) -> NpcView {
        NpcView {
            id: self.id as int,
            name: self.name@,
            role: self.role@,
            status: self.status@,
            location_id: self.location_id as int,
        }
    }
}

impl DeepView for Npc {
    type V = NpcView;

    open spec fn deep_view(&self) -> NpcView {
        self@
    }
}

impl View for Player {
    type V = PlayerView;

    open spec fn view(&self) -> PlayerView {
        PlayerView {
            id: self.id as int,
            location_id: self.location_id as int,
            reputation: self.reputation as int,
        }
    }
}

impl DeepView for Player {
    type V = PlayerView;

    open spec fn deep_view(&self) -> PlayerView {
        self@
    }
}

impl View for World {
    type V = WorldView;

    open spec fn view(&self) -> WorldView {
        WorldView { tension: self.tension as int, story_phase: self.story_phase@ }
    }
}

impl DeepView for World {
    type V = WorldView;

    open spec fn deep_view(&self) -> WorldView {
        self@
    }
}

impl View for WorldState {
    type V = WorldStateView;

    open spec fn view(&self) -> WorldStateView {
        WorldStateView {
            locations: self.locations.deep_view(),
            factions: self.factions.deep_view(),
            npcs: self.npcs.deep_view(),
            player: self.player@,
            world: self.world@,
        }
    }
}

impl DeepView for WorldState {
    type V = WorldStateView;

    open spec fn deep_view(&self) -> WorldStateView {
        self@
    }
}

} // verus!
