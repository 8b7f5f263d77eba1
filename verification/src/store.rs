//! What the engine asks of the world store.
//!
//! The store itself is durable and lives outside this crate.  The engine
//! reads a snapshot of it and answers with a list of operations for the
//! store to perform.  This module names those operations, says what each one
//! does to a snapshot, and assembles a snapshot from the rows of the store.

use vstd::prelude::*;
use crate::world::{
    Faction, FactionView, Location, LocationView, Npc, NpcView, Player, PlayerView, World,
    WorldState, WorldStateView, WorldView,
};

verus! {

/// Why the store could not serve a request.
#[derive(Clone, Copy, Debug, PartialEq, Eq)]
pub enum StoreError {
    /// A table that must hold the one player or the one world holds no row.
    RowNotFound,
    /// A value would leave the range of a 32-bit integer.
    ValueOutOfRange,
}

/// One mutation of the world store.
#[derive(Clone, Debug, PartialEq, Eq)]
pub enum StoreOp {
    /// Move the player to a location.
    SetPlayerLocation { location_id: i32 },
    /// Add to the prosperity and the safety of every location with this id.
    AdjustLocation { location_id: i32, prosperity: i32, safety: i32 },
    /// Take `amount` from the power of every faction with this id.
    ReduceFactionPower { faction_id: i32, amount: i32 },
    /// Add to the player's reputation.
    AddReputation { amount: i32 },
    /// Replace tension and story phase in one step.
    SetWorld { tension: i32, story_phase: String },
    /// Append an entry to the event log.  The store stamps it with the time
    /// of writing.
    LogEvent { description: String, caused_by: String },
}

/// The view of a `StoreOp`.
pub enum StoreOpView {
    SetPlayerLocation { location_id: int },
    AdjustLocation { location_id: int, prosperity: int, safety: int },
    ReduceFactionPower { faction_id: int, amount: int },
    AddReputation { amount: int },
    SetWorld { tension: int, story_phase: Seq<char> },
    LogEvent { description: Seq<char>, caused_by: Seq<char> },
}

impl View for StoreOp {
    type V = StoreOpView;

    open spec fn view(&self) -> StoreOpView {
        match self {
            StoreOp::SetPlayerLocation { location_id } => StoreOpView::SetPlayerLocation {
                location_id: *location_id as int,
            },
            StoreOp::AdjustLocation { location_id, prosperity, safety } => StoreOpView::AdjustLocation {
                location_id: *location_id as int,
                prosperity: *prosperity as int,
                safety: *safety as int,
            },
            StoreOp::ReduceFactionPower { faction_id, amount } => StoreOpView::ReduceFactionPower {
                faction_id: *faction_id as int,
                amount: *amount as int,
            },
            StoreOp::AddReputation { amount } => StoreOpView::AddReputation { amount: *amount as int },
            StoreOp::SetWorld { tension, story_phase } => StoreOpView::SetWorld {
                tension: *tension as int,
                story_phase: story_phase@,
            },
            StoreOp::LogEvent { description, caused_by } => StoreOpView::LogEvent {
                description: description@,
                caused_by: caused_by@,
            },
        }
    }
}

impl DeepView for StoreOp {
    type V = StoreOpView;

    open spec fn deep_view(&self) -> StoreOpView {
        self@
    }
}

/// Whether `x` is a value of a 32-bit signed integer.
pub open spec fn fits_i32(x: int) -> bool {
    i32::MIN <= x <= i32::MAX
}

/// A location after prosperity and safety of location `id` were raised: the
/// location itself where its id is another.
pub open spec fn adjusted_location(l: LocationView, id: int, prosperity: int, safety: int) -> LocationView {
    if l.id == id {
        LocationView { prosperity: l.prosperity + prosperity, safety: l.safety + safety, ..l }
    } else {
        l
    }
}

/// A faction after the power of faction `id` was reduced: the faction itself
/// where its id is another.
pub open spec fn weakened_faction(f: FactionView, id: int, amount: int) -> FactionView {
    if f.id == id {
        FactionView { power: f.power - amount, ..f }
    } else {
        f
    }
}

impl WorldStateView {
    /// The snapshot after the store has performed `op`.  The event log is no
    /// part of a snapshot, so an entry written to it leaves the snapshot as
    /// it is.
    pub open spec fn apply(self, op: StoreOpView) -> WorldStateView {
        match op {
            StoreOpView::SetPlayerLocation { location_id } => WorldStateView {
                player: PlayerView { location_id, ..self.player },
                ..self
            },
            StoreOpView::AdjustLocation { location_id, prosperity, safety } => WorldStateView {
                locations: self.locations.map_values(
                    |l: LocationView| adjusted_location(l, location_id, prosperity, safety),
                ),
                ..self
            },
            StoreOpView::ReduceFactionPower { faction_id, amount } => WorldStateView {
                factions: self.factions.map_values(
                    |f: FactionView| weakened_faction(f, faction_id, amount),
                ),
                ..self
            },
            StoreOpView::AddReputation { amount } => WorldStateView {
                player: PlayerView { reputation: self.player.reputation + amount, ..self.player },
                ..self
            },
            StoreOpView::SetWorld { tension, story_phase } => WorldStateView {
                world: WorldView { tension, story_phase },
                ..self
            },
            StoreOpView::LogEvent { .. } => self,
        }
    }

    /// The snapshot after the store has performed `ops` in order.
    pub open spec fn apply_all(self, ops: Seq<StoreOpView>) -> WorldStateView
        decreases ops.len(),
    {
        if ops.len() == 0 {
            self
        } else {
            self.apply_all(ops.drop_last()).apply(ops.last())
        }
    }

    /// Whether every number that an operation can change fits a 32-bit
    /// integer.
    pub open spec fn in_range(self) -> bool {
        &&& forall|i: int|
            0 <= i < self.locations.len() ==> fits_i32((#[trigger] self.locations[i]).prosperity)
                && fits_i32(self.locations[i].safety)
        &&& forall|i: int| 0 <= i < self.factions.len() ==> fits_i32((#[trigger] self.factions[i]).power)
        &&& fits_i32(self.player.reputation)
    }
}

/// The entries that `ops` append to the event log, in order, each as its
/// description and its causing actor.
pub open spec fn logged_entries(ops: Seq<StoreOpView>) -> Seq<(Seq<char>, Seq<char>)>
    decreases ops.len(),
{
    if ops.len() == 0 {
        seq![]
    } else {
        match ops.last() {
            StoreOpView::LogEvent { description, caused_by } => logged_entries(ops.drop_last()).push(
                (description, caused_by),
            ),
            _ => logged_entries(ops.drop_last()),
        }
    }
}

/// No list of operations takes an entity away or adds one, and none touches
/// a non-player character.
pub proof fn lemma_apply_all_keeps_entities(state: WorldStateView, ops: Seq<StoreOpView>)
    ensures
        state.apply_all(ops).locations.len() == state.locations.len(),
        state.apply_all(ops).factions.len() == state.factions.len(),
        state.apply_all(ops).npcs == state.npcs,
        state.apply_all(ops).player.id == state.player.id,
    decreases ops.len(),
{
    if ops.len() > 0 {
        lemma_apply_all_keeps_entities(state, ops.drop_last());
    }
}

/// Performing one list of operations and then another is performing the two
/// lists joined.
pub proof fn lemma_apply_all_concat(state: WorldStateView, first: Seq<StoreOpView>, second: Seq<StoreOpView>)
    ensures
        state.apply_all(first + second) == state.apply_all(first).apply_all(second),
    decreases second.len(),
{
    if second.len() > 0 {
        assert((first + second).drop_last() =~= first + second.drop_last());
        lemma_apply_all_concat(state, first, second.drop_last());
    }
}

/// Adds to prosperity and safety of every location with the given id, if
/// every sum fits; otherwise leaves the list as it is.
fn adjust_locations(locations: &mut Vec<Location>, id: i32, prosperity: i32, safety: i32) -> (done: bool)
    ensures
        done <==> (forall|i: int|
            0 <= i < old(locations).len() && (#[trigger] old(locations)[i]).id == id ==> fits_i32(
                old(locations)[i].prosperity + prosperity,
            ) && fits_i32(old(locations)[i].safety + safety)),
        done ==> final(locations).deep_view() == old(locations).deep_view().map_values(
            |l: LocationView| adjusted_location(l, id as int, prosperity as int, safety as int),
        ),
        !done ==> *final(locations) == *old(locations),
{
    let n: usize = locations.len();
    let mut i: usize = 0;
    while i < n
        invariant
            i <= n,
            n == locations.len(),
            forall|k: int|
                0 <= k < i && (#[trigger] locations[k]).id == id ==> fits_i32(
                    locations[k].prosperity + prosperity,
                ) && fits_i32(locations[k].safety + safety),
        decreases n - i,
    {
        if locations[i].id == id {
            if locations[i].prosperity.checked_add(prosperity).is_none()
                || locations[i].safety.checked_add(safety).is_none() {
                return false;
            }
        }
        i += 1;
    }
    let ghost before = *locations;
    let mut i: usize = 0;
    while i < n
        invariant
            i <= n,
            n == locations.len(),
            n == before.len(),
            forall|k: int|
                0 <= k < n && (#[trigger] before[k]).id == id ==> fits_i32(
                    before[k].prosperity + prosperity,
                ) && fits_i32(before[k].safety + safety),
            forall|k: int|
                0 <= k < i ==> (#[trigger] locations[k])@ == adjusted_location(
                    before[k]@,
                    id as int,
                    prosperity as int,
                    safety as int,
                ),
            forall|k: int| i <= k < n ==> #[trigger] locations[k] == before[k],
        decreases n - i,
    {
        if locations[i].id == id {
            let raised_prosperity: i32 = locations[i].prosperity + prosperity;
            let raised_safety: i32 = locations[i].safety + safety;
            locations[i].prosperity = raised_prosperity;
            locations[i].safety = raised_safety;
        }
        i += 1;
    }
    true
}

/// Takes `amount` from the power of every faction with the given id, if
/// every difference fits; otherwise leaves the list as it is.
fn weaken_factions(factions: &mut Vec<Faction>, id: i32, amount: i32) -> (done: bool)
    ensures
        done <==> (forall|i: int|
            0 <= i < old(factions).len() && (#[trigger] old(factions)[i]).id == id ==> fits_i32(
                old(factions)[i].power - amount,
            )),
        done ==> final(factions).deep_view() == old(factions).deep_view().map_values(
            |f: FactionView| weakened_faction(f, id as int, amount as int),
        ),
        !done ==> *final(factions) == *old(factions),
{
    let n: usize = factions.len();
    let mut i: usize = 0;
    while i < n
        invariant
            i <= n,
            n == factions.len(),
            forall|k: int|
                0 <= k < i && (#[trigger] factions[k]).id == id ==> fits_i32(factions[k].power - amount),
        decreases n - i,
    {
        if factions[i].id == id {
            if factions[i].power.checked_sub(amount).is_none() {
                return false;
            }
        }
        i += 1;
    }
    let ghost before = *factions;
    let mut i: usize = 0;
    while i < n
        invariant
            i <= n,
            n == factions.len(),
            n == before.len(),
            forall|k: int|
                0 <= k < n && (#[trigger] before[k]).id == id ==> fits_i32(before[k].power - amount),
            forall|k: int|
                0 <= k < i ==> (#[trigger] factions[k])@ == weakened_faction(
                    before[k]@,
                    id as int,
                    amount as int,
                ),
            forall|k: int| i <= k < n ==> #[trigger] factions[k] == before[k],
        decreases n - i,
    {
        if factions[i].id == id {
            let reduced: i32 = factions[i].power - amount;
            factions[i].power = reduced;
        }
        i += 1;
    }
    true
}

impl WorldState {
    /// Performs `op` on this snapshot, as the store performs it on its
    /// records.  Where a number would leave the range of a 32-bit integer,
    /// nothing is changed and the operation is refused.
    pub fn apply(&mut self, op: &StoreOp) -> (res: Result<(), StoreError>)
        ensures
            res is Ok <==> old(self)@.apply(op@).in_range(),
            res is Ok ==> final(self)@ == old(self)@.apply(op@),
            res is Err ==> res == Err::<(), StoreError>(StoreError::ValueOutOfRange) && *final(self)
                == *old(self),
    {
        let ghost before = self@;
        let ghost after = before.apply(op@);
        match op {
            StoreOp::SetPlayerLocation { location_id } => {
                self.player.location_id = *location_id;
                assert(after.in_range());
                Ok(())
            },
            StoreOp::AdjustLocation { location_id, prosperity, safety } => {
                let done = adjust_locations(&mut self.locations, *location_id, *prosperity, *safety);
                if done {
                    assert(after.in_range());
                    Ok(())
                } else {
                    assert(!after.in_range()) by {
                        let i = choose|i: int|
                            0 <= i < old(self).locations.len() && (#[trigger] old(self).locations[i]).id
                                == *location_id && !(fits_i32(
                                old(self).locations[i].prosperity + *prosperity,
                            ) && fits_i32(old(self).locations[i].safety + *safety));
                        assert(!(fits_i32(after.locations[i].prosperity) && fits_i32(
                            after.locations[i].safety,
                        )));
                    }
                    Err(StoreError::ValueOutOfRange)
                }
            },
            StoreOp::ReduceFactionPower { faction_id, amount } => {
                let done = weaken_factions(&mut self.factions, *faction_id, *amount);
                if done {
                    assert(after.in_range());
                    Ok(())
                } else {
                    assert(!after.in_range()) by {
                        let i = choose|i: int|
                            0 <= i < old(self).factions.len() && (#[trigger] old(self).factions[i]).id
                                == *faction_id && !fits_i32(old(self).factions[i].power - *amount);
                        assert(!fits_i32(after.factions[i].power));
                    }
                    Err(StoreError::ValueOutOfRange)
                }
            },
            StoreOp::AddReputation { amount } => {
                match self.player.reputation.checked_add(*amount) {
                    Some(reputation) => {
                        self.player.reputation = reputation;
                        assert(after.in_range());
                        Ok(())
                    },
                    None => Err(StoreError::ValueOutOfRange),
                }
            },
            StoreOp::SetWorld { tension, story_phase } => {
                self.world.tension = *tension;
                self.world.story_phase = story_phase.clone();
                Ok(())
            },
            StoreOp::LogEvent { .. } => {
                Ok(())
            },
        }
    }
}

/// The snapshot made of the rows of the five tables: the first player row
/// and the first world row stand for the one player and the one world.
pub open spec fn snapshot_of(
    locations: Seq<LocationView>,
    factions: Seq<FactionView>,
    npcs: Seq<NpcView>,
    players: Seq<PlayerView>,
    worlds: Seq<WorldView>,
) -> Result<WorldStateView, StoreError> {
    if players.len() == 0 || worlds.len() == 0 {
        Err(StoreError::RowNotFound)
    } else {
        Ok(WorldStateView { locations, factions, npcs, player: players[0], world: worlds[0] })
    }
}

/// What reading a snapshot gave, with the snapshot taken by its view.
pub open spec fn snapshot_view(read: Result<WorldState, StoreError>) -> Result<WorldStateView, StoreError> {
    match read {
        Ok(state) => Ok(state@),
        Err(e) => Err(e),
    }
}

/// Assembles the snapshot of the world from the rows that were read from the
/// store's tables.  The result is a function of the rows alone: reading the
/// same rows again gives the same snapshot.  A store without a player row or
/// without a world row has no snapshot.
pub fn get_world_state(
    locations: Vec<Location>,
    factions: Vec<Faction>,
    npcs: Vec<Npc>,
    players: Vec<Player>,
    worlds: Vec<World>,
) -> (res: Result<WorldState, StoreError>)
    ensures
        snapshot_of(
            locations.deep_view(),
            factions.deep_view(),
            npcs.deep_view(),
            players.deep_view(),
            worlds.deep_view(),
        ) == snapshot_view(res),
{
    let mut players = players;
    let mut worlds = worlds;
    if players.len() == 0 || worlds.len() == 0 {
        return Err(StoreError::RowNotFound);
    }
    let player = players.swap_remove(0);
    let world = worlds.swap_remove(0);
    Ok(WorldState { locations, factions, npcs, player, world })
}

/// Reading is repeatable: two snapshots made of the same rows are the same,
/// and so are two refusals.
pub proof fn lemma_reading_twice_gives_the_same_snapshot(
    locations: Seq<LocationView>,
    factions: Seq<FactionView>,
    npcs: Seq<NpcView>,
    players: Seq<PlayerView>,
    worlds: Seq<WorldView>,
    first: Result<WorldState, StoreError>,
    second: Result<WorldState, StoreError>,
)
    requires
        snapshot_of(locations, factions, npcs, players, worlds) == snapshot_view(first),
        snapshot_of(locations, factions, npcs, players, worlds) == snapshot_view(second),
    ensures
        snapshot_view(first) == snapshot_view(second),
        first is Ok <==> players.len() > 0 && worlds.len() > 0,
{
}

/// Adds an entry for the event log to a list of operations.
pub fn log_event(ops: &mut Vec<StoreOp>, description: String, caused_by: &str)
    ensures
        final(ops).deep_view() == old(ops).deep_view().push(
            StoreOpView::LogEvent { description: description@, caused_by: caused_by@ },
        ),
{
    ops.push(StoreOp::LogEvent { description, caused_by: caused_by.to_owned() });
}

/// The world at the start of the story: the capital and a village, the
/// royal guard and the bandits, the king, the player in the capital, and
/// little tension.
pub open spec fn initial_world() -> WorldStateView {
    WorldStateView {
        locations: seq![
            LocationView { id: 1, name: "Capital"@, prosperity: 80, safety: 90 },
            LocationView { id: 2, name: "Willowbrook"@, prosperity: 50, safety: 60 },
        ],
        factions: seq![
            FactionView { id: 1, name: "Royal Guard"@, power: 70, relation: "Friendly"@ },
            FactionView { id: 2, name: "Bandits"@, power: 30, relation: "Hostile"@ },
        ],
        npcs: seq![
            NpcView { id: 1, name: "King Alric"@, role: "Ruler"@, status: "Alive"@, location_id: 1 },
        ],
        player: PlayerView { id: 1, location_id: 1, reputation: 50 },
        world: WorldView { tension: 20, story_phase: "Build-Up"@ },
    }
}

/// The records that an empty store is seeded with, as a snapshot.
pub fn populate_initial_data() -> (state: WorldState)
    ensures
        state@ == initial_world(),
{
    let mut locations: Vec<Location> = Vec::new();
    locations.push(Location { id: 1, name: "Capital".to_owned(), prosperity: 80, safety: 90 });
    locations.push(Location { id: 2, name: "Willowbrook".to_owned(), prosperity: 50, safety: 60 });
    let mut factions: Vec<Faction> = Vec::new();
    factions.push(
        Faction { id: 1, name: "Royal Guard".to_owned(), power: 70, relation: "Friendly".to_owned() },
    );
    factions.push(Faction { id: 2, name: "Bandits".to_owned(), power: 30, relation: "Hostile".to_owned() });
    let mut npcs: Vec<Npc> = Vec::new();
    npcs.push(
        Npc {
            id: 1,
            name: "King Alric".to_owned(),
            role: "Ruler".to_owned(),
            status: "Alive".to_owned(),
            location_id: 1,
        },
    );
    let state = WorldState {
        locations,
        factions,
        npcs,
        player: Player { id: 1, location_id: 1, reputation: 50 },
        world: World { tension: 20, story_phase: "Build-Up".to_owned() },
    };
    assert(state@.locations =~= initial_world().locations);
    assert(state@.factions =~= initial_world().factions);
    assert(state@.npcs =~= initial_world().npcs);
    state
}

} // verus!
