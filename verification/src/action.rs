//! Player actions: decoding a request, and the store operations that an
//! action asks for.

use vstd::prelude::*;
use vstd::string::StringExecFns;
use crate::store::{
    adjusted_location, fits_i32, log_event, logged_entries, weakened_faction, StoreOp, StoreOpView,
};
use crate::text::{decimal_text, push_decimal, same_text};
use crate::world::{FactionView, LocationView, PlayerView, WorldStateView};

verus! {

/// What the player does.
#[derive(Clone, Debug, PartialEq, Eq)]
pub enum Action {
    /// Go to a location.
    Move,
    /// Help a location.
    Help,
    /// Fight a faction.
    Fight,
    /// Anything else, under the label it came with.  It changes nothing in
    /// the store and is no error.
    Other(String),
}

/// A decoded action request.
#[derive(Clone, Debug, PartialEq, Eq)]
pub struct ActionRequest {
    pub action: Action,
    /// A location for `Move` and `Help`, a faction for `Fight`.
    pub target: i32,
    /// The factor by which the effect of the action is scaled.  It is meant
    /// to be positive, but any value is taken: zero scales the effect to
    /// nothing, a negative value turns it round.
    pub magnitude: i32,
    /// The actor that the log names as the cause.
    pub caused_by: String,
}

/// The view of an `Action`.
pub enum ActionView {
    Move,
    Help,
    Fight,
    Other(Seq<char>),
}

/// The view of an `ActionRequest`.
pub struct ActionRequestView {
    pub action: ActionView,
    pub target: int,
    pub magnitude: int,
    pub caused_by: Seq<char>,
}

impl View for Action {
    type V = ActionView;

    open spec fn view(&self) -> ActionView {
        match self {
            Action::Move => ActionView::Move,
            Action::Help => ActionView::Help,
            Action::Fight => ActionView::Fight,
            Action::Other(label) => ActionView::Other(label@),
        }
    }
}

impl View for ActionRequest {
    type V = ActionRequestView;

    open spec fn view(&self) -> ActionRequestView {
        ActionRequestView {
            action: self.action@,
            target: self.target as int,
            magnitude: self.magnitude as int,
            caused_by: self.caused_by@,
        }
    }
}

/// The action that a label names.
pub open spec fn action_of_label(label: Seq<char>) -> ActionView {
    if label == "move"@ {
        ActionView::Move
    } else if label == "help"@ {
        ActionView::Help
    } else if label == "fight"@ {
        ActionView::Fight
    } else {
        ActionView::Other(label)
    }
}

/// The request that the four fields of a payload stand for, each field
/// optional.  A missing action is the empty label, a missing target is 0, a
/// missing magnitude is 1 and a missing actor is "Player".  Target and
/// magnitude keep their low 32 bits.
pub open spec fn decoded_request(
    action: Option<Seq<char>>,
    target: Option<i64>,
    magnitude: Option<i64>,
    caused_by: Option<Seq<char>>,
) -> ActionRequestView {
    ActionRequestView {
        action: action_of_label(
            match action {
                Some(label) => label,
                None => Seq::<char>::empty(),
            },
        ),
        target: match target {
            Some(t) => (t as i32) as int,
            None => 0,
        },
        magnitude: match magnitude {
            Some(m) => (m as i32) as int,
            None => 1,
        },
        caused_by: match caused_by {
            Some(actor) => actor,
            None => "Player"@,
        },
    }
}

/// The line that the log gets for an action on `target`.
pub open spec fn action_log_text(action: ActionView, target: int) -> Seq<char> {
    match action {
        ActionView::Move => "Knight moved to location "@ + decimal_text(target),
        ActionView::Help => "Knight helped location "@ + decimal_text(target)
            + ", increasing prosperity and safety"@,
        ActionView::Fight => "Knight fought faction "@ + decimal_text(target)
            + ", reducing their power"@,
        ActionView::Other(_) => Seq::<char>::empty(),
    }
}

/// The operations that an action asks of the store, in the order in which
/// the store is to perform them.
///
/// - Move: the player goes to the target; one log entry.
/// - Help: prosperity and safety of the target rise by ten times the
///   magnitude, the player's reputation by five times; one log entry.
/// - Fight: the power of the target falls by ten times the magnitude, the
///   player's reputation rises by three times; one log entry.
/// - Anything else: nothing.
pub open spec fn action_ops(request: ActionRequestView) -> Seq<StoreOpView> {
    let entry = StoreOpView::LogEvent {
        description: action_log_text(request.action, request.target),
        caused_by: request.caused_by,
    };
    match request.action {
        ActionView::Move => seq![StoreOpView::SetPlayerLocation { location_id: request.target }, entry],
        ActionView::Help => seq![
            StoreOpView::AdjustLocation {
                location_id: request.target,
                prosperity: 10 * request.magnitude,
                safety: 10 * request.magnitude,
            },
            StoreOpView::AddReputation { amount: 5 * request.magnitude },
            entry,
        ],
        ActionView::Fight => seq![
            StoreOpView::ReduceFactionPower { faction_id: request.target, amount: 10 * request.magnitude },
            StoreOpView::AddReputation { amount: 3 * request.magnitude },
            entry,
        ],
        ActionView::Other(_) => Seq::<StoreOpView>::empty(),
    }
}

/// Whether the amounts that the action asks for fit 32-bit integers.
pub open spec fn action_in_range(request: ActionRequestView) -> bool {
    match request.action {
        ActionView::Help | ActionView::Fight => fits_i32(10 * request.magnitude),
        _ => true,
    }
}

/// Where the player is once the store has performed the action.
pub open spec fn location_after(request: ActionRequestView, location_id: int) -> int {
    match request.action {
        ActionView::Move => request.target,
        _ => location_id,
    }
}

impl Action {
    /// Reads an action from its label: "move", "help" or "fight"; any other
    /// label is kept as it is.
    pub fn from_label(label: &str) -> (action: Action)
        ensures
            action@ == action_of_label(label@),
    {
        if same_text(label, "move") {
            Action::Move
        } else if same_text(label, "help") {
            Action::Help
        } else if same_text(label, "fight") {
            Action::Fight
        } else {
            Action::Other(label.to_owned())
        }
    }
}

impl ActionRequest {
    /// Decodes a request from the four fields of a payload, filling in the
    /// default of each field that is missing.
    pub fn decode(
        action: Option<&str>,
        target: Option<i64>,
        magnitude: Option<i64>,
        caused_by: Option<&str>,
    ) -> (request: ActionRequest)
        ensures
            request@ == decoded_request(
                match action {
                    Some(label) => Some(label@),
                    None => None,
                },
                target,
                magnitude,
                match caused_by {
                    Some(actor) => Some(actor@),
                    None => None,
                },
            ),
    {
        proof {
            reveal_strlit("");
        }
        let action = match action {
            Some(label) => Action::from_label(label),
            None => {
                let empty = "";
                assert(empty@ =~= Seq::<char>::empty());
                Action::from_label(empty)
            },
        };
        let target: i32 = match target {
            Some(t) => #[verifier::truncate]
            (t as i32),
            None => 0,
        };
        let magnitude: i32 = match magnitude {
            Some(m) => #[verifier::truncate]
            (m as i32),
            None => 1,
        };
        let caused_by = match caused_by {
            Some(actor) => actor.to_owned(),
            None => "Player".to_owned(),
        };
        ActionRequest { action, target, magnitude, caused_by }
    }
}

/// Writes the line that the log gets for an action on `target`.
fn action_log_line(action: &Action, target: i32) -> (line: String)
    ensures
        line@ == action_log_text(action@, target as int),
{
    match action {
        Action::Move => {
            let mut line = String::from_str("Knight moved to location ");
            push_decimal(&mut line, target);
            line
        },
        Action::Help => {
            let mut line = String::from_str("Knight helped location ");
            push_decimal(&mut line, target);
            line.append(", increasing prosperity and safety");
            line
        },
        Action::Fight => {
            let mut line = String::from_str("Knight fought faction ");
            push_decimal(&mut line, target);
            line.append(", reducing their power");
            line
        },
        Action::Other(_) => String::new(),
    }
}

/// Lists the operations that the request asks of the store.  A magnitude so
/// large that ten times its value leaves the 32-bit range has no such list.
pub fn plan_action(request: &ActionRequest) -> (planned: Option<Vec<StoreOp>>)
    ensures
        planned is Some <==> action_in_range(request@),
        planned matches Some(ops) ==> ops.deep_view() == action_ops(request@),
{
    let mut ops: Vec<StoreOp> = Vec::new();
    match &request.action {
        Action::Move => {
            ops.push(StoreOp::SetPlayerLocation { location_id: request.target });
        },
        Action::Help => {
            let tenfold: i32 = match request.magnitude.checked_mul(10) {
                Some(amount) => amount,
                None => {
                    return None;
                },
            };
            ops.push(
                StoreOp::AdjustLocation {
                    location_id: request.target,
                    prosperity: tenfold,
                    safety: tenfold,
                },
            );
            ops.push(StoreOp::AddReputation { amount: 5 * request.magnitude });
        },
        Action::Fight => {
            let tenfold: i32 = match request.magnitude.checked_mul(10) {
                Some(amount) => amount,
                None => {
                    return None;
                },
            };
            ops.push(StoreOp::ReduceFactionPower { faction_id: request.target, amount: tenfold });
            ops.push(StoreOp::AddReputation { amount: 3 * request.magnitude });
        },
        Action::Other(_) => {
            return Some(ops);
        },
    }
    log_event(&mut ops, action_log_line(&request.action, request.target), request.caused_by.as_str());
    assert(ops.deep_view() =~= action_ops(request@));
    Some(ops)
}

/// Helping raises prosperity and safety of the target by ten times the
/// magnitude and the player's reputation by five times, and writes exactly
/// one log entry; everything else stays as it was.
pub proof fn lemma_help_raises_the_target(state: WorldStateView, request: ActionRequestView)
    requires
        request.action is Help,
    ensures
        state.apply_all(action_ops(request)) == (WorldStateView {
            locations: state.locations.map_values(
                |l: LocationView|
                    adjusted_location(l, request.target, 10 * request.magnitude, 10 * request.magnitude),
            ),
            player: PlayerView {
                reputation: state.player.reputation + 5 * request.magnitude,
                ..state.player
            },
            ..state
        }),
        logged_entries(action_ops(request)) == seq![
            (action_log_text(request.action, request.target), request.caused_by),
        ],
{
    reveal_with_fuel(WorldStateView::apply_all, 4);
    reveal_with_fuel(logged_entries, 4);
}

/// Fighting takes ten times the magnitude from the power of the target,
/// raises the player's reputation by three times the magnitude, and writes
/// exactly one log entry; everything else stays as it was.
pub proof fn lemma_fight_weakens_the_target(state: WorldStateView, request: ActionRequestView)
    requires
        request.action is Fight,
    ensures
        state.apply_all(action_ops(request)) == (WorldStateView {
            factions: state.factions.map_values(
                |f: FactionView| weakened_faction(f, request.target, 10 * request.magnitude),
            ),
            player: PlayerView {
                reputation: state.player.reputation + 3 * request.magnitude,
                ..state.player
            },
            ..state
        }),
        logged_entries(action_ops(request)) == seq![
            (action_log_text(request.action, request.target), request.caused_by),
        ],
{
    reveal_with_fuel(WorldStateView::apply_all, 4);
    reveal_with_fuel(logged_entries, 4);
}

/// Any other action asks nothing of the store: no entity changes and nothing
/// is logged.
pub proof fn lemma_other_actions_change_nothing(state: WorldStateView, request: ActionRequestView)
    requires
        request.action is Other,
    ensures
        state.apply_all(action_ops(request)) == state,
        logged_entries(action_ops(request)) == Seq::<(Seq<char>, Seq<char>)>::empty(),
{
}

/// A move takes the player to the target and writes exactly one log entry;
/// every other entity of the world stays as it was.
pub proof fn lemma_move_changes_only_the_players_location(state: WorldStateView, request: ActionRequestView)
    requires
        request.action is Move,
    ensures
        state.apply_all(action_ops(request)) == (WorldStateView {
            player: PlayerView { location_id: request.target, ..state.player },
            ..state
        }),
        logged_entries(action_ops(request)) == seq![
            (action_log_text(request.action, request.target), request.caused_by),
        ],
{
    reveal_with_fuel(WorldStateView::apply_all, 3);
    reveal_with_fuel(logged_entries, 3);
}

} // verus!
