//! The world-progression engine.
//!
//! The engine reads a snapshot of the world and a player's action and
//! answers with an `Outcome`: the operations that the store is to perform,
//! in order, and the response for the caller.  It never touches the store
//! itself, so a failure leaves nothing half done.

use vstd::prelude::*;
use crate::action::{
    action_in_range, action_ops, location_after, plan_action, Action, ActionRequest,
    ActionRequestView,
};
use crate::catalog::{
    matching_templates, narrative_for, narrative_of, templates_for_phase, Effect, EventTemplate,
    EventTemplateView, PhaseNarrative, PhaseNarrativeView,
};
use crate::phase::{
    following_phase, is_known_phase, knows_phase, lemma_next_phase_is_known,
    lemma_standard_thresholds_are_terminal, next_phase, raise_tension, raised_tension,
    standard_phase_thresholds, standard_thresholds, PhaseThreshold, PhaseThresholdView, MAX_TENSION,
    MIN_TENSION,
};
use crate::random::draw_in_range;
use crate::store::{adjusted_location, lemma_apply_all_concat, log_event, StoreOp, StoreOpView};
use crate::text::{replace_text, str_replaced};
use crate::world::{Faction, FactionView, Location, LocationView, WorldState, WorldStateView, WorldView};

verus! {

/// Why the engine could not answer.
#[derive(Clone, Copy, Debug, PartialEq, Eq)]
pub enum EngineError {
    /// Ten times the magnitude of the action leaves the 32-bit range.
    MagnitudeOutOfRange,
    /// The template pick is not an index into the templates of the phase.
    TemplatePickOutOfRange,
    /// No location has the id of the place where the player is.
    UnknownPlayerLocation,
    /// The faction pick is not an index into the factions of the world.
    FactionPickOutOfRange,
}

/// Why a catalog was refused.
#[derive(Clone, Copy, Debug, PartialEq, Eq)]
pub enum ConfigurationError {
    /// The template at this index is bound to a phase that the state machine
    /// does not have.
    UnknownPhase { template: usize },
}

/// What the caller is told: the events that took place and the narrative
/// line of the phase.
#[derive(Clone, Debug, PartialEq, Eq)]
pub struct EventResponse {
    pub events: Vec<String>,
    pub narrative: String,
}

/// The engine's answer to a request.
#[derive(Clone, Debug, PartialEq, Eq)]
pub struct Outcome {
    /// The operations for the store, in the order in which it is to perform
    /// them, as one atomic unit.
    pub ops: Vec<StoreOp>,
    /// The update expression of the selected template's effect, with its
    /// placeholders resolved.  The store performs it after `ops`.  What it
    /// does to the world is the store's business: no snapshot in this crate
    /// reflects it.
    pub effect: Option<String>,
    pub response: EventResponse,
}

/// The view of an `EventResponse`.
pub struct EventResponseView {
    pub events: Seq<Seq<char>>,
    pub narrative: Seq<char>,
}

/// The view of an `Outcome`.
pub struct OutcomeView {
    pub ops: Seq<StoreOpView>,
    pub effect: Option<Seq<char>>,
    pub response: EventResponseView,
}

impl View for EventResponse {
    type V = EventResponseView;

    open spec fn view(&self) -> EventResponseView {
        EventResponseView { events: self.events.deep_view(), narrative: self.narrative@ }
    }
}

impl View for Outcome {
    type V = OutcomeView;

    open spec fn view(&self) -> OutcomeView {
        OutcomeView {
            ops: self.ops.deep_view(),
            effect: self.effect.deep_view(),
            response: self.response@,
        }
    }
}

/// An answer of the engine, with the outcome taken by its view.
pub open spec fn answer_view(answer: Result<Outcome, EngineError>) -> Result<OutcomeView, EngineError> {
    match answer {
        Ok(outcome) => Ok(outcome@),
        Err(e) => Err(e),
    }
}

/// The narrative line of a moment without an event.
pub open spec fn quiet_narrative() -> Seq<char> {
    "The kingdom is quiet for now..."@
}

/// The actor that the log names for the events of the engine.
pub open spec fn system_actor() -> Seq<char> {
    "System"@
}

/// The outcome of a moment without an event: no operation, no effect, no
/// event, and the quiet narrative.
pub open spec fn quiet_outcome() -> OutcomeView {
    OutcomeView {
        ops: Seq::<StoreOpView>::empty(),
        effect: None,
        response: EventResponseView {
            events: Seq::<Seq<char>>::empty(),
            narrative: quiet_narrative(),
        },
    }
}

/// The name of the first location with the given id.
pub open spec fn location_name(locations: Seq<LocationView>, id: int) -> Option<Seq<char>>
    decreases locations.len(),
{
    if locations.len() == 0 {
        None
    } else if locations[0].id == id {
        Some(locations[0].name)
    } else {
        location_name(locations.drop_first(), id)
    }
}

/// A template's description with the location placeholder and then the
/// faction placeholder replaced.
pub open spec fn resolved_description(description: Seq<char>, location: Seq<char>, faction: Seq<char>) -> Seq<
    char,
> {
    str_replaced(str_replaced(description, "{location}"@, location), "{faction}"@, faction)
}

/// An effect's update expression with each of its placeholders, in order,
/// replaced by the name of the location.
pub open spec fn resolved_effect(query: Seq<char>, params: Seq<Seq<char>>, location: Seq<char>) -> Seq<char>
    decreases params.len(),
{
    if params.len() == 0 {
        query
    } else {
        str_replaced(resolved_effect(query, params.drop_last(), location), params.last(), location)
    }
}

/// The outcome of an event: one log entry with the description, caused by
/// the system; the effect; and a response that names the description as its
/// one event.
pub open spec fn assembled_event(description: Seq<char>, effect: Option<Seq<char>>, narrative: Seq<char>) -> OutcomeView {
    OutcomeView {
        ops: seq![StoreOpView::LogEvent { description, caused_by: system_actor() }],
        effect,
        response: EventResponseView { events: seq![description], narrative },
    }
}

/// What event generation answers, given the catalog, the parts of the world
/// that it reads, and the two picks.
///
/// Without a template for the phase the moment is quiet.  Otherwise the
/// picked template is resolved with the name of the player's location and
/// the name of the picked faction.  A pick outside its list, or a player in
/// no known location, is an error.
pub open spec fn event_outcome(
    templates: Seq<EventTemplateView>,
    cycles: Seq<PhaseNarrativeView>,
    phase: Seq<char>,
    player_location: int,
    locations: Seq<LocationView>,
    factions: Seq<FactionView>,
    template_pick: int,
    faction_pick: int,
) -> Result<OutcomeView, EngineError> {
    let candidates = matching_templates(templates, phase);
    if candidates.len() == 0 {
        Ok(quiet_outcome())
    } else if !(0 <= template_pick < candidates.len()) {
        Err(EngineError::TemplatePickOutOfRange)
    } else {
        match location_name(locations, player_location) {
            None => Err(EngineError::UnknownPlayerLocation),
            Some(place) => {
                if !(0 <= faction_pick < factions.len()) {
                    Err(EngineError::FactionPickOutOfRange)
                } else {
                    let template = candidates[template_pick];
                    Ok(
                        assembled_event(
                            resolved_description(template.description, place, factions[faction_pick].name),
                            match template.effect {
                                Some(effect) => Some(resolved_effect(effect.query, effect.params, place)),
                                None => None,
                            },
                            narrative_of(cycles, phase),
                        ),
                    )
                }
            },
        }
    }
}

/// Selection follows the pick: with the player in a known location and a
/// faction pick in range, every template of the phase is the one that its
/// own index selects, and the response tells of that template alone.
pub proof fn lemma_each_template_has_its_pick(
    templates: Seq<EventTemplateView>,
    cycles: Seq<PhaseNarrativeView>,
    phase: Seq<char>,
    player_location: int,
    locations: Seq<LocationView>,
    factions: Seq<FactionView>,
    template_pick: int,
    faction_pick: int,
)
    requires
        0 <= template_pick < matching_templates(templates, phase).len(),
        location_name(locations, player_location) is Some,
        0 <= faction_pick < factions.len(),
    ensures
        event_outcome(
            templates,
            cycles,
            phase,
            player_location,
            locations,
            factions,
            template_pick,
            faction_pick,
        ) == Ok::<OutcomeView, EngineError>(
            assembled_event(
                resolved_description(
                    matching_templates(templates, phase)[template_pick].description,
                    location_name(locations, player_location)->Some_0,
                    factions[faction_pick].name,
                ),
                match matching_templates(templates, phase)[template_pick].effect {
                    Some(effect) => Some(
                        resolved_effect(
                            effect.query,
                            effect.params,
                            location_name(locations, player_location)->Some_0,
                        ),
                    ),
                    None => None,
                },
                narrative_of(cycles, phase),
            ),
        ),
{
}

/// Replaces the location placeholder and then the faction placeholder of a
/// description.
pub fn resolve_description(description: &str, location: &str, faction: &str) -> (resolved: String)
    ensures
        resolved@ == resolved_description(description@, location@, faction@),
{
    let with_location = replace_text(description, "{location}", location);
    replace_text(with_location.as_str(), "{faction}", faction)
}

/// Replaces each placeholder of an effect, in order, by the name of the
/// location.
pub fn resolve_effect(effect: &Effect, location: &str) -> (resolved: String)
    ensures
        resolved@ == resolved_effect(effect@.query, effect@.params, location@),
{
    let ghost params = effect@.params;
    let mut query = effect.query.clone();
    let mut i: usize = 0;
    while i < effect.params.len()
        invariant
            i <= effect.params.len(),
            params == effect.params.deep_view(),
            query@ == resolved_effect(effect.query@, params.take(i as int), location@),
        decreases effect.params.len() - i,
    {
        proof {
            assert(params.take(i + 1).drop_last() =~= params.take(i as int));
        }
        query = replace_text(query.as_str(), effect.params[i].as_str(), location);
        i += 1;
    }
    proof {
        assert(params.take(i as int) =~= params);
    }
    query
}

/// Puts the outcome of an event together from its resolved description, its
/// resolved effect and the narrative line of the phase.
pub fn assemble_event(description: String, effect: Option<String>, narrative: String) -> (outcome: Outcome)
    ensures
        outcome@ == assembled_event(description@, effect.deep_view(), narrative@),
{
    let mut ops: Vec<StoreOp> = Vec::new();
    log_event(&mut ops, description.clone(), "System");
    let mut events: Vec<String> = Vec::new();
    events.push(description);
    let outcome = Outcome { ops, effect, response: EventResponse { events, narrative } };
    assert(outcome@.ops =~= assembled_event(description@, effect.deep_view(), narrative@).ops);
    assert(outcome@.response.events =~= seq![description@]);
    outcome
}

/// The outcome of a moment without an event.
pub fn quiet() -> (outcome: Outcome)
    ensures
        outcome@ == quiet_outcome(),
{
    let outcome = Outcome {
        ops: Vec::new(),
        effect: None,
        response: EventResponse {
            events: Vec::new(),
            narrative: "The kingdom is quiet for now...".to_owned(),
        },
    };
    assert(outcome@.ops =~= quiet_outcome().ops);
    assert(outcome@.response.events =~= quiet_outcome().response.events);
    outcome
}

/// Finds the first location with the given id.
pub fn find_location(locations: &Vec<Location>, id: i32) -> (found: Option<&Location>)
    ensures
        (match found {
            Some(location) => location_name(locations.deep_view(), id as int) == Some(location.name@),
            None => location_name(locations.deep_view(), id as int) is None,
        }),
{
    let ghost all = locations.deep_view();
    let mut i: usize = 0;
    proof {
        assert(all.skip(0) =~= all);
    }
    while i < locations.len()
        invariant
            i <= locations.len(),
            all == locations.deep_view(),
            location_name(all, id as int) == location_name(all.skip(i as int), id as int),
        decreases locations.len() - i,
    {
        proof {
            assert(all.skip(i as int).drop_first() =~= all.skip(i + 1));
        }
        if locations[i].id == id {
            return Some(&locations[i]);
        }
        i += 1;
    }
    None
}

/// Generates the event of a moment from the parts of the world that event
/// generation reads.
fn events_for(
    templates: &Vec<EventTemplate>,
    cycles: &Vec<PhaseNarrative>,
    phase: &str,
    player_location: i32,
    locations: &Vec<Location>,
    factions: &Vec<Faction>,
    template_pick: usize,
    faction_pick: usize,
) -> (answer: Result<Outcome, EngineError>)
    ensures
        answer_view(answer) == event_outcome(
            templates.deep_view(),
            cycles.deep_view(),
            phase@,
            player_location as int,
            locations.deep_view(),
            factions.deep_view(),
            template_pick as int,
            faction_pick as int,
        ),
{
    let candidates = templates_for_phase(templates, phase);
    if candidates.len() == 0 {
        return Ok(quiet());
    }
    if template_pick >= candidates.len() {
        return Err(EngineError::TemplatePickOutOfRange);
    }
    let place = match find_location(locations, player_location) {
        Some(location) => location,
        None => {
            return Err(EngineError::UnknownPlayerLocation);
        },
    };
    if faction_pick >= factions.len() {
        return Err(EngineError::FactionPickOutOfRange);
    }
    let template = candidates[template_pick];
    let faction = &factions[faction_pick];
    let description = resolve_description(
        template.description.as_str(),
        place.name.as_str(),
        faction.name.as_str(),
    );
    let effect = match &template.effect {
        Some(effect) => Some(resolve_effect(effect, place.name.as_str())),
        None => None,
    };
    let narrative = narrative_for(cycles, phase);
    Ok(assemble_event(description, effect, narrative))
}

/// The engine: the event catalog and the phase state machine.
pub struct GameMaster {
    event_templates: Vec<EventTemplate>,
    story_cycles: Vec<PhaseNarrative>,
    tension_thresholds: Vec<PhaseThreshold>,
}

/// Whether every template is bound to a listed phase.
pub open spec fn all_phases_known(thresholds: Seq<PhaseThresholdView>, templates: Seq<EventTemplateView>) -> bool {
    forall|i: int| 0 <= i < templates.len() ==> is_known_phase(thresholds, (#[trigger] templates[i]).phase)
}

/// Whether template `i` is the first that is bound to no listed phase.
pub open spec fn is_first_unknown(
    thresholds: Seq<PhaseThresholdView>,
    templates: Seq<EventTemplateView>,
    i: int,
) -> bool {
    &&& 0 <= i < templates.len()
    &&& !is_known_phase(thresholds, templates[i].phase)
    &&& forall|j: int| 0 <= j < i ==> is_known_phase(thresholds, (#[trigger] templates[j]).phase)
}

/// Whether an event can be generated whichever way the picks fall: there is
/// no template to pick from, or the player is in a known location and there
/// are at least as many factions as templates to pick from.
pub open spec fn event_is_sure(
    candidates: nat,
    player_location: int,
    locations: Seq<LocationView>,
    factions: Seq<FactionView>,
) -> bool {
    candidates == 0 || (location_name(locations, player_location) is Some && candidates
        <= factions.len())
}

/// Whether the picks are indices into a list of `candidates` templates.
/// Where there is no template, no pick is made and any value will do.
pub open spec fn picks_fit(candidates: nat, template_pick: int, faction_pick: int) -> bool {
    candidates > 0 ==> 0 <= template_pick < candidates && 0 <= faction_pick < candidates
}

impl GameMaster {
    /// The event templates of the catalog, in order.
    pub closed spec fn templates(&self) -> Seq<EventTemplateView> {
        self.event_templates.deep_view()
    }

    /// The narrative lines of the catalog, in order.
    pub closed spec fn cycles(&self) -> Seq<PhaseNarrativeView> {
        self.story_cycles.deep_view()
    }

    /// The phases of the state machine with their limits, in order.
    pub closed spec fn thresholds(&self) -> Seq<PhaseThresholdView> {
        self.tension_thresholds.deep_view()
    }

    /// What holds of every engine: it runs on the standard story arc, and
    /// every template of its catalog is bound to a phase of that arc.
    pub open spec fn wf(&self) -> bool {
        &&& self.thresholds() == standard_thresholds()
        &&& all_phases_known(self.thresholds(), self.templates())
    }

    #[verifier::type_invariant]
    spec fn inv(&self) -> bool {
        self.wf()
    }

    /// The operation that replaces tension and phase after an action:
    /// tension raised by `delta`, and the phase that follows the current one
    /// at the raised tension.
    pub open spec fn world_step(&self, world: WorldView, delta: int) -> StoreOpView {
        let tension = raised_tension(world.tension, delta);
        StoreOpView::SetWorld {
            tension,
            story_phase: next_phase(self.thresholds(), tension, world.story_phase),
        }
    }

    /// Whether, once tension has been raised by `delta`, the event after the
    /// action can be generated whichever way the picks fall.
    pub open spec fn event_is_sure_after(
        &self,
        state: WorldStateView,
        request: ActionRequestView,
        delta: int,
    ) -> bool {
        event_is_sure(
            self.candidates_after(state.world, delta),
            location_after(request, state.player.location_id),
            state.locations,
            state.factions,
        )
    }

    /// The number of templates to pick from once tension has been raised by
    /// `delta`.
    pub open spec fn candidates_after(&self, world: WorldView, delta: int) -> nat {
        matching_templates(
            self.templates(),
            next_phase(self.thresholds(), raised_tension(world.tension, delta), world.story_phase),
        ).len()
    }

    /// What event generation answers on a snapshot, given the two picks.
    pub open spec fn events(&self, state: WorldStateView, template_pick: int, faction_pick: int) -> Result<
        OutcomeView,
        EngineError,
    > {
        event_outcome(
            self.templates(),
            self.cycles(),
            state.world.story_phase,
            state.player.location_id,
            state.locations,
            state.factions,
            template_pick,
            faction_pick,
        )
    }

    /// What the engine answers to an action, given the tension delta and the
    /// two picks: the operations of the action, then the operation that
    /// replaces tension and phase, then those of the event that is generated
    /// on the world as these operations leave it.
    pub open spec fn progress(
        &self,
        state: WorldStateView,
        request: ActionRequestView,
        delta: int,
        template_pick: int,
        faction_pick: int,
    ) -> Result<OutcomeView, EngineError> {
        if !action_in_range(request) {
            Err(EngineError::MagnitudeOutOfRange)
        } else {
            let ops = action_ops(request).push(self.world_step(state.world, delta));
            match self.events(state.apply_all(ops), template_pick, faction_pick) {
                Err(e) => Err(e),
                Ok(event) => Ok(
                    OutcomeView { ops: ops + event.ops, effect: event.effect, response: event.response },
                ),
            }
        }
    }

    /// Builds an engine on the standard story arc from a catalog.  A
    /// catalog with a template that is bound to no phase of the arc is
    /// refused, with the index of the first such template.
    pub fn new(event_templates: Vec<EventTemplate>, story_cycles: Vec<PhaseNarrative>) -> (res: Result<
        GameMaster,
        ConfigurationError,
    >)
        ensures
            res is Ok <==> all_phases_known(standard_thresholds(), event_templates.deep_view()),
            (match res {
                Ok(master) => {
                    &&& master.wf()
                    &&& master.templates() == event_templates.deep_view()
                    &&& master.cycles() == story_cycles.deep_view()
                },
                Err(ConfigurationError::UnknownPhase { template }) => is_first_unknown(
                    standard_thresholds(),
                    event_templates.deep_view(),
                    template as int,
                ),
            }),
    {
        let tension_thresholds = standard_phase_thresholds();
        let ghost templates = event_templates.deep_view();
        let mut i: usize = 0;
        while i < event_templates.len()
            invariant
                i <= event_templates.len(),
                templates == event_templates.deep_view(),
                tension_thresholds.deep_view() == standard_thresholds(),
                forall|j: int|
                    0 <= j < i ==> is_known_phase(standard_thresholds(), (#[trigger] templates[j]).phase),
            decreases event_templates.len() - i,
        {
            if !knows_phase(&tension_thresholds, event_templates[i].phase.as_str()) {
                return Err(ConfigurationError::UnknownPhase { template: i });
            }
            assert(templates[i as int].phase == event_templates[i as int].phase@);
            i += 1;
        }
        Ok(GameMaster { event_templates, story_cycles, tension_thresholds })
    }

    /// The phase that follows `current_phase` at the given tension.  It is
    /// always a phase of the story arc.
    pub fn get_next_phase(&self, tension: i32, current_phase: &str) -> (next: String)
        ensures
            next@ == next_phase(self.thresholds(), tension as int, current_phase@),
            is_known_phase(self.thresholds(), next@),
    {
        proof {
            use_type_invariant(self);
            lemma_standard_thresholds_are_terminal();
            lemma_next_phase_is_known(self.thresholds(), tension as int, current_phase@);
        }
        following_phase(&self.tension_thresholds, tension, current_phase)
    }

    /// The templates of `phase`, in catalog order; there may be none.
    pub fn templates_for_phase<'a>(&'a self, phase: &str) -> (found: Vec<&'a EventTemplate>)
        ensures
            found.deep_view() == matching_templates(self.templates(), phase@),
    {
        templates_for_phase(&self.event_templates, phase)
    }

    /// The narrative line of `phase`, or "The story unfolds..." where the
    /// catalog has no line for it.
    pub fn narrative_for(&self, phase: &str) -> (text: String)
        ensures
            text@ == narrative_of(self.cycles(), phase@),
    {
        narrative_for(&self.story_cycles, phase)
    }

    /// Generates the event of the moment with the given picks: the template
    /// at `template_pick` among those of the current phase, resolved with
    /// the name of the player's location and of the faction at
    /// `faction_pick`.
    pub fn generate_events_with(&self, state: &WorldState, template_pick: usize, faction_pick: usize) -> (answer:
        Result<Outcome, EngineError>)
        ensures
            answer_view(answer) == self.events(state@, template_pick as int, faction_pick as int),
            matching_templates(self.templates(), state@.world.story_phase).len() == 0 ==> answer_view(
                answer,
            ) == Ok::<OutcomeView, EngineError>(quiet_outcome()),
    {
        events_for(
            &self.event_templates,
            &self.story_cycles,
            state.world.story_phase.as_str(),
            state.player.location_id,
            &state.locations,
            &state.factions,
            template_pick,
            faction_pick,
        )
    }

    /// Generates the event of the moment.  The template is picked at random
    /// among those of the current phase, and so is the faction: its index is
    /// drawn below the number of those templates, so with fewer factions
    /// than templates the answer can be `FactionPickOutOfRange`.
    pub fn generate_events(&self, state: &WorldState) -> (answer: Result<Outcome, EngineError>)
        ensures
            exists|template_pick: int, faction_pick: int|
                picks_fit(
                    matching_templates(self.templates(), state@.world.story_phase).len(),
                    template_pick,
                    faction_pick,
                ) && answer_view(answer) == #[trigger] self.events(state@, template_pick, faction_pick),
            matching_templates(self.templates(), state@.world.story_phase).len() == 0 ==> answer_view(
                answer,
            ) == Ok::<OutcomeView, EngineError>(quiet_outcome()),
            event_is_sure(
                matching_templates(self.templates(), state@.world.story_phase).len(),
                state@.player.location_id,
                state@.locations,
                state@.factions,
            ) ==> answer is Ok,
            answer matches Err(e) ==> e == EngineError::UnknownPlayerLocation || e
                == EngineError::FactionPickOutOfRange,
    {
        let candidates: usize = self.templates_for_phase(state.world.story_phase.as_str()).len();
        let (template_pick, faction_pick): (usize, usize) = if candidates == 0 {
            (0, 0)
        } else {
            (draw_in_range(0, candidates), draw_in_range(0, candidates))
        };
        let answer = self.generate_events_with(state, template_pick, faction_pick);
        answer
    }
}

/// Raising prosperity and safety renames no location: every id still finds
/// the name it found before.
pub proof fn lemma_adjusting_keeps_location_names(
    locations: Seq<LocationView>,
    id: int,
    prosperity: int,
    safety: int,
    wanted: int,
)
    ensures
        location_name(
            locations.map_values(|l: LocationView| adjusted_location(l, id, prosperity, safety)),
            wanted,
        ) == location_name(locations, wanted),
    decreases locations.len(),
{
    let adjust = |l: LocationView| adjusted_location(l, id, prosperity, safety);
    if locations.len() > 0 {
        assert(locations.map_values(adjust).drop_first() =~= locations.drop_first().map_values(adjust));
        lemma_adjusting_keeps_location_names(locations.drop_first(), id, prosperity, safety, wanted);
    }
}

/// The world as an action and the step of tension and phase leave it, in
/// the parts that event generation reads: the new tension and phase, the
/// player where the action took them, every location under its name and
/// every faction under its name.
pub proof fn lemma_world_after_action(state: WorldStateView, request: ActionRequestView, step: StoreOpView)
    requires
        step is SetWorld,
    ensures
        ({
            let after = state.apply_all(action_ops(request).push(step));
            &&& after.world == (WorldView { tension: step->tension, story_phase: step->story_phase })
            &&& after.player.location_id == location_after(request, state.player.location_id)
            &&& forall|id: int| location_name(after.locations, id) == location_name(state.locations, id)
            &&& after.factions.len() == state.factions.len()
            &&& forall|i: int|
                0 <= i < state.factions.len() ==> (#[trigger] after.factions[i]).name
                    == state.factions[i].name
        }),
{
    let ops = action_ops(request);
    let acted = state.apply_all(ops);
    assert(ops.push(step).drop_last() =~= ops);
    reveal_with_fuel(WorldStateView::apply_all, 4);
    if request.action is Help {
        assert forall|id: int| location_name(acted.locations, id) == location_name(
            state.locations,
            id,
        ) by {
            lemma_adjusting_keeps_location_names(
                state.locations,
                request.target,
                10 * request.magnitude,
                10 * request.magnitude,
                id,
            );
        }
    }
}

/// Writing to the event log changes no snapshot: the world after the
/// engine's operations is the world after the action and the step of
/// tension and phase.
pub proof fn lemma_event_ops_keep_the_world(state: WorldStateView, event: OutcomeView)
    requires
        event.ops.len() == 0 || (event.ops.len() == 1 && event.ops[0] is LogEvent),
    ensures
        state.apply_all(event.ops) == state,
{
    if event.ops.len() == 1 {
        reveal_with_fuel(WorldStateView::apply_all, 2);
    }
}

impl GameMaster {
    /// Whatever the action, the tension delta and the picks: after the
    /// operations of a successful answer, tension lies between 0 and 100 and
    /// the story is in a phase of the arc.
    pub proof fn lemma_progress_keeps_the_world_valid(
        &self,
        state: WorldStateView,
        request: ActionRequestView,
        delta: int,
        template_pick: int,
        faction_pick: int,
    )
        requires
            self.wf(),
            self.progress(state, request, delta, template_pick, faction_pick) is Ok,
        ensures
            ({
                let outcome = self.progress(state, request, delta, template_pick, faction_pick)->Ok_0;
                let after = state.apply_all(outcome.ops);
                &&& MIN_TENSION <= after.world.tension <= MAX_TENSION
                &&& is_known_phase(self.thresholds(), after.world.story_phase)
                &&& after.world.tension == raised_tension(state.world.tension, delta)
                &&& after.world.story_phase == next_phase(
                    self.thresholds(),
                    after.world.tension,
                    state.world.story_phase,
                )
            }),
    {
        let step = self.world_step(state.world, delta);
        let ops = action_ops(request).push(step);
        let event = self.events(state.apply_all(ops), template_pick, faction_pick)->Ok_0;
        lemma_world_after_action(state, request, step);
        lemma_apply_all_concat(state, ops, event.ops);
        lemma_event_ops_keep_the_world(state.apply_all(ops), event);
        lemma_standard_thresholds_are_terminal();
        lemma_next_phase_is_known(
            self.thresholds(),
            raised_tension(state.world.tension, delta),
            state.world.story_phase,
        );
    }

    /// Applies an action with the given tension delta and picks.
    ///
    /// The answer lists the operations of the action, the operation that
    /// raises tension by `tension_delta` (held inside 0 to 100) and moves the
    /// story to the phase that follows, and the log entry of the event that
    /// is generated for the new phase; its response tells of that event.  On
    /// an error nothing is asked of the store.
    pub fn update_world_with(
        &self,
        state: &WorldState,
        request: &ActionRequest,
        tension_delta: i32,
        template_pick: usize,
        faction_pick: usize,
    ) -> (answer: Result<Outcome, EngineError>)
        ensures
            answer_view(answer) == self.progress(
                state@,
                request@,
                tension_delta as int,
                template_pick as int,
                faction_pick as int,
            ),
            answer matches Ok(outcome) ==> ({
                let after = state@.apply_all(outcome@.ops);
                &&& MIN_TENSION <= after.world.tension <= MAX_TENSION
                &&& is_known_phase(self.thresholds(), after.world.story_phase)
            }),
    {
        let mut ops = match plan_action(request) {
            Some(ops) => ops,
            None => {
                return Err(EngineError::MagnitudeOutOfRange);
            },
        };
        let tension: i32 = raise_tension(state.world.tension, tension_delta);
        let phase = self.get_next_phase(tension, state.world.story_phase.as_str());
        let player_location = match &request.action {
            Action::Move => request.target,
            _ => state.player.location_id,
        };
        let ghost step = self.world_step(state@.world, tension_delta as int);
        let ghost planned = action_ops(request@).push(step);
        proof {
            lemma_world_after_action(state@, request@, step);
        }
        let event = events_for(
            &self.event_templates,
            &self.story_cycles,
            phase.as_str(),
            player_location,
            &state.locations,
            &state.factions,
            template_pick,
            faction_pick,
        );
        let mut event = match event {
            Ok(event) => event,
            Err(e) => {
                return Err(e);
            },
        };
        ops.push(StoreOp::SetWorld { tension, story_phase: phase });
        let ghost event_ops = event.ops.deep_view();
        ops.append(&mut event.ops);
        assert(ops.deep_view() =~= planned + event_ops);
        let outcome = Outcome { ops, effect: event.effect, response: event.response };
        proof {
            use_type_invariant(self);
            self.lemma_progress_keeps_the_world_valid(
                state@,
                request@,
                tension_delta as int,
                template_pick as int,
                faction_pick as int,
            );
        }
        Ok(outcome)
    }

    /// Applies an action.  Tension rises by a delta drawn from 5 to 14; the
    /// template of the event is picked at random among those of the new
    /// phase, and so is the faction: its index is drawn below the number of
    /// those templates, so with fewer factions than templates the answer can
    /// be `FactionPickOutOfRange`.
    pub fn update_world(&self, state: &WorldState, request: &ActionRequest) -> (answer: Result<
        Outcome,
        EngineError,
    >)
        ensures
            exists|delta: int, template_pick: int, faction_pick: int|
                5 <= delta <= 14 && picks_fit(
                    self.candidates_after(state@.world, delta),
                    template_pick,
                    faction_pick,
                ) && answer_view(answer) == #[trigger] self.progress(
                    state@,
                    request@,
                    delta,
                    template_pick,
                    faction_pick,
                ),
            answer matches Ok(outcome) ==> ({
                let after = state@.apply_all(outcome@.ops);
                &&& MIN_TENSION <= after.world.tension <= MAX_TENSION
                &&& is_known_phase(self.thresholds(), after.world.story_phase)
            }),
            !action_in_range(request@) ==> answer_view(answer) == Err::<OutcomeView, EngineError>(
                EngineError::MagnitudeOutOfRange,
            ),
            action_in_range(request@) && (forall|delta: int|
                5 <= delta <= 14 ==> #[trigger] self.event_is_sure_after(state@, request@, delta))
                ==> answer is Ok,
            answer matches Err(e) ==> e == EngineError::MagnitudeOutOfRange || e
                == EngineError::UnknownPlayerLocation || e == EngineError::FactionPickOutOfRange,
    {
        let drawn: usize = draw_in_range(5, 15);
        let delta: i32 = drawn as i32;
        let tension: i32 = raise_tension(state.world.tension, delta);
        let phase = self.get_next_phase(tension, state.world.story_phase.as_str());
        let candidates: usize = self.templates_for_phase(phase.as_str()).len();
        let (template_pick, faction_pick): (usize, usize) = if candidates == 0 {
            (0, 0)
        } else {
            (draw_in_range(0, candidates), draw_in_range(0, candidates))
        };
        let answer = self.update_world_with(state, request, delta, template_pick, faction_pick);
        proof {
            lemma_world_after_action(state@, request@, self.world_step(state@.world, delta as int));
            assert(self.event_is_sure_after(state@, request@, delta as int) ==> event_is_sure(
                self.candidates_after(state@.world, delta as int),
                location_after(request@, state@.player.location_id),
                state@.locations,
                state@.factions,
            ));
        }
        answer
    }
}

} // verus!
