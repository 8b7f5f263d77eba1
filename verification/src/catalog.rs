//! The event catalog: event templates bound to story phases, and the
//! narrative line of each phase.  The catalog is read-only once it is loaded.

use vstd::prelude::*;
use crate::text::same_text;

verus! {

/// A state mutation attached to an event template: an update expression for
/// the store, and the placeholders in it that stand for the player's
/// location.
#[derive(Clone, Debug, PartialEq, Eq)]
pub struct Effect {
    pub query: String,
    pub params: Vec<String>,
}

/// A possible narrative occurrence for one story phase.
#[derive(Clone, Debug, PartialEq, Eq)]
pub struct EventTemplate {
    pub phase: String,
    pub description: String,
    pub effect: Option<Effect>,
}

/// The narrative line of one story phase.
#[derive(Clone, Debug, PartialEq, Eq)]
pub struct PhaseNarrative {
    pub phase: String,
    pub text: String,
}

/// The view of an `Effect`.
pub struct EffectView {
    pub query: Seq<char>,
    pub params: Seq<Seq<char>>,
}

/// The view of an `EventTemplate`.
pub struct EventTemplateView {
    pub phase: Seq<char>,
    pub description: Seq<char>,
    pub effect: Option<EffectView>,
}

/// The view of a `PhaseNarrative`.
pub struct PhaseNarrativeView {
    pub phase: Seq<char>,
    pub text: Seq<char>,
}

impl View for Effect {
    type V = EffectView;

    open spec fn view(&self) -> EffectView {
        EffectView { query: self.query@, params: self.params.deep_view() }
    }
}

impl DeepView for Effect {
    type V = EffectView;

    open spec fn deep_view(&self) -> EffectView {
        self@
    }
}

impl View for EventTemplate {
    type V = EventTemplateView;

    open spec fn view(&self) -> EventTemplateView {
        EventTemplateView {
            phase: self.phase@,
            description: self.description@,
            effect: self.effect.deep_view(),
        }
    }
}

impl DeepView for EventTemplate {
    type V = EventTemplateView;

    open spec fn deep_view(&self) -> EventTemplateView {
        self@
    }
}

impl View for PhaseNarrative {
    type V = PhaseNarrativeView;

    open spec fn view(&self) -> PhaseNarrativeView {
        PhaseNarrativeView { phase: self.phase@, text: self.text@ }
    }
}

impl DeepView for PhaseNarrative {
    type V = PhaseNarrativeView;

    open spec fn deep_view(&self) -> PhaseNarrativeView {
        self@
    }
}

/// The narrative line of a phase that the catalog has no line for.
pub open spec fn default_narrative() -> Seq<char> {
    "The story unfolds..."@
}

/// The templates of `phase`, in catalog order.
pub open spec fn matching_templates(templates: Seq<EventTemplateView>, phase: Seq<char>) -> Seq<
    EventTemplateView,
> {
    templates.filter(|t: EventTemplateView| t.phase == phase)
}

/// The narrative line of `phase`: the text of the first entry for it, or the
/// default line where there is no entry.
pub open spec fn narrative_of(cycles: Seq<PhaseNarrativeView>, phase: Seq<char>) -> Seq<char>
    decreases cycles.len(),
{
    if cycles.len() == 0 {
        default_narrative()
    } else if cycles[0].phase == phase {
        cycles[0].text
    } else {
        narrative_of(cycles.drop_first(), phase)
    }
}

/// Every template that matches a phase is a template of the catalog, bound
/// to that phase.
pub proof fn lemma_matching_templates_come_from_catalog(
    templates: Seq<EventTemplateView>,
    phase: Seq<char>,
    i: int,
)
    requires
        0 <= i < matching_templates(templates, phase).len(),
    ensures
        matching_templates(templates, phase)[i].phase == phase,
        templates.contains(matching_templates(templates, phase)[i]),
{
    let pred = |t: EventTemplateView| t.phase == phase;
    templates.lemma_filter_pred(pred, i);
    templates.lemma_filter_contains_rev(pred, templates.filter(pred)[i]);
}

/// A catalog without a template for a phase matches nothing, and the other
/// way round.
pub proof fn lemma_no_match_means_no_template(templates: Seq<EventTemplateView>, phase: Seq<char>)
    ensures
        matching_templates(templates, phase).len() == 0 <==> forall|i: int|
            0 <= i < templates.len() ==> (#[trigger] templates[i]).phase != phase,
    decreases templates.len(),
{
    let pred = |t: EventTemplateView| t.phase == phase;
    reveal(Seq::filter);
    if templates.len() > 0 {
        let front = templates.drop_last();
        lemma_no_match_means_no_template(front, phase);
        if matching_templates(templates, phase).len() == 0 {
            assert forall|i: int| 0 <= i < templates.len() implies (#[trigger] templates[i]).phase
                != phase by {
                if i < front.len() {
                    assert(front[i] == templates[i]);
                }
            }
        }
    }
}

/// Collects the templates of `phase`, keeping the order of the catalog.
pub fn templates_for_phase<'a>(templates: &'a Vec<EventTemplate>, phase: &str) -> (found: Vec<
    &'a EventTemplate,
>)
    ensures
        found.deep_view() == matching_templates(templates.deep_view(), phase@),
{
    let ghost all = templates.deep_view();
    let ghost pred = |t: EventTemplateView| t.phase == phase@;
    let mut found: Vec<&'a EventTemplate> = Vec::new();
    let mut i: usize = 0;
    proof {
        reveal(Seq::filter);
    }
    while i < templates.len()
        invariant
            i <= templates.len(),
            all == templates.deep_view(),
            pred == (|t: EventTemplateView| t.phase == phase@),
            found.deep_view() == all.take(i as int).filter(pred),
        decreases templates.len() - i,
    {
        let template = &templates[i];
        proof {
            reveal(Seq::filter);
            assert(all.take(i + 1).drop_last() =~= all.take(i as int));
        }
        if same_text(template.phase.as_str(), phase) {
            found.push(template);
        }
        i += 1;
    }
    proof {
        assert(all.take(i as int) =~= all);
    }
    found
}

/// Looks up the narrative line of `phase`.
pub fn narrative_for(cycles: &Vec<PhaseNarrative>, phase: &str) -> (text: String)
    ensures
        text@ == narrative_of(cycles.deep_view(), phase@),
{
    let ghost all = cycles.deep_view();
    let mut i: usize = 0;
    proof {
        assert(all.skip(0) =~= all);
    }
    while i < cycles.len()
        invariant
            i <= cycles.len(),
            all == cycles.deep_view(),
            narrative_of(all, phase@) == narrative_of(all.skip(i as int), phase@),
        decreases cycles.len() - i,
    {
        let entry = &cycles[i];
        proof {
            assert(all.skip(i as int).drop_first() =~= all.skip(i + 1));
        }
        if same_text(entry.phase.as_str(), phase) {
            return entry.text.clone();
        }
        i += 1;
    }
    "The story unfolds...".to_owned()
}

} // verus!
