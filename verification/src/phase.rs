//! Tension and the story-phase state machine.
//!
//! The machine is an ordered list of phases, each with the tension below
//! which it is open.  The next phase is the first open phase that is not the
//! current one; where there is none, the story stays where it is, or ends up
//! in the terminal phase once tension has reached its maximum.
//!
//! The rule has no memory.  Because the current phase is skipped, the story
//! can leave a phase whose limit tension has not reached yet, and where
//! tension is low it can step back to an earlier phase.

use vstd::prelude::*;
use crate::text::same_text;

verus! {

/// The lowest tension the world can have.
pub const MIN_TENSION: i32 = 0;

/// The highest tension the world can have.
pub const MAX_TENSION: i32 = 100;

/// A phase and the tension below which the story can enter it.
#[derive(Clone, Debug, PartialEq, Eq)]
pub struct PhaseThreshold {
    pub phase: String,
    pub limit: i32,
}

/// The view of a `PhaseThreshold`.
pub struct PhaseThresholdView {
    pub phase: Seq<char>,
    pub limit: int,
}

impl View for PhaseThreshold {
    type V = PhaseThresholdView;

    open spec fn view(&self) -> PhaseThresholdView {
        PhaseThresholdView { phase: self.phase@, limit: self.limit as int }
    }
}

impl DeepView for PhaseThreshold {
    type V = PhaseThresholdView;

    open spec fn deep_view(&self) -> PhaseThresholdView {
        self@
    }
}

/// The name of the terminal phase.
pub open spec fn climax() -> Seq<char> {
    "Climax"@
}

/// The tension that results from adding `delta` to `tension`: the sum, held
/// inside `[MIN_TENSION, MAX_TENSION]`.
pub open spec fn raised_tension(tension: int, delta: int) -> int {
    if tension + delta > MAX_TENSION {
        MAX_TENSION as int
    } else if tension + delta < MIN_TENSION {
        MIN_TENSION as int
    } else {
        tension + delta
    }
}

/// Whether the story can move into the phase of `entry`: tension is under
/// the entry's limit and the phase is not the one the story is in.
pub open spec fn is_open(entry: PhaseThresholdView, tension: int, current: Seq<char>) -> bool {
    tension < entry.limit && entry.phase != current
}

/// Whether entry `i` is open and no entry before it is.
pub open spec fn is_first_open(
    thresholds: Seq<PhaseThresholdView>,
    tension: int,
    current: Seq<char>,
    i: int,
) -> bool {
    &&& 0 <= i < thresholds.len()
    &&& is_open(thresholds[i], tension, current)
    &&& forall|j: int| 0 <= j < i ==> !is_open(#[trigger] thresholds[j], tension, current)
}

/// Whether no entry of the list is open.
pub open spec fn none_open(
    thresholds: Seq<PhaseThresholdView>,
    tension: int,
    current: Seq<char>,
) -> bool {
    forall|j: int| 0 <= j < thresholds.len() ==> !is_open(#[trigger] thresholds[j], tension, current)
}

/// The phase that follows `current` at the given tension.
pub open spec fn next_phase(
    thresholds: Seq<PhaseThresholdView>,
    tension: int,
    current: Seq<char>,
) -> Seq<char> {
    if exists|i: int| is_first_open(thresholds, tension, current, i) {
        thresholds[choose|i: int| is_first_open(thresholds, tension, current, i)].phase
    } else if tension >= MAX_TENSION {
        climax()
    } else {
        current
    }
}

/// Whether `phase` is the name of one of the listed phases.
pub open spec fn is_known_phase(thresholds: Seq<PhaseThresholdView>, phase: Seq<char>) -> bool {
    exists|i: int| 0 <= i < thresholds.len() && (#[trigger] thresholds[i]).phase == phase
}

/// Whether the list holds the terminal phase, open up to the highest
/// tension.  Every list the state machine runs on has this property.
pub open spec fn has_terminal_phase(thresholds: Seq<PhaseThresholdView>) -> bool {
    exists|i: int|
        0 <= i < thresholds.len() && (#[trigger] thresholds[i]).phase == climax()
            && thresholds[i].limit >= MAX_TENSION
}

/// The phases of the story arc, in order: Build-Up under 40, Conflict under
/// 70, Climax under 100.
pub open spec fn standard_thresholds() -> Seq<PhaseThresholdView> {
    seq![
        PhaseThresholdView { phase: "Build-Up"@, limit: 40 },
        PhaseThresholdView { phase: "Conflict"@, limit: 70 },
        PhaseThresholdView { phase: climax(), limit: 100 },
    ]
}

/// The first open entry decides the next phase.
pub proof fn lemma_next_phase_at_first_open(
    thresholds: Seq<PhaseThresholdView>,
    tension: int,
    current: Seq<char>,
    i: int,
)
    requires
        is_first_open(thresholds, tension, current, i),
    ensures
        next_phase(thresholds, tension, current) == thresholds[i].phase,
{
}

/// Where no entry is open, the story stays in its phase, unless tension has
/// reached the maximum: then it is in the terminal phase.
pub proof fn lemma_next_phase_when_none_open(
    thresholds: Seq<PhaseThresholdView>,
    tension: int,
    current: Seq<char>,
)
    requires
        none_open(thresholds, tension, current),
    ensures
        next_phase(thresholds, tension, current) == (if tension >= MAX_TENSION {
            climax()
        } else {
            current
        }),
{
}

/// On a list that holds the terminal phase, the next phase is always one of
/// the listed phases, whatever the tension and whatever the current phase is
/// called.
pub proof fn lemma_next_phase_is_known(
    thresholds: Seq<PhaseThresholdView>,
    tension: int,
    current: Seq<char>,
)
    requires
        has_terminal_phase(thresholds),
    ensures
        is_known_phase(thresholds, next_phase(thresholds, tension, current)),
{
    let last = choose|i: int|
        0 <= i < thresholds.len() && (#[trigger] thresholds[i]).phase == climax()
            && thresholds[i].limit >= MAX_TENSION;
    if is_open(thresholds[last], tension, current) {
        lemma_some_open_has_first(thresholds, tension, current, last);
    }
}

/// An open entry has a first open entry at or before it.
pub proof fn lemma_some_open_has_first(
    thresholds: Seq<PhaseThresholdView>,
    tension: int,
    current: Seq<char>,
    k: int,
)
    requires
        0 <= k < thresholds.len(),
        is_open(thresholds[k], tension, current),
    ensures
        exists|i: int| 0 <= i <= k && is_first_open(thresholds, tension, current, i),
    decreases k,
{
    if exists|j: int| 0 <= j < k && is_open(#[trigger] thresholds[j], tension, current) {
        let j = choose|j: int| 0 <= j < k && is_open(#[trigger] thresholds[j], tension, current);
        lemma_some_open_has_first(thresholds, tension, current, j);
    } else {
        assert(is_first_open(thresholds, tension, current, k));
    }
}

/// The list of the standard story arc holds the terminal phase.
pub proof fn lemma_standard_thresholds_are_terminal()
    ensures
        has_terminal_phase(standard_thresholds()),
{
}

/// Adds `delta` to `tension` and clamps the sum to the valid tension range.
/// No pair of inputs overflows: the sum is formed in 64 bits.
pub fn raise_tension(tension: i32, delta: i32) -> (raised: i32)
    ensures
        raised == raised_tension(tension as int, delta as int),
        MIN_TENSION <= raised <= MAX_TENSION,
{
    let sum: i64 = tension as i64 + delta as i64;
    if sum > MAX_TENSION as i64 {
        MAX_TENSION
    } else if sum < MIN_TENSION as i64 {
        MIN_TENSION
    } else {
        sum as i32
    }
}

/// Builds the list of the standard story arc.
pub fn standard_phase_thresholds() -> (thresholds: Vec<PhaseThreshold>)
    ensures
        thresholds.deep_view() == standard_thresholds(),
{
    let mut thresholds: Vec<PhaseThreshold> = Vec::new();
    thresholds.push(PhaseThreshold { phase: "Build-Up".to_owned(), limit: 40 });
    thresholds.push(PhaseThreshold { phase: "Conflict".to_owned(), limit: 70 });
    thresholds.push(PhaseThreshold { phase: "Climax".to_owned(), limit: 100 });
    thresholds
}

/// Whether `phase` is the name of one of the listed phases.
pub fn knows_phase(thresholds: &Vec<PhaseThreshold>, phase: &str) -> (known: bool)
    ensures
        known == is_known_phase(thresholds.deep_view(), phase@),
{
    let ghost entries = thresholds.deep_view();
    let mut i: usize = 0;
    while i < thresholds.len()
        invariant
            i <= thresholds.len(),
            entries == thresholds.deep_view(),
            forall|j: int| 0 <= j < i ==> (#[trigger] entries[j]).phase != phase@,
        decreases thresholds.len() - i,
    {
        if same_text(thresholds[i].phase.as_str(), phase) {
            assert(entries[i as int].phase == phase@);
            return true;
        }
        i += 1;
    }
    false
}

/// Scans the list in order and returns the first phase whose limit is above
/// `tension` and whose name differs from `current_phase`.  Where there is
/// none, returns "Climax" if tension has reached the maximum, and
/// `current_phase` otherwise.
pub fn following_phase(thresholds: &Vec<PhaseThreshold>, tension: i32, current_phase: &str) -> (next:
    String)
    ensures
        next@ == next_phase(thresholds.deep_view(), tension as int, current_phase@),
{
    let ghost entries = thresholds.deep_view();
    let mut i: usize = 0;
    while i < thresholds.len()
        invariant
            i <= thresholds.len(),
            entries == thresholds.deep_view(),
            forall|j: int| 0 <= j < i ==> !is_open(#[trigger] entries[j], tension as int, current_phase@),
        decreases thresholds.len() - i,
    {
        let entry = &thresholds[i];
        if tension < entry.limit && !same_text(entry.phase.as_str(), current_phase) {
            proof {
                lemma_next_phase_at_first_open(entries, tension as int, current_phase@, i as int);
            }
            return entry.phase.clone();
        }
        proof {
            assert(entries[i as int] == entry@);
        }
        i += 1;
    }
    proof {
        lemma_next_phase_when_none_open(entries, tension as int, current_phase@);
    }
    if tension >= MAX_TENSION {
        "Climax".to_owned()
    } else {
        current_phase.to_owned()
    }
}

} // verus!
