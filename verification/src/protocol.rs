//! The life cycle as a state machine over events, and what holds of every
//! run of it.

use crate::binding::{BindingState, Phase};
use crate::layout::VmLayout;
use crate::options::{accepts, stored};
use vstd::prelude::*;

verus! {

/// One call on the binding, as the life cycle sees it.
pub enum Event {
    /// A setting was handed in. Where it ties threads to cores, `grants`
    /// holds the cores that the memory manager stored, if it accepted them.
    Setting { name: Seq<char>, value: Seq<char>, grants: Option<Seq<int>> },
    /// Initialisation was asked for.
    Initialize { heap_size: usize, layout: Option<VmLayout> },
    /// The instance was used.
    Use,
    /// The start of the collector's threads was asked for.
    StartCollection,
    /// Automatic collection was switched on or off.
    SwitchCollection { on: bool },
}

/// Whether the event changes the state. An event that does not is refused
/// or has nothing left to do: a setting after initialisation or one that is
/// not accepted, an initialisation that cannot be carried out, a use of the
/// instance once it exists, and collection control before initialisation.
pub open spec fn takes_effect(state: BindingState, event: Event) -> bool {
    match event {
        Event::Setting { name, value, grants } => state.phase != Phase::Initialized && accepts(
            state.linux,
            name,
            value,
            grants is Some,
        ),
        Event::Initialize { heap_size, layout } => state.may_initialize(heap_size, layout),
        Event::Use => state.phase != Phase::Initialized,
        Event::StartCollection => state.phase == Phase::Initialized
            && !state.collection_initialized,
        Event::SwitchCollection { on } => state.phase == Phase::Initialized,
    }
}

/// The state after one event.
pub open spec fn step(state: BindingState, event: Event) -> BindingState {
    if !takes_effect(state, event) {
        state
    } else {
        match event {
            Event::Setting { name, value, grants } => state.configured(
                name,
                match stored(name, value) {
                    Some(entry) => entry,
                    None => grants->Some_0,
                },
            ),
            Event::Initialize { heap_size, layout } => state.initialized(heap_size, layout),
            Event::Use => state.sealed(),
            Event::StartCollection => state.collection_started(),
            Event::SwitchCollection { on } => state.collection_switched(on),
        }
    }
}

/// Whether the event has the instance constructed: an initialisation that
/// is carried out, or the first use of an instance that was never
/// initialised.
pub open spec fn constructs(state: BindingState, event: Event) -> bool {
    (event is Initialize || event is Use) && takes_effect(state, event)
}

/// The state after a sequence of events.
pub open spec fn run(state: BindingState, events: Seq<Event>) -> BindingState
    decreases events.len(),
{
    if events.len() == 0 {
        state
    } else {
        run(step(state, events.first()), events.drop_first())
    }
}

/// How often the instance is constructed in a sequence of events.
pub open spec fn constructions(state: BindingState, events: Seq<Event>) -> nat
    decreases events.len(),
{
    if events.len() == 0 {
        0
    } else {
        let here: nat = if constructs(state, events.first()) {
            1
        } else {
            0
        };
        here + constructions(step(state, events.first()), events.drop_first())
    }
}

/// The life cycle only moves forward: no event takes the binding to an
/// earlier phase.
pub proof fn lemma_step_moves_forward(state: BindingState, event: Event)
    ensures
        state.phase.rank() <= step(state, event).phase.rank(),
{
}

/// No sequence of events takes the binding to an earlier phase.
pub proof fn lemma_run_moves_forward(state: BindingState, events: Seq<Event>)
    ensures
        state.phase.rank() <= run(state, events).phase.rank(),
    decreases events.len(),
{
    if events.len() > 0 {
        lemma_step_moves_forward(state, events.first());
        lemma_run_moves_forward(step(state, events.first()), events.drop_first());
    }
}

/// Every state that a sequence of events leads to from a well-formed state
/// is well formed.
pub proof fn lemma_run_keeps_well_formed(state: BindingState, events: Seq<Event>)
    requires
        state.well_formed(),
    ensures
        run(state, events).well_formed(),
    decreases events.len(),
{
    if events.len() > 0 {
        lemma_run_keeps_well_formed(step(state, events.first()), events.drop_first());
    }
}

/// Once the memory manager is initialised, a setting changes nothing,
/// whatever it says.
pub proof fn lemma_setting_after_initialization_is_refused(
    state: BindingState,
    name: Seq<char>,
    value: Seq<char>,
    grants: Option<Seq<int>>,
)
    requires
        state.phase == Phase::Initialized,
    ensures
        step(state, Event::Setting { name, value, grants }) == state,
{
}

/// Once the memory manager is initialised, no sequence of events constructs
/// the instance again or changes what it was configured with: the options,
/// the heap size and the layout of the heap stay as they are.
pub proof fn lemma_initialized_stays(state: BindingState, events: Seq<Event>)
    requires
        state.phase == Phase::Initialized,
    ensures
        constructions(state, events) == 0,
        run(state, events).phase == Phase::Initialized,
        run(state, events).settings == state.settings,
        run(state, events).trigger() == state.trigger(),
        run(state, events).heap_size == state.heap_size,
        run(state, events).layout == state.layout,
        run(state, events).heap_layout() == state.heap_layout(),
    decreases events.len(),
{
    if events.len() > 0 {
        lemma_initialized_stays(step(state, events.first()), events.drop_first());
    }
}

/// However many times initialisation is asked for and the instance is used,
/// the instance is constructed at most once; and it is constructed exactly
/// once in the runs that begin before initialisation and end after it.
pub proof fn lemma_one_construction(state: BindingState, events: Seq<Event>)
    requires
        state.phase != Phase::Initialized,
    ensures
        constructions(state, events) <= 1,
        constructions(state, events) == 1 <==> run(state, events).phase == Phase::Initialized,
    decreases events.len(),
{
    if events.len() > 0 {
        let next = step(state, events.first());
        if next.phase == Phase::Initialized {
            lemma_initialized_stays(next, events.drop_first());
        } else {
            lemma_one_construction(next, events.drop_first());
        }
    }
}

/// The first initialisation that can be carried out is carried out, and it
/// decides the heap size for good.
pub proof fn lemma_first_initialization_wins(
    state: BindingState,
    heap_size: usize,
    layout: Option<VmLayout>,
    later: Seq<Event>,
)
    requires
        state.may_initialize(heap_size, layout),
    ensures
        run(state, seq![Event::Initialize { heap_size, layout }] + later).phase
            == Phase::Initialized,
        run(state, seq![Event::Initialize { heap_size, layout }] + later).heap_size == Some(
            heap_size,
        ),
        run(state, seq![Event::Initialize { heap_size, layout }] + later).trigger() == Some(
            heap_size as int,
        ),
        constructions(state, seq![Event::Initialize { heap_size, layout }] + later) == 1,
{
    let first = Event::Initialize { heap_size, layout };
    let events = seq![first] + later;
    assert(events.first() == first);
    assert(events.drop_first() =~= later);
    lemma_initialized_stays(step(state, first), later);
}

/// Initialisation without a layout changes the phase and the heap size and
/// nothing else: every other option that the store holds and the layout of
/// the heap stay as they are.
pub proof fn lemma_init_changes_the_heap_size_only(
    state: BindingState,
    heap_size: usize,
    other: Seq<char>,
)
    requires
        other != "gc_trigger"@,
    ensures
        state.initialized(heap_size, None).settings[other] == state.settings[other],
        state.initialized(heap_size, None).trigger() == Some(heap_size as int),
        state.initialized(heap_size, None).heap_size == Some(heap_size),
        state.initialized(heap_size, None).heap_layout() == state.heap_layout(),
        state.initialized(heap_size, None).linux == state.linux,
{
}

/// An accepted setting changes the one option that it names and nothing
/// else of the store.
pub proof fn lemma_setting_changes_one_option(
    state: BindingState,
    name: Seq<char>,
    entry: Seq<int>,
    other: Seq<char>,
)
    requires
        other != name,
    ensures
        state.configured(name, entry).settings[name] == entry,
        state.configured(name, entry).settings.contains_key(other)
            == state.settings.contains_key(other),
        state.configured(name, entry).settings[other] == state.settings[other],
{
}

/// The start of the heap lies below its end in every state that the binding
/// can reach, and both lie on chunk boundaries.
pub proof fn lemma_heap_is_not_empty(state: BindingState)
    requires
        state.well_formed(),
    ensures
        state.heap_layout().heap_start < state.heap_layout().heap_end,
        state.heap_layout().valid(),
{
    crate::layout::lemma_default_layout_is_valid();
}

} // verus!
