//! A table-driven finite-state-machine engine.
//!
//! The engine is generic over three caller-supplied domains: states `S`,
//! events `E` and actions `A`. It holds a current state together with the
//! actions produced by the transition that reached it, and a transition
//! table mapping `(event, state)` pairs to a [`StateResult`]. Applying an
//! event looks the pair up in the table; a missing entry silently resets
//! the machine to its designated initial state with a single fallback
//! action. The engine never interprets actions: it only hands them back.

use vstd::laws_eq::obeys_concrete_eq;
use vstd::prelude::*;

verus! {

/// The outcome of one transition: the state entered and the ordered
/// actions the caller should perform for it.
#[derive(Clone)]
pub struct StateResult<S, A> {
    pub state: S,
    pub actions: Vec<A>,
}

/// The mathematical value of a [`StateResult`]: its state and the
/// sequence of its actions.
#[verifier::ext_equal]
pub ghost struct ResultModel<S, A> {
    pub state: S,
    pub actions: Seq<A>,
}

impl<S, A> View for StateResult<S, A> {
    type V = ResultModel<S, A>;

    open spec fn view(&self) -> ResultModel<S, A> {
        ResultModel { state: self.state, actions: self.actions@ }
    }
}

/// The mathematical value of a whole machine: the current result, the
/// transition table as a map, the declared state and event universes,
/// and the two values the fallback policy substitutes on an undefined
/// transition.
#[verifier::ext_equal]
#[verifier::reject_recursive_types(S)]
#[verifier::reject_recursive_types(E)]
pub ghost struct MachineModel<S, E, A> {
    pub current: ResultModel<S, A>,
    pub table: Map<(E, S), ResultModel<S, A>>,
    pub states: Seq<S>,
    pub events: Seq<E>,
    pub initial: S,
    pub fallback_action: A,
}

/// The map a sequence of table entries denotes: each `(event, state)`
/// key maps to the model of its entry's result.
pub open spec fn table_model<S, E, A>(
    entries: Seq<((E, S), StateResult<S, A>)>,
) -> Map<(E, S), ResultModel<S, A>>
    decreases entries.len(),
{
    if entries.len() == 0 {
        Map::empty()
    } else {
        table_model(entries.drop_last()).insert(entries.last().0, entries.last().1@)
    }
}

/// Holds when no two entries share an `(event, state)` key.
pub open spec fn unique_keys<S, E, A>(entries: Seq<((E, S), StateResult<S, A>)>) -> bool {
    forall|i: int, j: int|
        0 <= i < j < entries.len() ==> (#[trigger] entries[i]).0 != (#[trigger] entries[j]).0
}

/// How one event changes a machine: a defined transition replaces the
/// current result by the table's entry; an undefined one resets the
/// machine to its initial state with the single fallback action.
pub open spec fn step<S, E, A>(m: MachineModel<S, E, A>, event: E) -> MachineModel<S, E, A> {
    let key = (event, m.current.state);
    let next = if m.table.contains_key(key) {
        m.table[key]
    } else {
        ResultModel { state: m.initial, actions: seq![m.fallback_action] }
    };
    MachineModel { current: next, ..m }
}

/// With unique keys, the map an entry sequence denotes sends each
/// entry's key to that entry's result.
pub proof fn lemma_table_model_entry<S, E, A>(entries: Seq<((E, S), StateResult<S, A>)>, i: int)
    requires
        unique_keys(entries),
        0 <= i < entries.len(),
    ensures
        table_model(entries).contains_key(entries[i].0),
        table_model(entries)[entries[i].0] == entries[i].1@,
    decreases entries.len(),
{
    if i < entries.len() - 1 {
        lemma_table_model_entry(entries.drop_last(), i);
    }
}

/// A key no entry carries is absent from the map the sequence denotes.
pub proof fn lemma_table_model_absent<S, E, A>(
    entries: Seq<((E, S), StateResult<S, A>)>,
    key: (E, S),
)
    requires
        forall|i: int| 0 <= i < entries.len() ==> (#[trigger] entries[i]).0 != key,
    ensures
        !table_model(entries).contains_key(key),
    decreases entries.len(),
{
    if entries.len() > 0 {
        lemma_table_model_absent(entries.drop_last(), key);
    }
}

/// Determinism: one step is a function of the table, the current
/// state and the fallback policy alone. Two machines that agree on
/// those take the same event to the same result — the engine keeps no
/// memory beyond its current state.
pub proof fn lemma_step_deterministic<S, E, A>(
    first: MachineModel<S, E, A>,
    second: MachineModel<S, E, A>,
    event: E,
)
    requires
        first.table == second.table,
        first.current.state == second.current.state,
        first.initial == second.initial,
        first.fallback_action == second.fallback_action,
    ensures
        step(first, event).current == step(second, event).current,
{
}

/// A defined transition: when the table maps `(event, current state)`
/// to a result, one step replaces the current result by exactly it.
pub proof fn lemma_defined_step<S, E, A>(m: MachineModel<S, E, A>, event: E)
    requires
        m.table.contains_key((event, m.current.state)),
    ensures
        step(m, event).current == m.table[(event, m.current.state)],
{
}

/// An undefined transition falls back: a step on a pair the table does
/// not map resets the machine to its initial state, with the single
/// fallback action.
pub proof fn lemma_undefined_step<S, E, A>(m: MachineModel<S, E, A>, event: E)
    requires
        !m.table.contains_key((event, m.current.state)),
    ensures
        step(m, event).current.state == m.initial,
        step(m, event).current.actions == seq![m.fallback_action],
{
}

/// The engine's interface. `inv` is the well-formedness that
/// construction establishes and every operation keeps; `model` is the
/// machine's mathematical value; the three operations are pinned down
/// over `model` alone, so a machine's behaviour is a function of its
/// model and nothing else.
pub trait TStateMachine<S, E, A>: Sized {
    /// Well-formedness: established by `new`, kept by every operation.
    spec fn inv(&self) -> bool;

    /// The machine's mathematical value.
    spec fn model(&self) -> MachineModel<S, E, A>;

    /// What `new` asks of its inputs.
    spec fn new_pre(transitions: Seq<((E, S), StateResult<S, A>)>) -> bool;

    /// Builds a machine over the given universes and transition table,
    /// standing in `initial` with no actions yet. An undefined
    /// transition will later reset it to `initial` with the single
    /// action `fallback_action`.
    fn new(
        states: Vec<S>,
        events: Vec<E>,
        transitions: Vec<((E, S), StateResult<S, A>)>,
        initial: S,
        fallback_action: A,
    ) -> (machine: Self)
        requires
            Self::new_pre(transitions@),
        ensures
            machine.inv(),
            machine.model() == (MachineModel {
                current: ResultModel { state: initial, actions: Seq::<A>::empty() },
                table: table_model(transitions@),
                states: states@,
                events: events@,
                initial: initial,
                fallback_action: fallback_action,
            }),
    ;

    /// Applies one event: the machine's sole mutation point, and its
    /// effect is exactly `step` on the machine's model.
    fn update_state(&mut self, event: E)
        requires
            old(self).inv(),
        ensures
            final(self).inv(),
            final(self).model() == step(old(self).model(), event),
    ;

    /// Reads the current state and the actions of the most recent
    /// transition. Pure: the result is determined by the machine alone.
    fn current_state(&self) -> (result: &StateResult<S, A>)
        ensures
            result@ == self.model().current,
    ;
}

/// The engine: the current result, the transition table as a sequence
/// of uniquely-keyed entries, the declared universes, and the two
/// values the fallback policy substitutes.
#[derive(Clone)]
pub struct StateMachine<S, E, A> {
    state: StateResult<S, A>,
    transitions: Vec<((E, S), StateResult<S, A>)>,
    states: Vec<S>,
    events: Vec<E>,
    initial: S,
    fallback_action: A,
}

/// Index of the first entry keyed by `(*event, *state)`, if any.
fn find_entry<S, E, A>(
    entries: &Vec<((E, S), StateResult<S, A>)>,
    event: &E,
    state: &S,
) -> (found: Option<usize>) where S: PartialEq + Eq + Copy, E: PartialEq + Eq + Copy
    requires
        obeys_concrete_eq::<S>(),
        obeys_concrete_eq::<E>(),
    ensures
        match found {
            Some(i) => i < entries@.len() && entries@[i as int].0 == (*event, *state),
            None => forall|i: int|
                0 <= i < entries@.len() ==> (#[trigger] entries@[i]).0 != (*event, *state),
        },
{
    let mut i: usize = 0;
    while i < entries.len()
        invariant
            i <= entries@.len(),
            obeys_concrete_eq::<S>(),
            obeys_concrete_eq::<E>(),
            forall|j: int| 0 <= j < i ==> (#[trigger] entries@[j]).0 != (*event, *state),
        decreases entries@.len() - i,
    {
        proof {
            reveal(obeys_concrete_eq);
        }
        let entry = &entries[i];
        if entry.0.0 == *event && entry.0.1 == *state {
            return Some(i);
        }
        i = i + 1;
    }
    None
}

/// An element-for-element copy of a vector of actions.
fn copy_actions<A: Copy>(actions: &Vec<A>) -> (copied: Vec<A>)
    ensures
        copied@ == actions@,
{
    let mut copied: Vec<A> = Vec::new();
    let mut i: usize = 0;
    while i < actions.len()
        invariant
            i <= actions@.len(),
            copied@ == actions@.take(i as int),
        decreases actions@.len() - i,
    {
        copied.push(actions[i]);
        i = i + 1;
    }
    copied
}

impl<S, E, A> TStateMachine<S, E, A> for StateMachine<S, E, A> where
    S: PartialEq + Eq + Copy,
    E: PartialEq + Eq + Copy,
    A: Copy,
 {
    closed spec fn inv(&self) -> bool {
        &&& obeys_concrete_eq::<S>()
        &&& obeys_concrete_eq::<E>()
        &&& unique_keys(self.transitions@)
    }

    closed spec fn model(&self) -> MachineModel<S, E, A> {
        MachineModel {
            current: self.state@,
            table: table_model(self.transitions@),
            states: self.states@,
            events: self.events@,
            initial: self.initial,
            fallback_action: self.fallback_action,
        }
    }

    open spec fn new_pre(transitions: Seq<((E, S), StateResult<S, A>)>) -> bool {
        &&& obeys_concrete_eq::<S>()
        &&& obeys_concrete_eq::<E>()
        &&& unique_keys(transitions)
    }

    fn new(
        states: Vec<S>,
        events: Vec<E>,
        transitions: Vec<((E, S), StateResult<S, A>)>,
        initial: S,
        fallback_action: A,
    ) -> (machine: Self) {
        StateMachine {
            state: StateResult { state: initial, actions: Vec::new() },
            transitions,
            states,
            events,
            initial,
            fallback_action,
        }
    }

    fn update_state(&mut self, event: E) {
        let current: S = self.state.state;
        let found = find_entry(&self.transitions, &event, &current);
        match found {
            Some(i) => {
                proof {
                    lemma_table_model_entry(self.transitions@, i as int);
                }
                let next_state: S = self.transitions[i].1.state;
                let next_actions = copy_actions(&self.transitions[i].1.actions);
                self.state = StateResult { state: next_state, actions: next_actions };
            },
            None => {
                proof {
                    lemma_table_model_absent(self.transitions@, (event, current));
                }
                let mut fallback_actions: Vec<A> = Vec::new();
                fallback_actions.push(self.fallback_action);
                self.state = StateResult { state: self.initial, actions: fallback_actions };
            },
        }
    }

    fn current_state(&self) -> (result: &StateResult<S, A>) {
        &self.state
    }
}

/// Reading has no side channel: two results that `current_state` may
/// return for one machine, with no mutation between them, carry the
/// same state and the same actions.
pub proof fn lemma_current_state_stable<S, E, A>(
    machine: &StateMachine<S, E, A>,
    first: &StateResult<S, A>,
    second: &StateResult<S, A>,
) where S: PartialEq + Eq + Copy, E: PartialEq + Eq + Copy, A: Copy
    requires
        call_ensures(
            <StateMachine<S, E, A> as TStateMachine<S, E, A>>::current_state,
            (machine,),
            first,
        ),
        call_ensures(
            <StateMachine<S, E, A> as TStateMachine<S, E, A>>::current_state,
            (machine,),
            second,
        ),
    ensures
        first@ == second@,
{
}

} // verus!
