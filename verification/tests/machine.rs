use fsm_engine::{StateMachine, StateResult, TStateMachine};

#[derive(Debug, PartialEq, Eq, Clone, Copy)]
enum State {
    Empty,
    InProgress,
    Payed,
    PayDiff,
    Failed,
}

#[derive(Debug, PartialEq, Eq, Clone, Copy)]
enum Action {
    AddItem,
    DeleteItem,
    Pay,
    RefundDiff,
}

#[derive(Debug, PartialEq, Eq, Clone, Copy)]
enum Event {
    ItemAdded,
    ItemDeleted,
    OrderPayed,
}

fn all_states() -> Vec<State> {
    vec![State::Empty, State::InProgress, State::Payed, State::PayDiff, State::Failed]
}

fn all_events() -> Vec<Event> {
    vec![Event::ItemAdded, Event::ItemDeleted, Event::OrderPayed]
}

fn order_transitions() -> Vec<((Event, State), StateResult<State, Action>)> {
    vec![
        (
            (Event::ItemAdded, State::Empty),
            StateResult { state: State::InProgress, actions: vec![Action::AddItem, Action::DeleteItem] },
        ),
        (
            (Event::ItemAdded, State::InProgress),
            StateResult { state: State::InProgress, actions: vec![Action::AddItem, Action::DeleteItem] },
        ),
        (
            (Event::ItemAdded, State::Payed),
            StateResult { state: State::PayDiff, actions: vec![Action::Pay] },
        ),
        (
            (Event::ItemDeleted, State::Empty),
            StateResult { state: State::Failed, actions: vec![Action::AddItem, Action::DeleteItem] },
        ),
        (
            (Event::ItemDeleted, State::InProgress),
            StateResult { state: State::InProgress, actions: vec![] },
        ),
        (
            (Event::ItemDeleted, State::Payed),
            StateResult { state: State::Payed, actions: vec![Action::RefundDiff] },
        ),
        ((Event::OrderPayed, State::Empty), StateResult { state: State::Failed, actions: vec![] }),
        (
            (Event::OrderPayed, State::InProgress),
            StateResult { state: State::Payed, actions: vec![] },
        ),
        ((Event::OrderPayed, State::Payed), StateResult { state: State::Failed, actions: vec![] }),
    ]
}

fn order_machine() -> StateMachine<State, Event, Action> {
    StateMachine::new(
        all_states(),
        all_events(),
        order_transitions(),
        State::Empty,
        Action::AddItem,
    )
}

#[test]
fn test_machine1() {
    let fsm = order_machine();
    assert_eq!(fsm.current_state().state, State::Empty)
}

#[test]
fn test_machine2() {
    let mut fsm = order_machine();
    fsm.update_state(Event::ItemAdded);
    fsm.update_state(Event::ItemAdded);
    fsm.update_state(Event::OrderPayed);
    assert_eq!(fsm.current_state().state, State::Payed);
    assert!(fsm.current_state().actions.is_empty())
}

#[test]
fn fresh_machine_has_initial_state_and_no_actions() {
    let fsm = order_machine();
    assert_eq!(fsm.current_state().state, State::Empty);
    assert!(fsm.current_state().actions.is_empty());
}

#[test]
fn defined_transition_replaces_state_and_actions() {
    let mut fsm = order_machine();
    fsm.update_state(Event::ItemAdded);
    assert_eq!(fsm.current_state().state, State::InProgress);
    assert_eq!(fsm.current_state().actions, vec![Action::AddItem, Action::DeleteItem]);
}

#[test]
fn defined_transition_with_empty_actions() {
    let mut fsm = order_machine();
    fsm.update_state(Event::ItemAdded);
    fsm.update_state(Event::ItemDeleted);
    assert_eq!(fsm.current_state().state, State::InProgress);
    assert!(fsm.current_state().actions.is_empty());
}

#[test]
fn order_scenario_reaches_payed() {
    let mut fsm = order_machine();
    fsm.update_state(Event::ItemAdded);
    assert_eq!(fsm.current_state().state, State::InProgress);
    assert_eq!(fsm.current_state().actions, vec![Action::AddItem, Action::DeleteItem]);
    fsm.update_state(Event::ItemAdded);
    assert_eq!(fsm.current_state().state, State::InProgress);
    assert_eq!(fsm.current_state().actions, vec![Action::AddItem, Action::DeleteItem]);
    fsm.update_state(Event::OrderPayed);
    assert_eq!(fsm.current_state().state, State::Payed);
    assert!(fsm.current_state().actions.is_empty());
}

#[test]
fn undefined_transition_falls_back_to_initial() {
    let sparse: Vec<((Event, State), StateResult<State, Action>)> = order_transitions()
        .into_iter()
        .filter(|entry| entry.0 != (Event::OrderPayed, State::Empty))
        .collect();
    let mut fsm =
        StateMachine::new(all_states(), all_events(), sparse, State::Empty, Action::AddItem);
    fsm.update_state(Event::OrderPayed);
    assert_eq!(fsm.current_state().state, State::Empty);
    assert_eq!(fsm.current_state().actions, vec![Action::AddItem]);
}

#[test]
fn repeated_application_from_same_state_agrees() {
    let mut first = order_machine();
    let mut second = order_machine();
    first.update_state(Event::ItemAdded);
    second.update_state(Event::ItemAdded);
    assert_eq!(first.current_state().state, second.current_state().state);
    assert_eq!(first.current_state().actions, second.current_state().actions);
}

#[test]
fn reading_twice_returns_identical_values() {
    let mut fsm = order_machine();
    fsm.update_state(Event::ItemAdded);
    let first_state = fsm.current_state().state;
    let first_actions = fsm.current_state().actions.clone();
    let second_state = fsm.current_state().state;
    let second_actions = fsm.current_state().actions.clone();
    assert_eq!(first_state, second_state);
    assert_eq!(first_actions, second_actions);
}
