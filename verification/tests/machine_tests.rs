use bracket_state_machine::{DeltaTime, State, StateMachine, Transition};

enum Act {
    Push(Box<Script>),
    Switch(Box<Script>),
    Pop,
    Clear,
}

struct Script {
    id: u32,
    on_input: Option<Act>,
    on_update: Option<Act>,
}

fn leaf(id: u32) -> Script {
    Script { id, on_input: None, on_update: None }
}

fn act_to_transition(a: Option<Act>) -> Option<Transition<Script>> {
    match a {
        None => None,
        Some(Act::Push(s)) => Some(Transition::Push(*s)),
        Some(Act::Switch(s)) => Some(Transition::Switch(*s)),
        Some(Act::Pop) => Some(Transition::Pop),
        Some(Act::Clear) => Some(Transition::Clear),
    }
}

impl State for Script {
    type Input = u8;
    type Target = ();

    fn handle_input(&mut self, _input: u8) -> Option<Transition<Self>> {
        act_to_transition(self.on_input.take())
    }

    fn update(&mut self, _dt: DeltaTime) -> Option<Transition<Self>> {
        act_to_transition(self.on_update.take())
    }
}

fn ids(m: &StateMachine<Script>) -> Vec<u32> {
    let mut v = Vec::new();
    let mut i = 0;
    while let Some(s) = m.state_at(i) {
        v.push(s.id);
        i += 1;
    }
    v
}

#[test]
fn it_works() {
    assert_eq!(2 + 2, 4);
}

#[test]
fn new_machine_holds_exactly_the_initial_state() {
    let m = StateMachine::new(leaf(0));
    assert!(!m.is_empty());
    assert_eq!(m.len(), 1);
    assert_eq!(ids(&m), vec![0]);
}

#[test]
fn apply_with_empty_queue_is_a_noop() {
    let mut m = StateMachine::new(leaf(0));
    m.apply_pending_transitions();
    assert_eq!(ids(&m), vec![0]);
    m.apply_pending_transitions();
    assert_eq!(ids(&m), vec![0]);
    assert!(!m.is_empty());
}

#[test]
fn input_push_then_apply_grows_stack() {
    let mut m = StateMachine::new(Script {
        id: 0,
        on_input: Some(Act::Push(Box::new(leaf(1)))),
        on_update: None,
    });
    m.handle_input(7);
    // not applied yet: mutations never happen mid-frame
    assert_eq!(ids(&m), vec![0]);
    m.apply_pending_transitions();
    assert_eq!(ids(&m), vec![0, 1]);
    assert!(!m.is_empty());
}

#[test]
fn pop_via_update_shrinks_stack() {
    // frame one builds the stack [0, 1]; the pushed top pops itself on the
    // next update
    let top = Script { id: 1, on_input: None, on_update: Some(Act::Pop) };
    let mut m = StateMachine::new(Script {
        id: 0,
        on_input: Some(Act::Push(Box::new(top))),
        on_update: None,
    });
    m.handle_input(0);
    m.apply_pending_transitions();
    assert_eq!(ids(&m), vec![0, 1]);
    m.update(DeltaTime::from_millis(16));
    m.apply_pending_transitions();
    assert_eq!(ids(&m), vec![0]);
}

#[test]
fn clear_then_apply_empties_stack() {
    let mut m = StateMachine::new(Script {
        id: 0,
        on_input: Some(Act::Clear),
        on_update: None,
    });
    m.handle_input(0);
    assert!(!m.is_empty());
    m.apply_pending_transitions();
    assert!(m.is_empty());
    assert_eq!(m.len(), 0);
    assert_eq!(ids(&m), vec![]);
}

#[test]
fn pop_on_empty_stack_is_a_noop() {
    let mut m = StateMachine::new(Script {
        id: 0,
        on_input: Some(Act::Clear),
        on_update: Some(Act::Pop),
    });
    m.handle_input(0);
    m.update(DeltaTime::from_millis(1));
    m.apply_pending_transitions();
    assert!(m.is_empty());
    assert_eq!(m.len(), 0);
}

#[test]
fn switch_replaces_the_top_state() {
    let top = Script {
        id: 1,
        on_input: None,
        on_update: Some(Act::Switch(Box::new(leaf(2)))),
    };
    let mut m = StateMachine::new(Script {
        id: 0,
        on_input: Some(Act::Push(Box::new(top))),
        on_update: None,
    });
    m.handle_input(0);
    m.apply_pending_transitions();
    assert_eq!(ids(&m), vec![0, 1]);
    m.update(DeltaTime::from_millis(1));
    m.apply_pending_transitions();
    assert_eq!(ids(&m), vec![0, 2]);
    assert_eq!(m.len(), 2);
}

#[test]
fn switch_on_empty_stack_pushes_only() {
    let mut m = StateMachine::new(Script {
        id: 0,
        on_input: Some(Act::Clear),
        on_update: Some(Act::Switch(Box::new(leaf(7)))),
    });
    m.handle_input(0);
    m.update(DeltaTime::from_millis(1));
    m.apply_pending_transitions();
    assert_eq!(ids(&m), vec![7]);
    assert_eq!(m.len(), 1);
}

#[test]
fn transitions_apply_in_enqueue_order() {
    // a push enqueued by input followed by a pop enqueued by update cancel
    // out: contradictory sequences are applied in order, not coalesced
    let mut m = StateMachine::new(Script {
        id: 0,
        on_input: Some(Act::Push(Box::new(leaf(1)))),
        on_update: Some(Act::Pop),
    });
    m.handle_input(0);
    m.update(DeltaTime::from_millis(1));
    m.apply_pending_transitions();
    assert_eq!(ids(&m), vec![0]);
}

#[test]
fn events_on_empty_machine_are_skipped() {
    let mut m = StateMachine::new(Script {
        id: 0,
        on_input: Some(Act::Clear),
        on_update: None,
    });
    m.handle_input(0);
    m.apply_pending_transitions();
    assert!(m.is_empty());
    m.handle_input(0);
    m.update(DeltaTime::from_millis(1));
    m.draw(&mut ());
    m.apply_pending_transitions();
    assert!(m.is_empty());
    assert_eq!(m.len(), 0);
}

#[test]
fn state_at_past_the_top_is_none() {
    let m = StateMachine::new(leaf(3));
    assert!(m.state_at(0).is_some());
    assert!(m.state_at(1).is_none());
    assert!(m.state_at(usize::MAX).is_none());
}
