//! A hierarchical state-machine runtime for interactive, frame-driven
//! applications: a stack of mutually exclusive states that receive per-frame
//! input and time-delta events, draw themselves, and request stack mutations
//! (switch, push, pop, clear) that are applied atomically between frames.

use vstd::prelude::*;

pub mod stopwatch;

verus! {

/// Saturating addition on millisecond counts: the sum, capped at `u64::MAX`.
pub open spec fn sat_add_millis(a: u64, b: u64) -> u64 {
    if a + b > u64::MAX {
        u64::MAX
    } else {
        (a + b) as u64
    }
}

/// Elapsed wall-clock time since the previous frame, counted in whole
/// milliseconds. Immutable once constructed; consumed by state updates and
/// stopwatch accumulation.
#[derive(Clone, Copy, Debug, PartialEq, Eq, Structural)]
pub struct DeltaTime(u64);

impl DeltaTime {
    /// The number of milliseconds this delta stands for.
    pub closed spec fn millis(&self) -> u64 {
        self.0
    }

    /// A delta of `millis` milliseconds.
    pub fn from_millis(millis: u64) -> (r: Self)
        ensures
            r.millis() == millis,
    {
        DeltaTime(millis)
    }

    /// A zero-length delta.
    pub fn zero() -> (r: Self)
        ensures
            r.millis() == 0,
    {
        DeltaTime(0)
    }

    /// Reads the delta back as a millisecond count.
    pub fn as_millis(&self) -> (r: u64)
        ensures
            r == self.millis(),
    {
        self.0
    }

    /// Accumulation: the sum of two deltas, saturating at `u64::MAX`
    /// milliseconds rather than wrapping.
    pub fn saturating_add(&self, other: DeltaTime) -> (r: Self)
        ensures
            r.millis() == sat_add_millis(self.millis(), other.millis()),
    {
        DeltaTime(self.0.saturating_add(other.0))
    }

    /// Ordering comparison: whether this delta is at least as long as `other`.
    pub fn is_at_least(&self, other: &DeltaTime) -> (r: bool)
        ensures
            r == (self.millis() >= other.millis()),
    {
        self.0 >= other.0
    }
}

/// A stack mutation requested by a state. Produced during a frame's input and
/// update phases, queued by the machine, and applied atomically between
/// frames. `Switch` and `Push` carry ownership of the new state.
pub enum Transition<S> {
    /// Pop the current top (a no-op if the stack is empty), then push the
    /// carried state.
    Switch(S),
    /// Push the carried state on top of the stack.
    Push(S),
    /// Remove the current top; a no-op if the stack is empty.
    Pop,
    /// Remove every state, leaving the stack empty — the designed path to the
    /// terminal condition that tells the host to stop.
    Clear,
}

/// The capability set every state implements. A method left to its default
/// requests no transition, draws nothing, and does not occlude the states
/// beneath it.
pub trait State: Sized {
    /// The host-defined input event type; the machine forwards it unread.
    type Input;

    /// The host-defined render target; the machine forwards it unread.
    type Target;

    /// Reacts to one input event; invoked only on the top state, and only
    /// when the host reports an event. `None` requests no stack mutation.
    #[must_use]
    fn handle_input(&mut self, _input: Self::Input) -> Option<Transition<Self>> {
        None
    }

    /// Advances this state by one frame's elapsed time; invoked exactly once
    /// per frame on the top state. `None` requests no stack mutation.
    #[must_use]
    fn update(&mut self, _dt: DeltaTime) -> Option<Transition<Self>> {
        None
    }

    /// Renders this state onto the host's target.
    fn draw(&self, _target: &mut Self::Target) {
    }

    /// Whether states beneath this one in the stack are still drawn; queried
    /// during the draw pass only.
    fn is_transparent(&self) -> bool {
        true
    }
}

/// The stack after one transition is applied:
/// `Push` appends; `Pop` drops the top if there is one; `Switch` drops the
/// top if there is one, then appends; `Clear` empties the stack.
pub open spec fn apply_transition<S>(stack: Seq<S>, t: Transition<S>) -> Seq<S> {
    match t {
        Transition::Switch(s) => if stack.len() == 0 {
            seq![s]
        } else {
            stack.drop_last().push(s)
        },
        Transition::Push(s) => stack.push(s),
        Transition::Pop => if stack.len() == 0 {
            stack
        } else {
            stack.drop_last()
        },
        Transition::Clear => Seq::empty(),
    }
}

/// The stack after a whole queue of transitions is applied, first enqueued
/// first.
pub open spec fn apply_transitions<S>(stack: Seq<S>, ts: Seq<Transition<S>>) -> Seq<S>
    decreases ts.len(),
{
    if ts.len() == 0 {
        stack
    } else {
        apply_transitions(apply_transition(stack, ts[0]), ts.subrange(1, ts.len() as int))
    }
}

/// Law: applying an empty pending queue is a no-op — the stack is unchanged.
pub proof fn lemma_apply_empty_queue<S>(stack: Seq<S>)
    ensures
        apply_transitions(stack, Seq::<Transition<S>>::empty()) == stack,
{
}

/// Law: `Push(s)` applied to a stack of length `n` yields a stack of length
/// `n + 1` with `s` on top and everything below unchanged.
pub proof fn lemma_apply_push<S>(stack: Seq<S>, s: S)
    ensures
        apply_transitions(stack, seq![Transition::Push(s)]) == stack.push(s),
        apply_transitions(stack, seq![Transition::Push(s)]).len() == stack.len() + 1,
        apply_transitions(stack, seq![Transition::Push(s)]).last() == s,
{
    lemma_apply_singleton(stack, Transition::Push(s));
}

/// Law: `Pop` applied to a stack of length `n > 0` yields the same stack
/// without its top, of length `n - 1`; applied to an empty stack it is a
/// no-op and the length stays `0`.
pub proof fn lemma_apply_pop<S>(stack: Seq<S>)
    ensures
        stack.len() > 0 ==> apply_transitions(stack, seq![Transition::<S>::Pop])
            == stack.drop_last(),
        stack.len() > 0 ==> apply_transitions(stack, seq![Transition::<S>::Pop]).len()
            == stack.len() - 1,
        stack.len() == 0 ==> apply_transitions(stack, seq![Transition::<S>::Pop]) == stack,
{
    lemma_apply_singleton(stack, Transition::Pop);
}

/// Law: `Switch(s)` applied to a stack of length `n > 0` keeps the length at
/// `n`, replacing the top with `s`; applied to an empty stack it yields the
/// one-element stack holding `s`.
pub proof fn lemma_apply_switch<S>(stack: Seq<S>, s: S)
    ensures
        stack.len() > 0 ==> apply_transitions(stack, seq![Transition::Switch(s)])
            == stack.drop_last().push(s),
        stack.len() > 0 ==> apply_transitions(stack, seq![Transition::Switch(s)]).len()
            == stack.len(),
        stack.len() == 0 ==> apply_transitions(stack, seq![Transition::Switch(s)]) == seq![s],
        apply_transitions(stack, seq![Transition::Switch(s)]).last() == s,
{
    lemma_apply_singleton(stack, Transition::Switch(s));
}

/// Law: `Clear` applied to any stack — non-empty or not — yields the empty
/// stack, the terminal condition.
pub proof fn lemma_apply_clear<S>(stack: Seq<S>)
    ensures
        apply_transitions(stack, seq![Transition::<S>::Clear]) == Seq::<S>::empty(),
        apply_transitions(stack, seq![Transition::<S>::Clear]).len() == 0,
{
    lemma_apply_singleton(stack, Transition::Clear);
}

/// Applying a one-element queue is applying its single transition.
proof fn lemma_apply_singleton<S>(stack: Seq<S>, t: Transition<S>)
    ensures
        apply_transitions(stack, seq![t]) == apply_transition(stack, t),
{
    let q = seq![t];
    assert(q.subrange(1, 1) =~= Seq::<Transition<S>>::empty());
    assert(apply_transitions(apply_transition(stack, q[0]), q.subrange(1, 1))
        == apply_transition(stack, t));
}

/// An ordered stack of states (top of stack = last element = active state)
/// together with the queue of transitions requested during the current frame.
/// Events go to the top state only; requested transitions are queued, never
/// applied mid-frame.
pub struct StateMachine<S> {
    states: Vec<S>,
    pending_ops: Vec<Transition<S>>,
}

impl<S> StateMachine<S> {
    /// The state stack, bottom first; the last element is the active state.
    pub closed spec fn stack(&self) -> Seq<S> {
        self.states@
    }

    /// The transitions requested so far this frame, in enqueue order.
    pub closed spec fn queue(&self) -> Seq<Transition<S>> {
        self.pending_ops@
    }

    /// A machine whose stack holds exactly the initial state and whose
    /// pending queue is empty.
    pub fn new(init_state: S) -> (r: Self)
        ensures
            r.stack() =~= seq![init_state],
            r.queue().len() == 0,
    {
        let mut states: Vec<S> = Vec::new();
        states.push(init_state);
        StateMachine { states, pending_ops: Vec::new() }
    }

    /// True iff the stack holds no states — the terminal condition; the host
    /// must stop driving the machine once this holds.
    pub fn is_empty(&self) -> (r: bool)
        ensures
            r == (self.stack().len() == 0),
    {
        self.states.is_empty()
    }

    /// The number of states on the stack.
    pub fn len(&self) -> (r: usize)
        ensures
            r == self.stack().len(),
    {
        self.states.len()
    }

    /// The state at `index` (0 = bottom of the stack), or `None` past the
    /// top.
    pub fn state_at(&self, index: usize) -> (r: Option<&S>)
        ensures
            index < self.stack().len() ==> (r matches Some(s) && *s == self.stack()[index as int]),
            index >= self.stack().len() ==> r is None,
    {
        if index < self.states.len() {
            Some(&self.states[index])
        } else {
            None
        }
    }

    /// Drains the pending queue in enqueue order and applies each transition
    /// to the stack; afterwards the queue is empty and the stack is exactly
    /// the old stack with the old queue folded over it.
    pub fn apply_pending_transitions(&mut self)
        ensures
            final(self).stack() == apply_transitions(old(self).stack(), old(self).queue()),
            final(self).queue().len() == 0,
    {
        while self.pending_ops.len() > 0
            invariant
                apply_transitions(self.states@, self.pending_ops@) == apply_transitions(
                    old(self).states@,
                    old(self).pending_ops@,
                ),
            decreases self.pending_ops.len(),
        {
            let ghost prev_states = self.states@;
            let ghost prev_pending = self.pending_ops@;
            let op = self.pending_ops.remove(0);
            proof {
                assert(self.pending_ops@ =~= prev_pending.subrange(
                    1,
                    prev_pending.len() as int,
                ));
            }
            apply_to_stack(&mut self.states, op);
        }
        proof {
            assert(apply_transitions(self.states@, self.pending_ops@) == self.states@);
        }
    }
}

/// Applies a single transition to a bare stack, exactly as `apply_transition`
/// describes.
fn apply_to_stack<S>(states: &mut Vec<S>, t: Transition<S>)
    ensures
        final(states)@ == apply_transition(old(states)@, t),
{
    match t {
        Transition::Switch(s) => {
            let _popped = states.pop();
            states.push(s);
            proof {
                assert(states@ =~= apply_transition(old(states)@, t));
            }
        },
        Transition::Push(s) => {
            states.push(s);
        },
        Transition::Pop => {
            let _popped = states.pop();
            proof {
                if old(states)@.len() > 0 {
                    assert(states@ =~= apply_transition(old(states)@, t));
                }
            }
        },
        Transition::Clear => {
            states.clear();
        },
    }
}

impl<S: State> StateMachine<S> {
    /// Delivers one input event to the top state, if any, and queues the
    /// transition it requests, if any. States beneath the top and the
    /// already-queued transitions are untouched; on an empty stack the event
    /// is silently dropped.
    pub fn handle_input(&mut self, input: S::Input)
        ensures
            final(self).stack().len() == old(self).stack().len(),
            forall|i: int|
                0 <= i < old(self).stack().len() - 1
                    ==> final(self).stack()[i] == old(self).stack()[i],
            old(self).queue().is_prefix_of(final(self).queue()),
            final(self).queue().len() <= old(self).queue().len() + 1,
            old(self).stack().len() == 0
                ==> final(self).stack() == old(self).stack()
                    && final(self).queue() == old(self).queue(),
    {
        let n = self.states.len();
        if n > 0 {
            let trans = self.states[n - 1].handle_input(input);
            if let Some(t) = trans {
                self.pending_ops.push(t);
            }
        }
    }

    /// Advances the top state, if any, by the frame's elapsed time, and
    /// queues the transition it requests, if any. States beneath the top and
    /// the already-queued transitions are untouched; on an empty stack the
    /// update is silently skipped.
    pub fn update(&mut self, dt: DeltaTime)
        ensures
            final(self).stack().len() == old(self).stack().len(),
            forall|i: int|
                0 <= i < old(self).stack().len() - 1
                    ==> final(self).stack()[i] == old(self).stack()[i],
            old(self).queue().is_prefix_of(final(self).queue()),
            final(self).queue().len() <= old(self).queue().len() + 1,
            old(self).stack().len() == 0
                ==> final(self).stack() == old(self).stack()
                    && final(self).queue() == old(self).queue(),
    {
        let n = self.states.len();
        if n > 0 {
            let trans = self.states[n - 1].update(dt);
            if let Some(t) = trans {
                self.pending_ops.push(t);
            }
        }
    }

    /// Renders the visible portion of the stack, back to front: first the
    /// deepest visible state (found by walking down from the top while states
    /// are transparent), then every state above it up to the top. Read-only
    /// on the machine; produces no transitions.
    pub fn draw(&self, target: &mut S::Target) {
        let n = self.states.len();
        if n == 0 {
            return ;
        }
        let mut flags: Vec<bool> = Vec::new();
        let mut i: usize = 0;
        while i < n
            invariant
                i <= n,
                n == self.states@.len(),
                flags@.len() == i,
            decreases n - i,
        {
            flags.push(self.states[i].is_transparent());
            i += 1;
        }
        let mut j: usize = first_drawn_index(&flags);
        while j < n
            invariant
                j <= n,
                n == self.states@.len(),
            decreases n - j,
        {
            self.states[j].draw(target);
            j += 1;
        }
    }
}

/// The depth at which the draw pass starts, given each state's transparency
/// flag in stack order: the top, walked downward while the visited state is
/// transparent, stopping at the first opaque state (drawn inclusively) or at
/// the bottom. Every state above the result is transparent, and the result is
/// opaque unless the walk reached the bottom.
pub fn first_drawn_index(flags: &Vec<bool>) -> (r: usize)
    requires
        flags@.len() > 0,
    ensures
        r < flags@.len(),
        forall|k: int| r < k < flags@.len() ==> flags@[k],
        r > 0 ==> !flags@[r as int],
{
    let mut i: usize = flags.len() - 1;
    while i > 0 && flags[i]
        invariant
            i < flags@.len(),
            forall|k: int| i < k < flags@.len() ==> flags@[k],
        decreases i,
    {
        i = i - 1;
    }
    i
}

} // verus!
