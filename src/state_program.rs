use vstd::prelude::*;
use core::marker::PhantomData;
use crate::state_machine::{replay, PlayerID, StateMachine, Transition, TransitionEvent};

verus! {

/// A [`StateMachine`] whose transitions are [`TransitionEvent`]s, and which may
/// ask the authoritative replica to apply one event of its own choosing later.
pub trait StateProgram: StateMachine<Transition = TransitionEvent<<Self as StateProgram>::T>> {
    type T: Transition;

    /// The one event that should be applied automatically at a future time, if
    /// any. It is a function of the current state alone.
    spec fn suspended(&self) -> Option<TransitionEvent<<Self as StateProgram>::T>>;

    /// Returns the currently suspended event. The authoritative replica asks
    /// once after every `apply`: a `None` answer cancels whatever was
    /// suspended before, a `Some` answer replaces it. Only one event is
    /// suspended at a time; a program that wants several wake-ups returns the
    /// chronologically next one. A fired event comes back to `apply` with no
    /// originator. A program with no need to schedule anything answers `None`
    /// in every state, as [`StateMachineContainerProgram`] does.
    fn suspended_event(&self) -> (r: Option<TransitionEvent<<Self as StateProgram>::T>>)
        ensures
            r == self.suspended(),
    ;
}

/// Makes fresh, independent [`StateProgram`] instances, one per session.
pub trait StateProgramFactory: Clone + Sized + 'static + Send {
    type State: StateProgram;

    /// Whether `state` is an instance that this factory may hand out.
    spec fn produces(&self, state: Self::State) -> bool;

    fn create(&mut self) -> (r: Self::State)
        ensures
            old(self).produces(r),
    ;
}

/// A [`StateProgram`] built from any [`StateMachine`]: each event is stripped
/// of its originator and its transition is passed to the inner machine. It
/// never suspends an event.
#[derive(Clone, Debug)]
pub struct StateMachineContainerProgram<SM: StateMachine>(pub SM);

impl<SM: StateMachine> StateMachine for StateMachineContainerProgram<SM> {
    type Transition = TransitionEvent<SM::Transition>;

    open spec fn next_state(self, transition: Self::Transition) -> Self {
        StateMachineContainerProgram(self.0.next_state(transition.transition))
    }

    fn apply(&mut self, transition: Self::Transition) {
        self.0.apply(transition.transition);
    }
}

impl<SM: StateMachine> StateProgram for StateMachineContainerProgram<SM> {
    type T = SM::Transition;

    open spec fn suspended(&self) -> Option<TransitionEvent<SM::Transition>> {
        None
    }

    fn suspended_event(&self) -> (r: Option<TransitionEvent<SM::Transition>>) {
        None
    }
}

impl<SM: StateMachine + Default> Default for StateMachineContainerProgram<SM> {
    fn default() -> (r: Self)
        ensures
            call_ensures(SM::default, (), r.0),
    {
        StateMachineContainerProgram(SM::default())
    }
}

/// A [`StateProgramFactory`] that wraps a default instance of a plain
/// [`StateMachine`] in a [`StateMachineContainerProgram`].
pub struct StateMachineContainerProgramFactory<S: StateMachine + Default> {
    s: PhantomData<S>,
}

impl<S: StateMachine + Default> StateMachineContainerProgramFactory<S> {
    /// The one value of this type: a factory holds no data.
    pub closed spec fn spec_new() -> Self {
        StateMachineContainerProgramFactory { s: PhantomData }
    }

    pub fn new() -> (r: Self)
        ensures
            r == Self::spec_new(),
    {
        StateMachineContainerProgramFactory { s: Default::default() }
    }
}

impl<S: StateMachine + Default> StateProgramFactory for StateMachineContainerProgramFactory<S> {
    type State = StateMachineContainerProgram<S>;

    open spec fn produces(&self, state: StateMachineContainerProgram<S>) -> bool {
        call_ensures(S::default, (), state.0)
    }

    fn create(&mut self) -> (r: StateMachineContainerProgram<S>)
        ensures
            *final(self) == *old(self),
    {
        StateMachineContainerProgram(S::default())
    }
}

impl<S: StateMachine + Default> Clone for StateMachineContainerProgramFactory<S> {
    fn clone(&self) -> (r: Self)
        ensures
            r == *self,
    {
        Self::new()
    }
}

impl<S: StateMachine + Default> Default for StateMachineContainerProgramFactory<S> {
    fn default() -> (r: Self)
        ensures
            r == Self::spec_new(),
    {
        Self::new()
    }
}

/// A [`StateProgramFactory`] that hands out default instances of a
/// [`StateProgram`] unchanged.
pub struct DefaultStateProgramFactory<S: StateProgram + Default> {
    phantom: PhantomData<S>,
}

impl<S: StateProgram + Default> DefaultStateProgramFactory<S> {
    /// The one value of this type: a factory holds no data.
    pub closed spec fn spec_new() -> Self {
        DefaultStateProgramFactory { phantom: PhantomData }
    }

    pub fn new() -> (r: Self)
        ensures
            r == Self::spec_new(),
    {
        DefaultStateProgramFactory { phantom: Default::default() }
    }
}

impl<S: StateProgram + Default> StateProgramFactory for DefaultStateProgramFactory<S> {
    type State = S;

    open spec fn produces(&self, state: S) -> bool {
        call_ensures(S::default, (), state)
    }

    fn create(&mut self) -> (r: S)
        ensures
            *final(self) == *old(self),
    {
        S::default()
    }
}

impl<S: StateProgram + Default> Clone for DefaultStateProgramFactory<S> {
    fn clone(&self) -> (r: Self)
        ensures
            r == *self,
    {
        Self::new()
    }
}

impl<S: StateProgram + Default> Default for DefaultStateProgramFactory<S> {
    fn default() -> (r: Self)
        ensures
            r == Self::spec_new(),
    {
        Self::new()
    }
}

/// The transitions carried by `events`, in order, without their originators.
pub open spec fn transitions_of<T>(events: Seq<TransitionEvent<T>>) -> Seq<T> {
    events.map_values(|e: TransitionEvent<T>| e.transition)
}

/// Wrapping a plain machine and applying an event to it leaves the inner
/// machine exactly where applying the bare transition would; the originator
/// has no effect.
pub proof fn lemma_container_transparent<SM: StateMachine>(
    machine: SM,
    transition: SM::Transition,
    originator: Option<PlayerID>,
)
    ensures
        StateMachineContainerProgram(machine).next_state(
            (TransitionEvent { originator, transition }),
        ).0 == machine.next_state(transition),
{
}

/// The same holds of any sequence of events: the inner machine of a wrapped
/// machine follows the bare transitions.
pub proof fn lemma_container_replay_transparent<SM: StateMachine>(
    machine: SM,
    events: Seq<TransitionEvent<SM::Transition>>,
)
    ensures
        replay(StateMachineContainerProgram(machine), events).0 == replay(
            machine,
            transitions_of(events),
        ),
    decreases events.len(),
{
    if events.len() > 0 {
        lemma_container_replay_transparent(machine, events.drop_last());
        assert(transitions_of(events.drop_last()) =~= transitions_of(events).drop_last());
    }
}

/// A wrapped plain machine never suspends an event, in whatever state a
/// sequence of events has brought it to.
pub proof fn lemma_container_never_suspends<SM: StateMachine>(
    start: StateMachineContainerProgram<SM>,
    events: Seq<TransitionEvent<SM::Transition>>,
)
    ensures
        replay(start, events).suspended() is None,
{
}

} // verus!
