use vstd::prelude::*;

verus! {

/// A deterministic mutation descriptor. It carries data only; what it does is
/// decided by the [`StateMachine`] that applies it.
pub trait Transition: Sized + Clone {}

/// A state that can apply transitions of its own kind to itself, in place.
///
/// The effect of `apply` is described by the pure spec function `next_state`:
/// the state after the call depends on the state before and on the
/// transition, and on nothing else.
pub trait StateMachine: Sized + Clone + Send + 'static {
    type Transition: Transition;

    /// The state that results from applying `transition` to `self`.
    spec fn next_state(self, transition: Self::Transition) -> Self;

    fn apply(&mut self, transition: Self::Transition)
        ensures
            *final(self) == old(self).next_state(transition),
    ;
}

/// Identifies an external actor whose actions produce transitions.
#[derive(PartialEq, Eq, Structural, Clone, Copy, Debug)]
pub struct PlayerID(pub usize);

/// A transition together with who caused it: `Some(player)` for an event that
/// a player submitted, `None` for an event that the state machine scheduled
/// for itself.
#[derive(Clone, Debug)]
pub struct TransitionEvent<T> {
    pub originator: Option<PlayerID>,
    pub transition: T,
}

impl<T> TransitionEvent<T> {
    pub fn new(originator: Option<PlayerID>, transition: T) -> (r: Self)
        ensures
            r.originator == originator,
            r.transition == transition,
    {
        TransitionEvent { originator, transition }
    }
}

impl<T: Transition> Transition for TransitionEvent<T> {}

/// The state reached by applying `transitions` to `state`, in order.
pub open spec fn replay<M: StateMachine>(state: M, transitions: Seq<M::Transition>) -> M
    decreases transitions.len(),
{
    if transitions.len() == 0 {
        state
    } else {
        replay(state, transitions.drop_last()).next_state(transitions.last())
    }
}

/// The state reached by replaying each of `chunks` in turn, starting from
/// `state`.
pub open spec fn replay_chunks<M: StateMachine>(state: M, chunks: Seq<Seq<M::Transition>>) -> M
    decreases chunks.len(),
{
    if chunks.len() == 0 {
        state
    } else {
        replay_chunks(replay(state, chunks.first()), chunks.drop_first())
    }
}

/// Applying one transition to two equal states yields two equal states.
pub proof fn lemma_apply_deterministic<M: StateMachine>(a: M, b: M, transition: M::Transition)
    requires
        a == b,
    ensures
        a.next_state(transition) == b.next_state(transition),
{
}

/// Replaying a sequence equals replaying a prefix of it and then the rest
/// from the state reached.
pub proof fn lemma_replay_append<M: StateMachine>(
    state: M,
    first: Seq<M::Transition>,
    second: Seq<M::Transition>,
)
    ensures
        replay(state, first + second) == replay(replay(state, first), second),
    decreases second.len(),
{
    if second.len() == 0 {
        assert(first + second =~= first);
    } else {
        lemma_replay_append(state, first, second.drop_last());
        assert((first + second).drop_last() =~= first + second.drop_last());
    }
}

/// Applying a sequence of transitions in one go, or cut into consecutive
/// pieces that are applied one after another, reaches the same state.
pub proof fn lemma_replay_equivalence<M: StateMachine>(
    state: M,
    chunks: Seq<Seq<M::Transition>>,
)
    ensures
        replay_chunks(state, chunks) == replay(state, chunks.flatten()),
    decreases chunks.len(),
{
    if chunks.len() > 0 {
        lemma_replay_equivalence(replay(state, chunks.first()), chunks.drop_first());
        lemma_replay_append(state, chunks.first(), chunks.drop_first().flatten());
    }
}

} // verus!
