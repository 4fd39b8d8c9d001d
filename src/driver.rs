use vstd::prelude::*;
use crate::state_machine::{StateMachine, TransitionEvent};
use crate::state_program::StateProgram;

verus! {

/// The event that firing `suspended` delivers: the same transition, with no
/// originator.
pub open spec fn fired_event<T>(suspended: TransitionEvent<T>) -> TransitionEvent<T> {
    TransitionEvent { originator: None, transition: suspended.transition }
}

/// The decisions of the authoritative replica for one session: it holds the
/// program and the one slot for its suspended event, asks the program again
/// after every `apply`, and turns a suspended event that is due into an event
/// to apply. When an event is due, and sending events to other replicas, are
/// left to the caller.
pub struct AuthoritativeDriver<P: StateProgram> {
    program: P,
    pending: Option<TransitionEvent<<P as StateProgram>::T>>,
}

impl<P: StateProgram> AuthoritativeDriver<P> {
    /// The program's current state.
    pub closed spec fn state(&self) -> P {
        self.program
    }

    /// The event that the slot holds, if any.
    pub closed spec fn slot(&self) -> Option<TransitionEvent<<P as StateProgram>::T>> {
        self.pending
    }

    /// The slot holds nothing, or exactly what the program now answers: a
    /// stale answer is never kept beside or instead of a current one.
    pub open spec fn wf(&self) -> bool {
        self.slot() is None || self.slot() == self.state().suspended()
    }

    /// Starts driving `program`, with the slot set to its first answer.
    pub fn new(program: P) -> (r: Self)
        ensures
            r.state() == program,
            r.slot() == program.suspended(),
            r.wf(),
    {
        let pending = program.suspended_event();
        AuthoritativeDriver { program, pending }
    }

    /// Applies `event`, then replaces the slot by the program's new answer.
    pub fn apply(&mut self, event: TransitionEvent<<P as StateProgram>::T>)
        ensures
            final(self).state() == old(self).state().next_state(event),
            final(self).slot() == final(self).state().suspended(),
            final(self).wf(),
    {
        self.program.apply(event);
        self.pending = self.program.suspended_event();
    }

    /// Empties the slot and returns the event that firing its content
    /// delivers, to be passed to `apply`; `None` when nothing was suspended.
    pub fn fire(&mut self) -> (r: Option<TransitionEvent<<P as StateProgram>::T>>)
        ensures
            final(self).state() == old(self).state(),
            final(self).slot() is None,
            final(self).wf(),
            r == match old(self).slot() {
                Some(e) => Some(fired_event(e)),
                None => None,
            },
            r matches Some(e) ==> e.originator is None,
    {
        match self.pending.take() {
            Some(e) => Some(TransitionEvent { originator: None, transition: e.transition }),
            None => None,
        }
    }

    /// The program being driven.
    pub fn program(&self) -> (r: &P)
        ensures
            *r == self.state(),
    {
        &self.program
    }

    /// The event that the slot holds, if any.
    pub fn pending_event(&self) -> (r: &Option<TransitionEvent<<P as StateProgram>::T>>)
        ensures
            *r == self.slot(),
    {
        &self.pending
    }
}

/// Two answers given for one unchanged state are the same answer: asking
/// twice without an `apply` in between is idempotent.
pub proof fn lemma_suspended_idempotent<P: StateProgram>(
    state: P,
    first: Option<TransitionEvent<<P as StateProgram>::T>>,
    second: Option<TransitionEvent<<P as StateProgram>::T>>,
)
    requires
        first == state.suspended(),
        second == state.suspended(),
    ensures
        first == second,
{
}

} // verus!
