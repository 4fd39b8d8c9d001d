//! Deterministic state machines that replicas keep in step by applying the
//! same ordered stream of transitions, and that may each ask the authoritative
//! replica to apply one event of their own at a later time.

pub mod driver;
pub mod state_machine;
pub mod state_program;

pub use driver::AuthoritativeDriver;
pub use state_machine::{PlayerID, StateMachine, Transition, TransitionEvent};
pub use state_program::{
    DefaultStateProgramFactory, StateMachineContainerProgram, StateMachineContainerProgramFactory,
    StateProgram, StateProgramFactory,
};
