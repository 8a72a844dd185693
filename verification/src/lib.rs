//! Lightweight, user-space context switching and a generator abstraction
//! built on top of it.
//!
//! A generator wraps a function that runs on its own private stack and can
//! suspend itself, yielding a value to its caller and later being resumed
//! with a new input value. Control transfer is purely a manipulation of the
//! machine's stack pointer and callee-saved registers; no kernel services
//! are involved.
//!
//! This crate is the verified core of such a system: the stack contract,
//! the layout of a fresh stack's first activation, and the generator
//! protocol — its state transitions, the value-transfer discipline, and the
//! bookkeeping around every switch. The switch itself is a short
//! architecture-specific register sequence that an embedder supplies; each
//! switch is described here by a [`Transfer`], and the embedder's only job
//! is to perform it and carry the `Transfer` from one side to the other.

mod generator;
mod laws;
mod stack;
mod stack_pointer;

pub use generator::resume_next_state;
pub use generator::resume_outcome;
pub use generator::Generator;
pub use generator::State;
pub use generator::Yielder;
pub use laws::lemma_echo_identity;
pub use laws::lemma_none_enables_unwrap;
pub use laws::lemma_outcomes_len;
pub use laws::lemma_some_means_runnable;
pub use laws::lemma_terminated_stays_terminated;
pub use laws::lemma_yield_delivered;
pub use laws::outcomes;
pub use laws::states_after;
pub use stack::GuardedStack;
pub use stack::RegionStack;
pub use stack::Stack;
pub use stack::PAGE_SIZE;
pub use stack::STACK_ALIGNMENT;
pub use stack_pointer::StackPointer;
pub use stack_pointer::Transfer;
pub use stack_pointer::ENTRY_FRAME_SIZE;
