//! Generators.
//!
//! Generators allow repeatedly suspending the execution of a function,
//! returning a value to the caller, and resuming the suspended function
//! afterwards.
//!
//! The generator body runs on its own stack, so caller and body meet only
//! at switches. Every switch is one [`Transfer`]: the datum crossing over
//! and the stack pointer of the side that pauses. The switch itself — a
//! short architecture-specific register save and restore — is the
//! embedder's machine-level step; everything decided around it lives here.
//! A resume therefore has two verified halves: [`Generator::resume_begin`]
//! decides whether a switch happens and builds the outgoing transfer, and
//! [`Generator::resume_end`] absorbs the transfer that comes back. A
//! suspension mirrors that on the body's side with [`Yielder::suspend`] and
//! [`Yielder::receive`].

use core::marker::PhantomData;

use vstd::prelude::*;

use crate::stack::GuardedStack;
use crate::stack::Stack;
use crate::stack_pointer::StackPointer;
use crate::stack_pointer::Transfer;

verus! {

/// Whether a generator may be switched onto.
#[derive(Debug, Clone, Copy, PartialEq, Eq, Structural)]
pub enum State {
    /// Generator can be resumed. This is the initial state.
    Runnable,
    /// Generator cannot be resumed. This is the state of the generator
    /// after the generator function has returned or panicked.
    Unavailable,
}

/// What a resume answers when the generator was in `state` and the body's
/// side of the switch delivered `yielded`: a terminated generator answers
/// nothing without switching at all, a runnable one answers whatever the
/// body yielded.
pub open spec fn resume_outcome<O>(state: State, yielded: Option<O>) -> Option<O> {
    match state {
        State::Runnable => yielded,
        State::Unavailable => None,
    }
}

/// The state a generator is left in by the same resume: it stays runnable
/// exactly as long as the body keeps yielding, and once it is unavailable —
/// the body returned or panicked — it stays so.
pub open spec fn resume_next_state<O>(state: State, yielded: Option<O>) -> State {
    match state {
        State::Runnable => if yielded is Some {
            State::Runnable
        } else {
            State::Unavailable
        },
        State::Unavailable => State::Unavailable,
    }
}

/// A generator: a function given its own stack, able to suspend itself and
/// yield a value each time.
///
/// The first resume enters the body; each `yielder.suspend(output)` inside
/// the body pauses it and makes that resume answer `Some(output)`; the next
/// resume's input becomes the value that `suspend` returns inside the body.
/// Once the body returns, every further resume answers `None`, and the
/// stack may be reclaimed with [`Generator::unwrap`].
///
/// The type parameters fix the two directions of the word channel: `I`
/// flows from caller to body, `O` back. Both cross stacks, and a paused
/// generator may itself move to another thread, so both must be `Send`.
pub struct Generator<I, O, S> where I: Send, O: Send, S: Stack {
    state: State,
    stack: S,
    stack_ptr: StackPointer,
    channel: PhantomData<(I, O)>,
}

impl<I: Send, O: Send, S: Stack> Generator<I, O, S> {
    /// Whether the generator may still be switched onto.
    pub closed spec fn state_of(&self) -> State {
        self.state
    }

    /// The stack the generator's body runs on.
    pub closed spec fn stack_of(&self) -> S {
        self.stack
    }

    /// Where the body is paused.
    pub closed spec fn sp_of(&self) -> StackPointer {
        self.stack_ptr
    }

    /// The paused body's stack pointer lies inside the generator's own
    /// stack — a stack pointer token never outlives or escapes its region.
    pub open spec fn wf(&self) -> bool {
        self.stack_of().limit_addr() <= self.sp_of().addr() <= self.stack_of().base_addr()
    }

    /// Adopts a freshly prepared stack as a runnable generator.
    ///
    /// By now the embedder has laid the entry frame at
    /// [`StackPointer::init`]'s address and performed the handshake switch
    /// that moves the body's environment onto the new stack; `stack_ptr` is
    /// where that handshake left the body paused. Requiring a
    /// [`GuardedStack`] keeps a body that overflows from running past its
    /// region undetected.
    pub fn new(stack: S, stack_ptr: StackPointer) -> (g: Self) where S: GuardedStack
        requires
            stack.limit_addr() <= stack_ptr.addr() <= stack.base_addr(),
        ensures
            g.state_of() == State::Runnable,
            g.stack_of() == stack,
            g.sp_of() == stack_ptr,
            g.wf(),
    {
        Generator { state: State::Runnable, stack, stack_ptr, channel: PhantomData }
    }

    /// First half of a resume: decide whether a switch happens.
    ///
    /// A terminated generator answers `None` at once — the resume is over,
    /// nothing switches. A runnable one hands back the transfer to perform:
    /// the input as the word, the paused body as the target. The state
    /// drops to [`State::Unavailable`] before any switch, so if the body
    /// panics instead of yielding, a later resume finds a cleanly
    /// terminated generator rather than a poisoned stack.
    pub fn resume_begin(&mut self, input: I) -> (t: Option<Transfer<I>>)
        ensures
            old(self).state_of() == State::Unavailable ==> {
                &&& t is None
                &&& *final(self) == *old(self)
            },
            old(self).state_of() == State::Runnable ==> {
                &&& t == Some((Transfer { word: input, sp: old(self).sp_of() }))
                &&& final(self).state_of() == State::Unavailable
                &&& final(self).stack_of() == old(self).stack_of()
                &&& final(self).sp_of() == old(self).sp_of()
            },
    {
        match self.state {
            State::Unavailable => None,
            State::Runnable => {
                self.state = State::Unavailable;
                Some(Transfer { word: input, sp: self.stack_ptr })
            },
        }
    }

    /// Second half of a resume: absorb what the switch back delivered.
    ///
    /// The word is the resume's answer, exactly as the body's side sent it:
    /// `Some(output)` from a suspension, `None` once the body has returned.
    /// The generator is runnable again only in the former case, and it
    /// remembers where the caller's switch left the body paused.
    pub fn resume_end(&mut self, t: Transfer<Option<O>>) -> (r: Option<O>)
        requires
            old(self).state_of() == State::Unavailable,
            old(self).stack_of().limit_addr() <= t.sp.addr() <= old(self).stack_of().base_addr(),
        ensures
            r == resume_outcome(State::Runnable, t.word),
            final(self).state_of() == resume_next_state(State::Runnable, t.word),
            final(self).stack_of() == old(self).stack_of(),
            final(self).sp_of() == t.sp,
            final(self).wf(),
    {
        let Transfer { word, sp } = t;
        self.stack_ptr = sp;
        if word.is_some() {
            self.state = State::Runnable;
        }
        word
    }

    /// Returns the state of the generator.
    pub fn state(&self) -> (r: State)
        ensures
            r == self.state_of(),
    {
        self.state
    }

    /// Extracts the stack from a generator whose body has returned or
    /// panicked. While the generator is still runnable its stack holds a
    /// live, paused execution, so reclaiming it then is not on offer.
    pub fn unwrap(self) -> (r: S)
        requires
            self.state_of() == State::Unavailable,
        ensures
            r == self.stack_of(),
    {
        self.stack
    }

    /// The lowest usable byte of the generator's stack.
    pub fn stack_limit(&self) -> (r: usize)
        ensures
            r == self.stack_of().limit_addr(),
    {
        self.stack.limit()
    }

    /// One past the highest usable byte of the generator's stack. An
    /// embedder registers `[stack_limit, stack_base)` with an attached
    /// debugger so that backtraces cross the switch.
    pub fn stack_base(&self) -> (r: usize)
        ensures
            r == self.stack_of().base_addr(),
    {
        self.stack.base()
    }
}

/// Yielder is an interface provided to every generator through which it
/// returns a value.
///
/// It lives on the generator's stack and holds the one thing the body needs
/// in order to pause: where the caller is paused. Every round trip updates
/// that token. It must never leave the body's stack — handing it to another
/// thread or stashing it where the caller can reach it breaks the pairing
/// of the two sides.
pub struct Yielder<I, O> where I: Send, O: Send {
    stack_ptr: StackPointer,
    channel: PhantomData<(I, O)>,
}

impl<I: Send, O: Send> Yielder<I, O> {
    /// Where the caller is paused.
    pub closed spec fn caller_of(&self) -> StackPointer {
        self.stack_ptr
    }

    /// Builds the body's handle around the caller's paused stack pointer,
    /// as the entry trampoline does once the first resume has arrived.
    pub fn new(stack_ptr: StackPointer) -> (y: Self)
        ensures
            y.caller_of() == stack_ptr,
    {
        Yielder { stack_ptr, channel: PhantomData }
    }

    /// First half of a bare suspension: the transfer that pauses the body.
    ///
    /// The word carries `Some(output)` for an ordinary yield. The entry
    /// trampoline sends `None` once the body has returned — and keeps
    /// sending it, so that a terminated generator signals termination on
    /// every further resume.
    pub fn suspend_bare(&self, val: Option<O>) -> (t: Transfer<Option<O>>)
        ensures
            t.word == val,
            t.sp == self.caller_of(),
    {
        Transfer { word: val, sp: self.stack_ptr }
    }

    /// Suspends the generator: the transfer pauses the body and makes the
    /// resume in progress answer `Some(item)`.
    pub fn suspend(&self, item: O) -> (t: Transfer<Option<O>>)
        ensures
            t.word == Some(item),
            t.sp == self.caller_of(),
    {
        self.suspend_bare(Some(item))
    }

    /// Second half of a suspension: the caller's next resume arrived.
    ///
    /// The word is exactly the input that resume carried — inside the body
    /// it is what `suspend` returns — and the handle now remembers where
    /// that resume paused the caller.
    pub fn receive(&mut self, t: Transfer<I>) -> (r: I)
        ensures
            r == t.word,
            final(self).caller_of() == t.sp,
    {
        let Transfer { word, sp } = t;
        self.stack_ptr = sp;
        word
    }
}

} // verus!
