//! The token that stands for a paused execution, and the record of what one
//! switch between two executions carries.

use vstd::prelude::*;

use crate::stack::Stack;
use crate::stack::PAGE_SIZE;
use crate::stack::STACK_ALIGNMENT;

verus! {

/// Size in bytes of the synthetic activation frame that the first switch
/// onto a fresh stack consumes: room for the entry address, a frame-pointer
/// slot, and a sentinel return address that terminates a debugger's
/// backtrace at the stack boundary. A multiple of [`STACK_ALIGNMENT`], so
/// laying the frame below an aligned base keeps the stack pointer aligned.
pub const ENTRY_FRAME_SIZE: usize = 32;

/// An opaque token for the top of a paused stack.
///
/// It stands for the machine stack pointer under which the paused
/// execution's callee-saved registers and return address lie. Exactly one
/// such token exists per paused execution; it is valid only while that
/// execution stays paused, and only a switch may consume it.
#[derive(Clone, Copy, PartialEq, Eq, Structural, Debug)]
pub struct StackPointer {
    addr: usize,
}

impl StackPointer {
    /// The address the token stands for.
    pub closed spec fn addr(self) -> usize {
        self.addr
    }

    /// Returns the address the token stands for.
    pub fn address(self) -> (r: usize)
        ensures
            r == self.addr(),
    {
        self.addr
    }

    /// Lays out the top of a fresh stack for its first activation.
    ///
    /// The synthetic entry frame occupies the [`ENTRY_FRAME_SIZE`] bytes at
    /// the very top of the region, so the first switch onto the returned
    /// token pops that frame and lands in the entry trampoline with an
    /// ABI-aligned stack pointer. Writing the frame's words is the
    /// embedder's machine-level step; this function fixes where they go.
    pub fn init<S: Stack>(stack: &S) -> (sp: StackPointer)
        ensures
            sp.addr() % STACK_ALIGNMENT == 0,
            stack.limit_addr() <= sp.addr(),
            sp.addr() + ENTRY_FRAME_SIZE == stack.base_addr(),
    {
        let base = stack.base();
        StackPointer { addr: base - ENTRY_FRAME_SIZE }
    }
}

/// Everything that one switch between two executions carries.
///
/// A switch saves the running execution's callee-saved registers, loads the
/// other side's stack pointer, and hands a single machine word across. On
/// the way out, `sp` is the paused execution to load and `word` the datum
/// for the far side; on the way in, `sp` is where the side that just paused
/// stopped, and `word` the datum it sent. Moving the typed `word` by value
/// is the value-transfer discipline: the sender gives the datum up, the
/// receiver alone owns it afterwards.
pub struct Transfer<T> {
    /// The datum crossing the switch.
    pub word: T,
    /// The paused execution on the far side of the switch.
    pub sp: StackPointer,
}

} // verus!
