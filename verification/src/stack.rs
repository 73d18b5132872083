//! The bounded stack of subroutine return addresses.

use vstd::prelude::*;
use crate::fault::Fault;

verus! {

/// Up to sixteen return addresses, the most recent on top.
pub struct CallStack {
    frames: [u16; 16],
    depth: u8,
}

impl View for CallStack {
    type V = Seq<u16>;

    /// The live return addresses, oldest first.
    closed spec fn view(&self) -> Seq<u16> {
        self.frames@.take(
            if self.depth <= 16 {
                self.depth as int
            } else {
                16
            },
        )
    }
}

impl CallStack {
    #[verifier::type_invariant]
    spec fn within_depth(&self) -> bool {
        self.depth <= 16
    }

    /// An empty stack.
    pub fn new() -> (stack: Self)
        ensures
            stack@ == Seq::<u16>::empty(),
    {
        Self { frames: [0; 16], depth: 0 }
    }

    /// Number of return addresses held.
    pub fn depth(&self) -> (depth: u8)
        ensures
            depth == self@.len(),
    {
        proof {
            use_type_invariant(self);
        }
        self.depth
    }

    /// Puts `addr` on top, unless the stack is full.
    pub fn push(&mut self, addr: u16) -> (res: Result<(), Fault>)
        ensures
            old(self)@.len() < 16 ==> res is Ok && final(self)@ == old(self)@.push(addr),
            old(self)@.len() >= 16 ==> res == Err::<(), Fault>(Fault::StackOverflow) && final(self)@ == old(self)@,
    {
        proof {
            use_type_invariant(&*self);
        }
        if self.depth >= 16 {
            return Err(Fault::StackOverflow);
        }
        self.frames[self.depth as usize] = addr;
        self.depth += 1;
        Ok(())
    }

    /// Takes the top address off, unless the stack is empty.
    pub fn pop(&mut self) -> (res: Result<u16, Fault>)
        ensures
            old(self)@.len() > 0 ==> res == Ok::<u16, Fault>(old(self)@.last()) && final(self)@
                == old(self)@.drop_last(),
            old(self)@.len() == 0 ==> res == Err::<u16, Fault>(Fault::StackUnderflow) && final(self)@ == old(self)@,
    {
        proof {
            use_type_invariant(&*self);
        }
        if self.depth == 0 {
            return Err(Fault::StackUnderflow);
        }
        self.depth -= 1;
        Ok(self.frames[self.depth as usize])
    }
}

/// No stack holds more than sixteen addresses.
pub broadcast proof fn lemma_stack_len(stack: CallStack)
    ensures
        #[trigger] stack@.len() <= 16,
{
}

} // verus!
