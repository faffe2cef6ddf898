//! The compile context: the configuration block that one compilation is given.

use vstd::prelude::*;

verus! {

/// A compile context of the engine, known by the address of its block. It is
/// made for one compilation and consumed by it.
#[derive(Debug)]
pub struct CompileContext {
    handle: usize,
}

impl View for CompileContext {
    type V = usize;

    /// The address of the context's block.
    closed spec fn view(&self) -> usize {
        self.handle
    }
}

impl CompileContext {
    #[verifier::type_invariant]
    spec fn allocated(&self) -> bool {
        self.handle != 0
    }

    /// Takes charge of the block that the engine allocated at `handle`. No
    /// context can be made of a failed allocation.
    pub fn new(handle: usize) -> (ctx: CompileContext)
        requires
            handle != 0,
        ensures
            ctx@ == handle,
    {
        CompileContext { handle }
    }

    /// The address to hand to the engine; it is never null.
    pub fn as_mut_ptr(&mut self) -> (handle: usize)
        ensures
            handle == old(self)@,
            handle != 0,
            final(self)@ == old(self)@,
    {
        proof {
            use_type_invariant(&*self);
        }
        self.handle
    }
}

} // verus!
