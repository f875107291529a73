//! A thread: a call stack of frames.
use crate::vm::stack_frame::StackFrame;
use vstd::prelude::*;

verus! {

/// A call stack.  The interpreter works on the last frame.
#[derive(Debug)]
pub struct JThread {
    pub stack: Vec<StackFrame>,
}

impl JThread {
    /// Every frame keeps within its method.
    pub open spec fn wf(&self) -> bool {
        forall|i: int| 0 <= i < self.stack@.len() ==> (#[trigger] self.stack@[i]).wf()
    }

    /// A thread without frames.
    pub fn new() -> (t: JThread)
        ensures
            t.stack@ == Seq::<StackFrame>::empty(),
            t.wf(),
    {
        JThread { stack: Vec::new() }
    }
}

} // verus!
