//! Instructions that return from a method.
use crate::error::JVMError;
use crate::vm::effect::{top, Kind};
use crate::vm::jthread::JThread;
use crate::vm::jvalue::JValue;
use crate::vm::jvm::{JVMResult, JVM};
use crate::vm::stack_frame::StackFrame;
use vstd::prelude::*;

verus! {

/// The value that a return hands to the caller: none for a return without
/// value, and else the top of the returning frame's stack, which must be
/// there (`InterpreterBug`) and of the kind `kind` (`TypeMismatch`), and for
/// which the caller's stack, if there is a caller, must have room
/// (`InterpreterBug`).  A thread without frames cannot return
/// (`InterpreterBug`).
pub open spec fn return_value(frames: Seq<StackFrame>, kind: Option<Kind>) -> Result<
    Option<JValue>,
    JVMError,
> {
    if frames.len() < 1 {
        Err(JVMError::InterpreterBug)
    } else {
        match kind {
            None => Ok(None),
            Some(k) => if frames.last().operand_stack@.len() < 1 {
                Err(JVMError::InterpreterBug)
            } else if !k.admits(top(frames.last().operand_stack@, 0)) {
                Err(JVMError::TypeMismatch)
            } else if frames.len() >= 2 && frames[frames.len() - 2].operand_stack@.len()
                >= frames[frames.len() - 2].method.max_stack {
                Err(JVMError::InterpreterBug)
            } else {
                Ok(Some(top(frames.last().operand_stack@, 0)))
            },
        }
    }
}

/// What a return does to a thread: the top frame is gone, and the caller,
/// if there is one, has the returned value on its stack, at the position
/// where it stood.  A fault changes nothing.
pub open spec fn returned(pre: JThread, post: JThread, r: JVMResult, kind: Option<Kind>) -> bool {
    &&& pre.wf() ==> post.wf()
    &&& match return_value(pre.stack@, kind) {
        Err(e) => r == Err::<(), JVMError>(e) && post == pre,
        Ok(value) => {
            let n = pre.stack@.len() as int;
            &&& r is Ok
            &&& post.stack@.len() == n - 1
            &&& forall|i: int| 0 <= i < n - 2 ==> #[trigger] post.stack@[i] == pre.stack@[i]
            &&& n >= 2 ==> {
                &&& post.stack@[n - 2].same_but_stack(pre.stack@[n - 2])
                &&& post.stack@[n - 2].operand_stack@ == (match value {
                    Some(v) => pre.stack@[n - 2].operand_stack@.push(v),
                    None => pre.stack@[n - 2].operand_stack@,
                })
            }
        },
    }
}

impl JVM {
    /// Returns from the top frame of `thread`, with the top of its stack
    /// as a value of kind `kind`, or without value.
    pub fn return_with(thread: &mut JThread, kind: Option<Kind>) -> (r: JVMResult)
        ensures
            returned(*old(thread), *final(thread), r, kind),
    {
        let n = thread.stack.len();
        if n < 1 {
            return Err(JVMError::InterpreterBug);
        }
        let value = match kind {
            None => None,
            Some(k) => {
                let v = thread.stack[n - 1].peek()?;
                if !k.accepts(v) {
                    return Err(JVMError::TypeMismatch);
                }
                if n >= 2 && thread.stack[n - 2].operand_stack.len() >= thread.stack[n
                    - 2].method.max_stack as usize {
                    return Err(JVMError::InterpreterBug);
                }
                Some(v)
            },
        };
        let _ = thread.stack.pop();
        if n >= 2 {
            match value {
                Some(v) => {
                    thread.stack[n - 2].operand_stack.push(v);
                },
                None => {},
            }
        }
        Ok(())
    }

    /// `ireturn`: returns an integer to the caller.
    pub fn ireturn(thread: &mut JThread) -> (r: JVMResult)
        ensures
            returned(*old(thread), *final(thread), r, Some(Kind::Int)),
    {
        Self::return_with(thread, Some(Kind::Int))
    }

    /// `lreturn`: returns a long to the caller.
    pub fn lreturn(thread: &mut JThread) -> (r: JVMResult)
        ensures
            returned(*old(thread), *final(thread), r, Some(Kind::Long)),
    {
        Self::return_with(thread, Some(Kind::Long))
    }

    /// `freturn`: returns a float to the caller.
    pub fn freturn(thread: &mut JThread) -> (r: JVMResult)
        ensures
            returned(*old(thread), *final(thread), r, Some(Kind::Float)),
    {
        Self::return_with(thread, Some(Kind::Float))
    }

    /// `dreturn`: returns a double to the caller.
    pub fn dreturn(thread: &mut JThread) -> (r: JVMResult)
        ensures
            returned(*old(thread), *final(thread), r, Some(Kind::Double)),
    {
        Self::return_with(thread, Some(Kind::Double))
    }

    /// `areturn`: returns a reference to the caller.
    pub fn areturn(thread: &mut JThread) -> (r: JVMResult)
        ensures
            returned(*old(thread), *final(thread), r, Some(Kind::Reference)),
    {
        Self::return_with(thread, Some(Kind::Reference))
    }

    /// `return`: returns to the caller without a value.
    pub fn return_op(thread: &mut JThread) -> (r: JVMResult)
        ensures
            returned(*old(thread), *final(thread), r, None),
    {
        Self::return_with(thread, None)
    }
}

} // verus!
