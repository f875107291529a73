//! Instructions that shuffle the operand stack.
use crate::error::JVMError;
use crate::vm::effect::{dup_one, dup_one_x1, dup_one_x2, dup_two, dup_two_x1, dup_two_x2, pop_one, pop_two, swap_two};
use crate::vm::jvm::{JVMResult, JVM};
use crate::vm::stack_frame::{follows, StackFrame};
use vstd::prelude::*;

verus! {

impl JVM {

    /// `pop`: discards the top value.
    pub fn pop(frame: &mut StackFrame) -> (r: JVMResult)
        ensures
            follows(*old(frame), *final(frame), r, pop_one(old(frame).state())),
    {
        let n = frame.operand_stack.len();
        if n < 1 {
            return Err(JVMError::InterpreterBug);
        }
        Self::replace_top(frame, 1, Vec::new())
    }

    /// `pop2`: discards the top value when it is of category 2, and else the two topmost values.
    pub fn pop2(frame: &mut StackFrame) -> (r: JVMResult)
        ensures
            follows(*old(frame), *final(frame), r, pop_two(old(frame).state())),
    {
        let n = frame.operand_stack.len();
        if n < 1 {
            return Err(JVMError::InterpreterBug);
        }
        if frame.operand_stack[n - 1].is_category2() {
            Self::replace_top(frame, 1, Vec::new())
        } else if n < 2 {
            Err(JVMError::InterpreterBug)
        } else {
            Self::replace_top(frame, 2, Vec::new())
        }
    }

    /// `dup`: pushes the top value again.
    pub fn dup(frame: &mut StackFrame) -> (r: JVMResult)
        ensures
            follows(*old(frame), *final(frame), r, dup_one(old(frame).state())),
    {
        let v = frame.peek()?;
        frame.push(v)
    }

    /// `dup_x1`: inserts a copy of the top value below the value under it.
    pub fn dup_x1(frame: &mut StackFrame) -> (r: JVMResult)
        ensures
            follows(*old(frame), *final(frame), r, dup_one_x1(old(frame).state())),
    {
        let n = frame.operand_stack.len();
        if n < 2 {
            return Err(JVMError::InterpreterBug);
        }
        let v1 = frame.operand_stack[n - 1];
        let v2 = frame.operand_stack[n - 2];
        Self::replace_top(frame, 2, vec![v1, v2, v1])
    }

    /// `dup_x2`: inserts a copy of the top value two slots down.
    pub fn dup_x2(frame: &mut StackFrame) -> (r: JVMResult)
        ensures
            follows(*old(frame), *final(frame), r, dup_one_x2(old(frame).state())),
    {
        let n = frame.operand_stack.len();
        if n < 2 {
            return Err(JVMError::InterpreterBug);
        }
        let v1 = frame.operand_stack[n - 1];
        let v2 = frame.operand_stack[n - 2];
        if v2.is_category2() {
            Self::replace_top(frame, 2, vec![v1, v2, v1])
        } else if n < 3 {
            Err(JVMError::InterpreterBug)
        } else {
            let v3 = frame.operand_stack[n - 3];
            Self::replace_top(frame, 3, vec![v1, v3, v2, v1])
        }
    }

    /// `dup2`: pushes the top value again when it is of category 2, and else the two topmost values again.
    pub fn dup2(frame: &mut StackFrame) -> (r: JVMResult)
        ensures
            follows(*old(frame), *final(frame), r, dup_two(old(frame).state())),
    {
        let n = frame.operand_stack.len();
        if n < 1 {
            return Err(JVMError::InterpreterBug);
        }
        let v1 = frame.operand_stack[n - 1];
        if v1.is_category2() {
            Self::replace_top(frame, 1, vec![v1, v1])
        } else if n < 2 {
            Err(JVMError::InterpreterBug)
        } else {
            let v2 = frame.operand_stack[n - 2];
            Self::replace_top(frame, 2, vec![v2, v1, v2, v1])
        }
    }

    /// `dup2_x1`: inserts a copy of the top two slots below the value under them.
    pub fn dup2_x1(frame: &mut StackFrame) -> (r: JVMResult)
        ensures
            follows(*old(frame), *final(frame), r, dup_two_x1(old(frame).state())),
    {
        let n = frame.operand_stack.len();
        if n < 2 {
            return Err(JVMError::InterpreterBug);
        }
        let v1 = frame.operand_stack[n - 1];
        let v2 = frame.operand_stack[n - 2];
        if v1.is_category2() {
            Self::replace_top(frame, 2, vec![v1, v2, v1])
        } else if n < 3 {
            Err(JVMError::InterpreterBug)
        } else {
            let v3 = frame.operand_stack[n - 3];
            Self::replace_top(frame, 3, vec![v2, v1, v3, v2, v1])
        }
    }

    /// `dup2_x2`: inserts a copy of the top two slots below the two slots under them, where a value of category 2 fills two slots.
    pub fn dup2_x2(frame: &mut StackFrame) -> (r: JVMResult)
        ensures
            follows(*old(frame), *final(frame), r, dup_two_x2(old(frame).state())),
    {
        let n = frame.operand_stack.len();
        if n < 2 {
            return Err(JVMError::InterpreterBug);
        }
        let v1 = frame.operand_stack[n - 1];
        let v2 = frame.operand_stack[n - 2];
        if v1.is_category2() && v2.is_category2() {
            Self::replace_top(frame, 2, vec![v1, v2, v1])
        } else if n < 3 {
            Err(JVMError::InterpreterBug)
        } else {
            let v3 = frame.operand_stack[n - 3];
            if v1.is_category2() {
                Self::replace_top(frame, 3, vec![v1, v3, v2, v1])
            } else if v3.is_category2() {
                Self::replace_top(frame, 3, vec![v2, v1, v3, v2, v1])
            } else if n < 4 {
                Err(JVMError::InterpreterBug)
            } else {
                let v4 = frame.operand_stack[n - 4];
                Self::replace_top(frame, 4, vec![v2, v1, v4, v3, v2, v1])
            }
        }
    }

    /// `swap`: exchanges the two topmost values.
    pub fn swap(frame: &mut StackFrame) -> (r: JVMResult)
        ensures
            follows(*old(frame), *final(frame), r, swap_two(old(frame).state())),
    {
        let n = frame.operand_stack.len();
        if n < 2 {
            return Err(JVMError::InterpreterBug);
        }
        let v1 = frame.operand_stack[n - 1];
        let v2 = frame.operand_stack[n - 2];
        Self::replace_top(frame, 2, vec![v1, v2])
    }

}

} // verus!
