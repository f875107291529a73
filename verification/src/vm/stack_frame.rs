//! The record of one method invocation.
use crate::error::JVMError;
use crate::vm::effect::{below, top, FrameState, Outcome};
use crate::vm::jvalue::JValue;
use crate::vm::method::Method;
use std::rc::Rc;
use vstd::prelude::*;

verus! {

/// The record of one invocation: the method, its class, the position in the
/// method's code, the local variables and the operand stack.
#[derive(Debug)]
pub struct StackFrame {
    pub locals: Vec<JValue>,
    pub operand_stack: Vec<JValue>,
    /// The handle of the class that owns the method.
    pub class: usize,
    pub method: Rc<Method>,
    pub pc: usize,
}

/// `std::rc::Rc::clone`: a second handle to the same shared value.
#[verifier::external_body]
pub(crate) fn share<T>(value: &Rc<T>) -> (r: Rc<T>)
    ensures
        r == *value,
{
    Rc::clone(value)
}

/// `post` is what an instruction that does not branch makes of `pre`: it
/// returned `r`, and on success the frame holds the expected stack and
/// locals at an unchanged position.  On a fault the frame is unchanged.  A
/// frame that kept within its method still does.
pub open spec fn follows(
    pre: StackFrame,
    post: StackFrame,
    r: Result<(), JVMError>,
    expected: Result<Outcome, JVMError>,
) -> bool {
    &&& pre.wf() ==> post.wf()
    &&& match expected {
        Ok(o) => {
            &&& r is Ok
            &&& o.jump is None
            &&& post.operand_stack@ == o.stack
            &&& post.locals@ == o.locals
            &&& post.pc == pre.pc
            &&& post.class == pre.class
            &&& post.method == pre.method
        },
        Err(e) => r == Err::<(), JVMError>(e) && post == pre,
    }
}

/// `post` is what an instruction that may branch makes of `pre`: it
/// returned whether it branched, and on success the frame holds the
/// expected stack and locals, at the branch target when it branched and at
/// an unchanged position when it did not.  On a fault the frame is
/// unchanged.  A frame that kept within its method still does.
pub open spec fn follows_branch(
    pre: StackFrame,
    post: StackFrame,
    r: Result<bool, JVMError>,
    expected: Result<Outcome, JVMError>,
) -> bool {
    &&& pre.wf() ==> post.wf()
    &&& match expected {
        Ok(o) => {
            &&& r == Ok::<bool, JVMError>(o.jump is Some)
            &&& post.operand_stack@ == o.stack
            &&& post.locals@ == o.locals
            &&& post.pc == (if o.jump is Some {
                o.jump->0
            } else {
                pre.pc as int
            })
            &&& post.class == pre.class
            &&& post.method == pre.method
        },
        Err(e) => r == Err::<bool, JVMError>(e) && post == pre,
    }
}

impl StackFrame {
    /// The frame as the instructions see it.
    pub open spec fn state(&self) -> FrameState {
        FrameState {
            stack: self.operand_stack@,
            locals: self.locals@,
            pc: self.pc as int,
            max_stack: self.method.max_stack as int,
            code_len: self.method.code@.len() as int,
        }
    }

    /// The frame keeps within its method: as many locals as the method
    /// declares, an operand stack no deeper than the method allows, and a
    /// position inside the code or at its end.
    ///
    /// The depth of the operand stack is counted in values: a long or a
    /// double is one value of the stack and counts once, though it takes
    /// two slots of a class file's `max_stack`.  A method that keeps to
    /// its limit in slots holds no more values than that, so the bound
    /// in values refuses no such method.
    pub open spec fn wf(&self) -> bool {
        &&& self.locals@.len() == self.method.max_locals
        &&& self.operand_stack@.len() <= self.method.max_stack
        &&& self.pc <= self.method.code@.len()
    }

    /// `self` differs from `pre` in its operand stack alone.
    pub open spec fn same_but_stack(&self, pre: StackFrame) -> bool {
        &&& self.locals == pre.locals
        &&& self.class == pre.class
        &&& self.method == pre.method
        &&& self.pc == pre.pc
    }

    /// A frame at the start of `method`, with every local null and an empty
    /// operand stack.
    pub fn new(class: usize, method: Rc<Method>) -> (f: StackFrame)
        ensures
            f.wf(),
            f.class == class,
            f.method == method,
            f.pc == 0,
            f.operand_stack@ == Seq::<JValue>::empty(),
            f.locals@ == Seq::new(method.max_locals as nat, |i: int| JValue::Null),
    {
        let locals = vec![JValue::Null; method.max_locals as usize];
        assert(locals@ =~= Seq::new(method.max_locals as nat, |i: int| JValue::Null));
        StackFrame { locals, operand_stack: Vec::new(), class, method, pc: 0 }
    }

    /// The value on top of the operand stack; `InterpreterBug` when the
    /// stack is empty.
    pub fn peek(&self) -> (r: Result<JValue, JVMError>)
        ensures
            r is Ok <==> self.operand_stack@.len() > 0,
            r is Ok ==> r->Ok_0 == top(self.operand_stack@, 0),
            r is Err ==> r->Err_0 == JVMError::InterpreterBug,
    {
        let n = self.operand_stack.len();
        if n == 0 {
            Err(JVMError::InterpreterBug)
        } else {
            Ok(self.operand_stack[n - 1])
        }
    }

    /// Pushes `v`; `InterpreterBug`, and no change, when the stack is as
    /// deep as the method allows.
    pub fn push(&mut self, v: JValue) -> (r: Result<(), JVMError>)
        ensures
            r is Ok <==> old(self).operand_stack@.len() < old(self).method.max_stack,
            r is Ok ==> final(self).operand_stack@ == old(self).operand_stack@.push(v)
                && final(self).same_but_stack(*old(self)),
            r is Err ==> r->Err_0 == JVMError::InterpreterBug && *final(self) == *old(self),
    {
        if self.operand_stack.len() >= self.method.max_stack as usize {
            Err(JVMError::InterpreterBug)
        } else {
            self.operand_stack.push(v);
            Ok(())
        }
    }

    /// Pops the top value; `InterpreterBug`, and no change, when the stack
    /// is empty.
    pub fn pop(&mut self) -> (r: Result<JValue, JVMError>)
        ensures
            r is Ok <==> old(self).operand_stack@.len() > 0,
            r is Ok ==> r->Ok_0 == top(old(self).operand_stack@, 0)
                && final(self).operand_stack@ == below(old(self).operand_stack@, 1)
                && final(self).same_but_stack(*old(self)),
            r is Err ==> r->Err_0 == JVMError::InterpreterBug && *final(self) == *old(self),
    {
        if self.operand_stack.len() == 0 {
            return Err(JVMError::InterpreterBug);
        }
        let v = self.operand_stack.pop().unwrap();
        assert(self.operand_stack@ =~= below(old(self).operand_stack@, 1));
        Ok(v)
    }

    /// A typed pop returned `r`: on success the top value is gone, on a
    /// fault the frame is unchanged.
    pub open spec fn popped<T>(pre: StackFrame, post: StackFrame, r: Result<T, JVMError>) -> bool {
        if r is Ok {
            post.operand_stack@ == below(pre.operand_stack@, 1) && post.same_but_stack(pre)
        } else {
            post == pre
        }
    }

    /// What `pop_int` returns on a stack `s`.
    pub open spec fn int_on_top(s: Seq<JValue>) -> Result<i32, JVMError> {
        if s.len() == 0 {
            Err(JVMError::InterpreterBug)
        } else {
            match top(s, 0) {
                JValue::Int(x) => Ok(x),
                _ => Err(JVMError::TypeMismatch),
            }
        }
    }

    /// Pops an `Int`.  `InterpreterBug` on an empty stack, `TypeMismatch`
    /// when the top value is no `Int`.
    pub fn pop_int(&mut self) -> (r: Result<i32, JVMError>)
        ensures
            r == Self::int_on_top(old(self).operand_stack@),
            Self::popped(*old(self), *final(self), r),
    {
        match self.peek()? {
            JValue::Int(x) => {
                let _ = self.pop();
                Ok(x)
            },
            _ => Err(JVMError::TypeMismatch),
        }
    }

    /// What `pop_long` returns on a stack `s`.
    pub open spec fn long_on_top(s: Seq<JValue>) -> Result<i64, JVMError> {
        if s.len() == 0 {
            Err(JVMError::InterpreterBug)
        } else {
            match top(s, 0) {
                JValue::Long(x) => Ok(x),
                _ => Err(JVMError::TypeMismatch),
            }
        }
    }

    /// Pops a `Long`.  `InterpreterBug` on an empty stack, `TypeMismatch`
    /// when the top value is no `Long`.
    pub fn pop_long(&mut self) -> (r: Result<i64, JVMError>)
        ensures
            r == Self::long_on_top(old(self).operand_stack@),
            Self::popped(*old(self), *final(self), r),
    {
        match self.peek()? {
            JValue::Long(x) => {
                let _ = self.pop();
                Ok(x)
            },
            _ => Err(JVMError::TypeMismatch),
        }
    }

    /// What `pop_float` returns on a stack `s`.
    pub open spec fn float_on_top(s: Seq<JValue>) -> Result<u32, JVMError> {
        if s.len() == 0 {
            Err(JVMError::InterpreterBug)
        } else {
            match top(s, 0) {
                JValue::Float(x) => Ok(x),
                _ => Err(JVMError::TypeMismatch),
            }
        }
    }

    /// Pops a `Float` and returns its bit pattern.  `InterpreterBug` on an
    /// empty stack, `TypeMismatch` when the top value is no `Float`.
    pub fn pop_float(&mut self) -> (r: Result<u32, JVMError>)
        ensures
            r == Self::float_on_top(old(self).operand_stack@),
            Self::popped(*old(self), *final(self), r),
    {
        match self.peek()? {
            JValue::Float(x) => {
                let _ = self.pop();
                Ok(x)
            },
            _ => Err(JVMError::TypeMismatch),
        }
    }

    /// What `pop_double` returns on a stack `s`.
    pub open spec fn double_on_top(s: Seq<JValue>) -> Result<u64, JVMError> {
        if s.len() == 0 {
            Err(JVMError::InterpreterBug)
        } else {
            match top(s, 0) {
                JValue::Double(x) => Ok(x),
                _ => Err(JVMError::TypeMismatch),
            }
        }
    }

    /// Pops a `Double` and returns its bit pattern.  `InterpreterBug` on an
    /// empty stack, `TypeMismatch` when the top value is no `Double`.
    pub fn pop_double(&mut self) -> (r: Result<u64, JVMError>)
        ensures
            r == Self::double_on_top(old(self).operand_stack@),
            Self::popped(*old(self), *final(self), r),
    {
        match self.peek()? {
            JValue::Double(x) => {
                let _ = self.pop();
                Ok(x)
            },
            _ => Err(JVMError::TypeMismatch),
        }
    }

    /// What `pop_ref` returns on a stack `s`.
    pub open spec fn reference_on_top(s: Seq<JValue>) -> Result<usize, JVMError> {
        if s.len() == 0 {
            Err(JVMError::InterpreterBug)
        } else {
            match top(s, 0) {
                JValue::Reference(handle) => Ok(handle),
                JValue::Null => Err(JVMError::NullDereference),
                _ => Err(JVMError::TypeMismatch),
            }
        }
    }

    /// Pops a reference to an object and returns the object's handle.
    /// `InterpreterBug` on an empty stack, `NullDereference` when the top
    /// value is null, `TypeMismatch` when it is no reference.
    pub fn pop_ref(&mut self) -> (r: Result<usize, JVMError>)
        ensures
            r == Self::reference_on_top(old(self).operand_stack@),
            Self::popped(*old(self), *final(self), r),
    {
        match self.peek()? {
            JValue::Reference(handle) => {
                let _ = self.pop();
                Ok(handle)
            },
            JValue::Null => Err(JVMError::NullDereference),
            _ => Err(JVMError::TypeMismatch),
        }
    }

    /// Pushes `Int(num)`.
    pub fn push_int(&mut self, num: i32) -> (r: Result<(), JVMError>)
        ensures
            r is Ok <==> old(self).operand_stack@.len() < old(self).method.max_stack,
            r is Ok ==> final(self).operand_stack@ == old(self).operand_stack@.push(
                JValue::Int(num),
            ) && final(self).same_but_stack(*old(self)),
            r is Err ==> r->Err_0 == JVMError::InterpreterBug && *final(self) == *old(self),
    {
        self.push(JValue::Int(num))
    }

    /// Pushes `Long(num)`.
    pub fn push_long(&mut self, num: i64) -> (r: Result<(), JVMError>)
        ensures
            r is Ok <==> old(self).operand_stack@.len() < old(self).method.max_stack,
            r is Ok ==> final(self).operand_stack@ == old(self).operand_stack@.push(
                JValue::Long(num),
            ) && final(self).same_but_stack(*old(self)),
            r is Err ==> r->Err_0 == JVMError::InterpreterBug && *final(self) == *old(self),
    {
        self.push(JValue::Long(num))
    }

    /// Pushes the `Float` with bit pattern `bits`.
    pub fn push_float(&mut self, bits: u32) -> (r: Result<(), JVMError>)
        ensures
            r is Ok <==> old(self).operand_stack@.len() < old(self).method.max_stack,
            r is Ok ==> final(self).operand_stack@ == old(self).operand_stack@.push(
                JValue::Float(bits),
            ) && final(self).same_but_stack(*old(self)),
            r is Err ==> r->Err_0 == JVMError::InterpreterBug && *final(self) == *old(self),
    {
        self.push(JValue::Float(bits))
    }

    /// Pushes the `Double` with bit pattern `bits`.
    pub fn push_double(&mut self, bits: u64) -> (r: Result<(), JVMError>)
        ensures
            r is Ok <==> old(self).operand_stack@.len() < old(self).method.max_stack,
            r is Ok ==> final(self).operand_stack@ == old(self).operand_stack@.push(
                JValue::Double(bits),
            ) && final(self).same_but_stack(*old(self)),
            r is Err ==> r->Err_0 == JVMError::InterpreterBug && *final(self) == *old(self),
    {
        self.push(JValue::Double(bits))
    }

    /// Pushes a reference to the object with handle `reference`.
    pub fn push_ref(&mut self, reference: usize) -> (r: Result<(), JVMError>)
        ensures
            r is Ok <==> old(self).operand_stack@.len() < old(self).method.max_stack,
            r is Ok ==> final(self).operand_stack@ == old(self).operand_stack@.push(
                JValue::Reference(reference),
            ) && final(self).same_but_stack(*old(self)),
            r is Err ==> r->Err_0 == JVMError::InterpreterBug && *final(self) == *old(self),
    {
        self.push(JValue::Reference(reference))
    }
}

} // verus!
