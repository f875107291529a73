//! Instructions that read and write the elements of arrays.
use crate::arith::{
    bool_to_int, byte_to_int, char_to_int, int_to_byte, int_to_char, int_to_short, short_to_int,
};
use crate::error::JVMError;
use crate::vm::effect::below;
use crate::vm::heap_effect::{
    array_length_of, array_load, array_slot, array_store, element, updated, ArrayOp,
};
use crate::vm::jobject::{JObject, JObjectKind};
use crate::vm::jvalue::JValue;
use crate::vm::jvm::{JVMResult, JVM};
use crate::vm::stack_frame::{follows, StackFrame};
use vstd::prelude::*;

verus! {

impl ArrayOp {
    /// Computes `fits`.
    pub fn matches_kind(self, kind: &JObjectKind) -> (r: bool)
        ensures
            r == self.fits(*kind),
    {
        match (self, kind) {
            (ArrayOp::Int, JObjectKind::ArrayInt(_)) => true,
            (ArrayOp::Long, JObjectKind::ArrayLong(_)) => true,
            (ArrayOp::Float, JObjectKind::ArrayFloat(_)) => true,
            (ArrayOp::Double, JObjectKind::ArrayDouble(_)) => true,
            (ArrayOp::Reference, JObjectKind::ArrayRef(_)) => true,
            (ArrayOp::Byte, JObjectKind::ArrayByte(_)) => true,
            (ArrayOp::Byte, JObjectKind::ArrayBoolean(_)) => true,
            (ArrayOp::Char, JObjectKind::ArrayChar(_)) => true,
            (ArrayOp::Short, JObjectKind::ArrayShort(_)) => true,
            _ => false,
        }
    }

    /// Computes `takes`.
    pub fn accepts_value(self, v: JValue) -> (r: bool)
        ensures
            r == self.takes(v),
    {
        match (self, v) {
            (ArrayOp::Long, JValue::Long(_)) => true,
            (ArrayOp::Long, _) => false,
            (ArrayOp::Float, JValue::Float(_)) => true,
            (ArrayOp::Float, _) => false,
            (ArrayOp::Double, JValue::Double(_)) => true,
            (ArrayOp::Double, _) => false,
            (ArrayOp::Reference, JValue::Reference(_)) => true,
            (ArrayOp::Reference, JValue::Null) => true,
            (ArrayOp::Reference, _) => false,
            (_, JValue::Int(_)) => true,
            _ => false,
        }
    }
}

impl JObjectKind {
    /// The number of elements of an array, and zero for an object that is
    /// no array.
    pub fn len(&self) -> (n: usize)
        ensures
            self.length() is Some ==> n == self.length()->0,
            self.length() is None ==> n == 0,
    {
        match self {
            JObjectKind::Object => 0,
            JObjectKind::Mirror(_) => 0,
            JObjectKind::ArrayInt(v) => v.len(),
            JObjectKind::ArrayLong(v) => v.len(),
            JObjectKind::ArrayFloat(v) => v.len(),
            JObjectKind::ArrayDouble(v) => v.len(),
            JObjectKind::ArrayRef(v) => v.len(),
            JObjectKind::ArrayChar(v) => v.len(),
            JObjectKind::ArrayByte(v) => v.len(),
            JObjectKind::ArrayShort(v) => v.len(),
            JObjectKind::ArrayBoolean(v) => v.len(),
        }
    }

    /// The value that a load pushes for the element `i`.
    pub(crate) fn get(&self, i: usize) -> (r: Result<JValue, JVMError>)
        requires
            self.length() is Some,
            i < self.length()->0,
        ensures
            r == element(*self, i as int),
    {
        match self {
            JObjectKind::ArrayInt(v) => Ok(JValue::Int(v[i])),
            JObjectKind::ArrayLong(v) => Ok(JValue::Long(v[i])),
            JObjectKind::ArrayFloat(v) => Ok(JValue::Float(v[i])),
            JObjectKind::ArrayDouble(v) => Ok(JValue::Double(v[i])),
            JObjectKind::ArrayRef(v) => match v[i] {
                Some(h) => Ok(JValue::Reference(h)),
                None => Err(JVMError::NullDereference),
            },
            JObjectKind::ArrayChar(v) => Ok(JValue::Int(char_to_int(v[i]))),
            JObjectKind::ArrayByte(v) => Ok(JValue::Int(byte_to_int(v[i]))),
            JObjectKind::ArrayShort(v) => Ok(JValue::Int(short_to_int(v[i]))),
            JObjectKind::ArrayBoolean(v) => Ok(JValue::Int(bool_to_int(v[i]))),
            JObjectKind::Object => Err(JVMError::TypeMismatch),
            JObjectKind::Mirror(_) => Err(JVMError::TypeMismatch),
        }
    }

    /// Sets the element `i` to what a store makes of `v`.
    pub(crate) fn set(&mut self, op: ArrayOp, i: usize, v: JValue)
        requires
            op.fits(*old(self)),
            op.takes(v),
            i < old(self).length()->0,
        ensures
            updated(*old(self), *final(self), i as int, v),
    {
        match (self, v) {
            (JObjectKind::ArrayInt(a), JValue::Int(x)) => {
                a[i] = x;
            },
            (JObjectKind::ArrayLong(a), JValue::Long(x)) => {
                a[i] = x;
            },
            (JObjectKind::ArrayFloat(a), JValue::Float(x)) => {
                a[i] = x;
            },
            (JObjectKind::ArrayDouble(a), JValue::Double(x)) => {
                a[i] = x;
            },
            (JObjectKind::ArrayRef(a), JValue::Reference(x)) => {
                a[i] = Some(x);
            },
            (JObjectKind::ArrayRef(a), JValue::Null) => {
                a[i] = None;
            },
            (JObjectKind::ArrayChar(a), JValue::Int(x)) => {
                a[i] = int_to_char(x);
            },
            (JObjectKind::ArrayByte(a), JValue::Int(x)) => {
                a[i] = int_to_byte(x);
            },
            (JObjectKind::ArrayShort(a), JValue::Int(x)) => {
                a[i] = int_to_short(x);
            },
            (JObjectKind::ArrayBoolean(a), JValue::Int(x)) => {
                a[i] = x & 1 == 1;
            },
            _ => {},
        }
    }
}

impl JVM {
    /// The array and the index of an array instruction: see `array_slot`.
    pub(crate) fn slot(&self, frame: &StackFrame, op: ArrayOp, depth: usize) -> (r: Result<
        (usize, usize),
        JVMError,
    >)
        requires
            1 <= depth < frame.operand_stack@.len(),
        ensures
            r is Ok ==> array_slot(frame.operand_stack@, self.heap@, op, depth as int) == Ok::<
                (usize, int),
                JVMError,
            >((r->Ok_0.0, r->Ok_0.1 as int)),
            r is Err ==> array_slot(frame.operand_stack@, self.heap@, op, depth as int) == Err::<
                (usize, int),
                JVMError,
            >(r->Err_0),
    {
        let n = frame.operand_stack.len();
        let i = match frame.operand_stack[n - depth] {
            JValue::Int(i) => i,
            _ => {
                return Err(JVMError::TypeMismatch);
            },
        };
        let h = match frame.operand_stack[n - 1 - depth] {
            JValue::Reference(h) => h,
            JValue::Null => {
                return Err(JVMError::NullDereference);
            },
            _ => {
                return Err(JVMError::TypeMismatch);
            },
        };
        if h >= self.heap.len() {
            return Err(JVMError::InterpreterBug);
        }
        if !op.matches_kind(&self.heap[h].kind) {
            return Err(JVMError::TypeMismatch);
        }
        if i < 0 || i as usize >= self.heap[h].kind.len() {
            return Err(JVMError::ArrayIndexOutOfBounds);
        }
        Ok((h, i as usize))
    }

    /// An array load of the family `op`: pops the index and the reference
    /// to the array and pushes the element.  Every index in `[0, length)`
    /// can be read, and every other index faults.
    pub fn load_element(&self, frame: &mut StackFrame, op: ArrayOp) -> (r: JVMResult)
        ensures
            follows(
                *old(frame),
                *final(frame),
                r,
                array_load(old(frame).state(), self.heap@, op),
            ),
    {
        let n = frame.operand_stack.len();
        if n < 2 {
            return Err(JVMError::InterpreterBug);
        }
        let (h, i) = self.slot(frame, op, 1)?;
        let v = self.heap[h].kind.get(i)?;
        frame.operand_stack.truncate(n - 2);
        frame.operand_stack.push(v);
        assert(frame.operand_stack@ =~= below(old(frame).operand_stack@, 2).push(v));
        Ok(())
    }

    /// What an array store of the family `op` does: it pops the value, the
    /// index and the reference to the array, and sets the element.  On a
    /// fault the machine and the frame are unchanged.
    pub open spec fn stores(
        pre: JVM,
        post: JVM,
        before: StackFrame,
        after: StackFrame,
        r: JVMResult,
        op: ArrayOp,
    ) -> bool {
        &&& before.wf() ==> after.wf()
        &&& pre.wf() ==> post.wf()
        &&& match array_store(before.state(), pre.heap@, op) {
            Err(e) => r == Err::<(), JVMError>(e) && post == pre && after == before,
            Ok((h, i, v)) => {
                &&& r is Ok
                &&& after.operand_stack@ == below(before.operand_stack@, 3)
                &&& after.same_but_stack(before)
                &&& post.same_but_object(pre, h as int)
                &&& post.heap@[h as int].fields == pre.heap@[h as int].fields
                &&& updated(pre.heap@[h as int].kind, post.heap@[h as int].kind, i, v)
            },
        }
    }

    /// An array store of the family `op`.  Every index in `[0, length)` can
    /// be written, and every other index faults.
    pub fn store_element(&mut self, frame: &mut StackFrame, op: ArrayOp) -> (r: JVMResult)
        ensures
            Self::stores(*old(self), *final(self), *old(frame), *final(frame), r, op),
    {
        let n = frame.operand_stack.len();
        if n < 3 {
            return Err(JVMError::InterpreterBug);
        }
        let v = frame.operand_stack[n - 1];
        if !op.accepts_value(v) {
            return Err(JVMError::TypeMismatch);
        }
        let (h, i) = self.slot(frame, op, 2)?;
        self.heap[h].kind.set(op, i, v);
        frame.operand_stack.truncate(n - 3);
        assert(frame.operand_stack@ =~= below(old(frame).operand_stack@, 3));
        Ok(())
    }

    /// `arraylength`: pops the reference to an array and pushes the number
    /// of its elements.
    pub fn arraylength(&self, frame: &mut StackFrame) -> (r: JVMResult)
        ensures
            follows(
                *old(frame),
                *final(frame),
                r,
                array_length_of(old(frame).state(), self.heap@),
            ),
    {
        let h = match frame.peek()? {
            JValue::Reference(h) => h,
            JValue::Null => {
                return Err(JVMError::NullDereference);
            },
            _ => {
                return Err(JVMError::TypeMismatch);
            },
        };
        if h >= self.heap.len() {
            return Err(JVMError::InterpreterBug);
        }
        match self.heap[h].array_length() {
            Some(length) => {
                let _ = frame.pop();
                frame.operand_stack.push(JValue::Int(length));
                Ok(())
            },
            None => Err(JVMError::TypeMismatch),
        }
    }

    /// `iaload`: pops an index and a reference to an array of integers and pushes the
    /// element at the index.
    pub fn iaload(&self, frame: &mut StackFrame) -> (r: JVMResult)
        ensures
            follows(
                *old(frame),
                *final(frame),
                r,
                array_load(old(frame).state(), self.heap@, ArrayOp::Int),
            ),
    {
        self.load_element(frame, ArrayOp::Int)
    }

    /// `laload`: pops an index and a reference to an array of longs and pushes the
    /// element at the index.
    pub fn laload(&self, frame: &mut StackFrame) -> (r: JVMResult)
        ensures
            follows(
                *old(frame),
                *final(frame),
                r,
                array_load(old(frame).state(), self.heap@, ArrayOp::Long),
            ),
    {
        self.load_element(frame, ArrayOp::Long)
    }

    /// `faload`: pops an index and a reference to an array of floats and pushes the
    /// element at the index.
    pub fn faload(&self, frame: &mut StackFrame) -> (r: JVMResult)
        ensures
            follows(
                *old(frame),
                *final(frame),
                r,
                array_load(old(frame).state(), self.heap@, ArrayOp::Float),
            ),
    {
        self.load_element(frame, ArrayOp::Float)
    }

    /// `daload`: pops an index and a reference to an array of doubles and pushes the
    /// element at the index.
    pub fn daload(&self, frame: &mut StackFrame) -> (r: JVMResult)
        ensures
            follows(
                *old(frame),
                *final(frame),
                r,
                array_load(old(frame).state(), self.heap@, ArrayOp::Double),
            ),
    {
        self.load_element(frame, ArrayOp::Double)
    }

    /// `aaload`: pops an index and a reference to an array of references and pushes the
    /// element at the index.  A null element faults.
    pub fn aaload(&self, frame: &mut StackFrame) -> (r: JVMResult)
        ensures
            follows(
                *old(frame),
                *final(frame),
                r,
                array_load(old(frame).state(), self.heap@, ArrayOp::Reference),
            ),
    {
        self.load_element(frame, ArrayOp::Reference)
    }

    /// `baload`: pops an index and a reference to an array of bytes or of booleans and pushes the
    /// element at the index.  The element is widened to an integer.
    pub fn baload(&self, frame: &mut StackFrame) -> (r: JVMResult)
        ensures
            follows(
                *old(frame),
                *final(frame),
                r,
                array_load(old(frame).state(), self.heap@, ArrayOp::Byte),
            ),
    {
        self.load_element(frame, ArrayOp::Byte)
    }

    /// `caload`: pops an index and a reference to an array of characters and pushes the
    /// element at the index.  The element is widened to an integer.
    pub fn caload(&self, frame: &mut StackFrame) -> (r: JVMResult)
        ensures
            follows(
                *old(frame),
                *final(frame),
                r,
                array_load(old(frame).state(), self.heap@, ArrayOp::Char),
            ),
    {
        self.load_element(frame, ArrayOp::Char)
    }

    /// `saload`: pops an index and a reference to an array of 16-bit integers and pushes the
    /// element at the index.  The element is widened to an integer.
    pub fn saload(&self, frame: &mut StackFrame) -> (r: JVMResult)
        ensures
            follows(
                *old(frame),
                *final(frame),
                r,
                array_load(old(frame).state(), self.heap@, ArrayOp::Short),
            ),
    {
        self.load_element(frame, ArrayOp::Short)
    }

    /// `iastore`: pops a value, an index and a reference to an array of integers and
    /// sets the element at the index.
    pub fn iastore(&mut self, frame: &mut StackFrame) -> (r: JVMResult)
        ensures
            Self::stores(*old(self), *final(self), *old(frame), *final(frame), r, ArrayOp::Int),
    {
        self.store_element(frame, ArrayOp::Int)
    }

    /// `lastore`: pops a value, an index and a reference to an array of longs and
    /// sets the element at the index.
    pub fn lastore(&mut self, frame: &mut StackFrame) -> (r: JVMResult)
        ensures
            Self::stores(*old(self), *final(self), *old(frame), *final(frame), r, ArrayOp::Long),
    {
        self.store_element(frame, ArrayOp::Long)
    }

    /// `fastore`: pops a value, an index and a reference to an array of floats and
    /// sets the element at the index.
    pub fn fastore(&mut self, frame: &mut StackFrame) -> (r: JVMResult)
        ensures
            Self::stores(*old(self), *final(self), *old(frame), *final(frame), r, ArrayOp::Float),
    {
        self.store_element(frame, ArrayOp::Float)
    }

    /// `dastore`: pops a value, an index and a reference to an array of doubles and
    /// sets the element at the index.
    pub fn dastore(&mut self, frame: &mut StackFrame) -> (r: JVMResult)
        ensures
            Self::stores(*old(self), *final(self), *old(frame), *final(frame), r, ArrayOp::Double),
    {
        self.store_element(frame, ArrayOp::Double)
    }

    /// `aastore`: pops a value, an index and a reference to an array of references and
    /// sets the element at the index.
    pub fn aastore(&mut self, frame: &mut StackFrame) -> (r: JVMResult)
        ensures
            Self::stores(*old(self), *final(self), *old(frame), *final(frame), r, ArrayOp::Reference),
    {
        self.store_element(frame, ArrayOp::Reference)
    }

    /// `bastore`: pops a value, an index and a reference to an array of bytes or of booleans and
    /// sets the element at the index.  A byte keeps the low 8 bits of the integer, a boolean its lowest bit.
    pub fn bastore(&mut self, frame: &mut StackFrame) -> (r: JVMResult)
        ensures
            Self::stores(*old(self), *final(self), *old(frame), *final(frame), r, ArrayOp::Byte),
    {
        self.store_element(frame, ArrayOp::Byte)
    }

    /// `castore`: pops a value, an index and a reference to an array of characters and
    /// sets the element at the index.  The element keeps the low 16 bits of the integer.
    pub fn castore(&mut self, frame: &mut StackFrame) -> (r: JVMResult)
        ensures
            Self::stores(*old(self), *final(self), *old(frame), *final(frame), r, ArrayOp::Char),
    {
        self.store_element(frame, ArrayOp::Char)
    }

    /// `sastore`: pops a value, an index and a reference to an array of 16-bit integers and
    /// sets the element at the index.  The element keeps the low 16 bits of the integer.
    pub fn sastore(&mut self, frame: &mut StackFrame) -> (r: JVMResult)
        ensures
            Self::stores(*old(self), *final(self), *old(frame), *final(frame), r, ArrayOp::Short),
    {
        self.store_element(frame, ArrayOp::Short)
    }
}

} // verus!
