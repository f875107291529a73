//! What the instructions that read and write arrays do, as mathematics.
use crate::error::JVMError;
use crate::vm::effect::{below, top, FrameState, Kind, Outcome};
use crate::vm::jobject::{JObject, JObjectKind};
use crate::vm::jvalue::JValue;
use vstd::prelude::*;

verus! {

/// The element types that the array instructions tell apart.  `Byte`
/// serves arrays of bytes and arrays of booleans.
#[derive(Clone, Copy, PartialEq, Eq, Structural, Debug)]
pub enum ArrayOp {
    Int,
    Long,
    Float,
    Double,
    Reference,
    Byte,
    Char,
    Short,
}

impl ArrayOp {
    /// True when arrays of kind `kind` are read and written by this
    /// instruction family.
    pub open spec fn fits(self, kind: JObjectKind) -> bool {
        match (self, kind) {
            (ArrayOp::Int, JObjectKind::ArrayInt(_)) => true,
            (ArrayOp::Long, JObjectKind::ArrayLong(_)) => true,
            (ArrayOp::Float, JObjectKind::ArrayFloat(_)) => true,
            (ArrayOp::Double, JObjectKind::ArrayDouble(_)) => true,
            (ArrayOp::Reference, JObjectKind::ArrayRef(_)) => true,
            (ArrayOp::Byte, JObjectKind::ArrayByte(_)) => true,
            (ArrayOp::Byte, JObjectKind::ArrayBoolean(_)) => true,
            (ArrayOp::Char, JObjectKind::ArrayChar(_)) => true,
            (ArrayOp::Short, JObjectKind::ArrayShort(_)) => true,
            _ => false,
        }
    }

    /// True when a store of this family takes `v` from the stack: an
    /// integer for the integral element types, and else a value of the
    /// element type.
    pub open spec fn takes(self, v: JValue) -> bool {
        match self {
            ArrayOp::Long => v is Long,
            ArrayOp::Float => v is Float,
            ArrayOp::Double => v is Double,
            ArrayOp::Reference => v is Reference || v is Null,
            _ => v is Int,
        }
    }
}

/// The value that a load pushes for the element `i` of an array of kind
/// `kind`: the element, widened to an integer where it is narrower, with a
/// boolean as 0 or 1.  A null element of an array of references faults.
pub open spec fn element(kind: JObjectKind, i: int) -> Result<JValue, JVMError> {
    match kind {
        JObjectKind::ArrayInt(v) => Ok(JValue::Int(v@[i])),
        JObjectKind::ArrayLong(v) => Ok(JValue::Long(v@[i])),
        JObjectKind::ArrayFloat(v) => Ok(JValue::Float(v@[i])),
        JObjectKind::ArrayDouble(v) => Ok(JValue::Double(v@[i])),
        JObjectKind::ArrayRef(v) => match v@[i] {
            Some(h) => Ok(JValue::Reference(h)),
            None => Err(JVMError::NullDereference),
        },
        JObjectKind::ArrayChar(v) => Ok(JValue::Int(v@[i] as i32)),
        JObjectKind::ArrayByte(v) => Ok(JValue::Int(v@[i] as i32)),
        JObjectKind::ArrayShort(v) => Ok(JValue::Int(v@[i] as i32)),
        JObjectKind::ArrayBoolean(v) => Ok(
            JValue::Int(
                if v@[i] {
                    1i32
                } else {
                    0i32
                },
            ),
        ),
        JObjectKind::Object => Err(JVMError::TypeMismatch),
        JObjectKind::Mirror(_) => Err(JVMError::TypeMismatch),
    }
}

/// `post` is `pre` with the element `i` set to what a store makes of `v`:
/// the value itself, or for the narrower integral types its low bits, and
/// for a boolean its lowest bit.
pub open spec fn updated(pre: JObjectKind, post: JObjectKind, i: int, v: JValue) -> bool {
    match (pre, post, v) {
        (JObjectKind::ArrayInt(a), JObjectKind::ArrayInt(b), JValue::Int(x)) => b@ == a@.update(
            i,
            x,
        ),
        (JObjectKind::ArrayLong(a), JObjectKind::ArrayLong(b), JValue::Long(x)) => b@ == a@.update(
            i,
            x,
        ),
        (JObjectKind::ArrayFloat(a), JObjectKind::ArrayFloat(b), JValue::Float(x)) => b@
            == a@.update(i, x),
        (JObjectKind::ArrayDouble(a), JObjectKind::ArrayDouble(b), JValue::Double(x)) => b@
            == a@.update(i, x),
        (JObjectKind::ArrayRef(a), JObjectKind::ArrayRef(b), JValue::Reference(x)) => b@
            == a@.update(i, Some(x)),
        (JObjectKind::ArrayRef(a), JObjectKind::ArrayRef(b), JValue::Null) => b@ == a@.update(
            i,
            None,
        ),
        (JObjectKind::ArrayChar(a), JObjectKind::ArrayChar(b), JValue::Int(x)) => b@ == a@.update(
            i,
            (x as int % 0x1_0000) as u16,
        ),
        (JObjectKind::ArrayByte(a), JObjectKind::ArrayByte(b), JValue::Int(x)) => b@ == a@.update(
            i,
            crate::arith::wrap8(x as int) as i8,
        ),
        (JObjectKind::ArrayShort(a), JObjectKind::ArrayShort(b), JValue::Int(x)) => b@
            == a@.update(i, crate::arith::wrap16(x as int) as i16),
        (JObjectKind::ArrayBoolean(a), JObjectKind::ArrayBoolean(b), JValue::Int(x)) => b@
            == a@.update(i, x & 1 == 1),
        _ => false,
    }
}

/// The array and the index that an array instruction works on, when the
/// reference to the array lies `depth` places below the top of the stack
/// and the index above it: the handle of the array and the index.
///
/// The index must be an integer and the reference a reference
/// (`TypeMismatch`) that is not null (`NullDereference`) and leads to an
/// object of the heap (`InterpreterBug`) that is an array of the family
/// `op` (`TypeMismatch`); the index must lie in `[0, length)`
/// (`ArrayIndexOutOfBounds`).
pub open spec fn array_slot(
    stack: Seq<JValue>,
    heap: Seq<JObject>,
    op: ArrayOp,
    depth: int,
) -> Result<(usize, int), JVMError> {
    match top(stack, depth - 1) {
        JValue::Int(i) => match top(stack, depth) {
            JValue::Reference(h) => if h >= heap.len() {
                Err(JVMError::InterpreterBug)
            } else if !op.fits(heap[h as int].kind) {
                Err(JVMError::TypeMismatch)
            } else if i < 0 || i >= heap[h as int].kind.length()->0 {
                Err(JVMError::ArrayIndexOutOfBounds)
            } else {
                Ok((h, i as int))
            },
            JValue::Null => Err(JVMError::NullDereference),
            _ => Err(JVMError::TypeMismatch),
        },
        _ => Err(JVMError::TypeMismatch),
    }
}

/// An array load: pops the index and the reference to the array and pushes
/// the element.
pub open spec fn array_load(f: FrameState, heap: Seq<JObject>, op: ArrayOp) -> Result<
    Outcome,
    JVMError,
> {
    if f.stack.len() < 2 {
        Err(JVMError::InterpreterBug)
    } else {
        match array_slot(f.stack, heap, op, 1) {
            Err(e) => Err(e),
            Ok((h, i)) => match element(heap[h as int].kind, i) {
                Err(e) => Err(e),
                Ok(v) => Ok(Outcome { stack: below(f.stack, 2).push(v), locals: f.locals, jump: None }),
            },
        }
    }
}

/// The array, the index and the value of an array store, which pops all
/// three: the value must be of the kind that the family takes
/// (`TypeMismatch`).
pub open spec fn array_store(f: FrameState, heap: Seq<JObject>, op: ArrayOp) -> Result<
    (usize, int, JValue),
    JVMError,
> {
    if f.stack.len() < 3 {
        Err(JVMError::InterpreterBug)
    } else if !op.takes(top(f.stack, 0)) {
        Err(JVMError::TypeMismatch)
    } else {
        match array_slot(f.stack, heap, op, 2) {
            Err(e) => Err(e),
            Ok((h, i)) => Ok((h, i, top(f.stack, 0))),
        }
    }
}

/// `arraylength`: pops the reference to an array and pushes the number of
/// its elements.
pub open spec fn array_length_of(f: FrameState, heap: Seq<JObject>) -> Result<Outcome, JVMError> {
    if f.stack.len() < 1 {
        Err(JVMError::InterpreterBug)
    } else {
        match top(f.stack, 0) {
            JValue::Reference(h) => if h >= heap.len() {
                Err(JVMError::InterpreterBug)
            } else {
                match heap[h as int].spec_array_length() {
                    Some(n) => Ok(
                        Outcome {
                            stack: below(f.stack, 1).push(JValue::Int(n)),
                            locals: f.locals,
                            jump: None,
                        },
                    ),
                    None => Err(JVMError::TypeMismatch),
                }
            },
            JValue::Null => Err(JVMError::NullDereference),
            _ => Err(JVMError::TypeMismatch),
        }
    }
}

} // verus!
