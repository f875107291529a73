//! The moves that instructions are made of: typed loads and stores, stack
//! rewriting, arithmetic on the top of the stack, and branching.
use crate::arith::{
    branch_target, int_add, int_and, int_div, int_mul, int_neg, int_or, int_rem, int_shl, int_shr,
    int_sub, int_to_byte, int_to_char, int_to_long, int_to_short, int_ushr, int_xor, long_add,
    long_and, long_div, long_mul, long_neg, long_or, long_rem, long_shl, long_shr, long_sub,
    long_compare, long_to_int, long_ushr, long_xor, short_to_int, u16_to_usize,
};
use crate::error::JVMError;
use crate::vm::effect::{
    below, branch, branch_on_ints, branch_on_null, branch_on_references, branch_on_zero,
    compare_longs, increment_local, int_binary, int_op, is_shift, load_local, long_binary, long_op,
    long_shift, store_local, unary, unary_op, with_stack, IntOp, Kind, Relation, Unary,
};
use crate::vm::jvalue::JValue;
use crate::vm::jvm::{JVMResult, JVM};
use crate::vm::stack_frame::{follows, follows_branch, StackFrame};
use vstd::prelude::*;

verus! {

impl Kind {
    /// True when `v` is of this kind.
    pub fn accepts(self, v: JValue) -> (r: bool)
        ensures
            r == self.admits(v),
    {
        match (self, v) {
            (Kind::Int, JValue::Int(_)) => true,
            (Kind::Long, JValue::Long(_)) => true,
            (Kind::Float, JValue::Float(_)) => true,
            (Kind::Double, JValue::Double(_)) => true,
            (Kind::Reference, JValue::Reference(_)) => true,
            (Kind::Reference, JValue::Null) => true,
            _ => false,
        }
    }

    /// The number of local slots a value of this kind takes.
    pub fn width(self) -> (r: usize)
        ensures
            r == self.slots(),
    {
        match self {
            Kind::Long => 2,
            Kind::Double => 2,
            _ => 1,
        }
    }
}

/// Computes `int_op`.
pub fn apply_int(op: IntOp, a: i32, b: i32) -> (r: Option<i32>)
    ensures
        r == int_op(op, a, b),
{
    match op {
        IntOp::Add => Some(int_add(a, b)),
        IntOp::Sub => Some(int_sub(a, b)),
        IntOp::Mul => Some(int_mul(a, b)),
        IntOp::Div => int_div(a, b),
        IntOp::Rem => int_rem(a, b),
        IntOp::Shl => Some(int_shl(a, b)),
        IntOp::Shr => Some(int_shr(a, b)),
        IntOp::UShr => Some(int_ushr(a, b)),
        IntOp::And => Some(int_and(a, b)),
        IntOp::Or => Some(int_or(a, b)),
        IntOp::Xor => Some(int_xor(a, b)),
    }
}

/// Computes `long_op` for the operations that are no shifts.
pub(crate) fn apply_long(op: IntOp, a: i64, b: i64) -> (r: Option<i64>)
    requires
        !is_shift(op),
    ensures
        r == long_op(op, a, b),
{
    match op {
        IntOp::Add => Some(long_add(a, b)),
        IntOp::Sub => Some(long_sub(a, b)),
        IntOp::Mul => Some(long_mul(a, b)),
        IntOp::Div => long_div(a, b),
        IntOp::Rem => long_rem(a, b),
        IntOp::And => Some(long_and(a, b)),
        IntOp::Or => Some(long_or(a, b)),
        _ => Some(long_xor(a, b)),
    }
}

/// Computes `long_shift`.
pub(crate) fn apply_long_shift(op: IntOp, a: i64, s: i32) -> (r: i64)
    requires
        is_shift(op),
    ensures
        r == long_shift(op, a, s),
{
    match op {
        IntOp::Shl => long_shl(a, s),
        IntOp::Shr => long_shr(a, s),
        _ => long_ushr(a, s),
    }
}

/// Computes `unary_op`.
pub fn apply_unary(op: Unary, v: JValue) -> (r: Option<JValue>)
    ensures
        r == unary_op(op, v),
{
    match (op, v) {
        (Unary::INeg, JValue::Int(a)) => Some(JValue::Int(int_neg(a))),
        (Unary::LNeg, JValue::Long(a)) => Some(JValue::Long(long_neg(a))),
        (Unary::I2L, JValue::Int(a)) => Some(JValue::Long(int_to_long(a))),
        (Unary::L2I, JValue::Long(a)) => Some(JValue::Int(long_to_int(a))),
        (Unary::I2B, JValue::Int(a)) => Some(JValue::Byte(int_to_byte(a))),
        (Unary::I2C, JValue::Int(a)) => Some(JValue::Char(int_to_char(a))),
        (Unary::I2S, JValue::Int(a)) => Some(JValue::Short(int_to_short(a))),
        _ => None,
    }
}

impl JVM {
    /// Replaces the `k` topmost values of the operand stack by `values`.
    pub(crate) fn replace_top(frame: &mut StackFrame, k: usize, values: Vec<JValue>) -> (r: JVMResult)
        requires
            k <= old(frame).operand_stack@.len(),
        ensures
            follows(
                *old(frame),
                *final(frame),
                r,
                with_stack(old(frame).state(), below(old(frame).operand_stack@, k as int) + values@),
            ),
    {
        let n = frame.operand_stack.len();
        let limit = u16_to_usize(frame.method.max_stack);
        if values.len() > limit || n - k > limit - values.len() {
            return Err(JVMError::InterpreterBug);
        }
        frame.operand_stack.truncate(n - k);
        let ghost base = frame.operand_stack@;
        assert(base =~= below(old(frame).operand_stack@, k as int));
        let mut i: usize = 0;
        while i < values.len()
            invariant
                i <= values@.len(),
                frame.operand_stack@ == base + values@.take(i as int),
                frame.same_but_stack(*old(frame)),
            decreases values@.len() - i,
        {
            frame.operand_stack.push(values[i]);
            i = i + 1;
            assert(frame.operand_stack@ =~= base + values@.take(i as int));
        }
        assert(values@.take(values@.len() as int) =~= values@);
        Ok(())
    }

    /// Pushes the local at `index`, which must be of kind `kind`.
    pub fn load(frame: &mut StackFrame, index: u16, kind: Kind) -> (r: JVMResult)
        ensures
            follows(*old(frame), *final(frame), r, load_local(old(frame).state(), index as int, kind)),
    {
        let i = u16_to_usize(index);
        if frame.locals.len() < kind.width() || i > frame.locals.len() - kind.width() {
            return Err(JVMError::InterpreterBug);
        }
        let v = frame.locals[i];
        if !kind.accepts(v) {
            return Err(JVMError::TypeMismatch);
        }
        frame.push(v)
    }

    /// Pops a value of kind `kind` into the local at `index`.
    pub fn store(frame: &mut StackFrame, index: u16, kind: Kind) -> (r: JVMResult)
        ensures
            follows(*old(frame), *final(frame), r, store_local(old(frame).state(), index as int, kind)),
    {
        let i = u16_to_usize(index);
        let v = frame.peek()?;
        if !kind.accepts(v) {
            return Err(JVMError::TypeMismatch);
        }
        if frame.locals.len() < kind.width() || i > frame.locals.len() - kind.width() {
            return Err(JVMError::InterpreterBug);
        }
        let _ = frame.pop();
        frame.locals[i] = v;
        Ok(())
    }

    /// Replaces the two topmost integers by the result of `op` on them.
    pub fn binary_int(frame: &mut StackFrame, op: IntOp) -> (r: JVMResult)
        ensures
            follows(*old(frame), *final(frame), r, int_binary(old(frame).state(), op)),
    {
        let n = frame.operand_stack.len();
        if n < 2 {
            return Err(JVMError::InterpreterBug);
        }
        match (frame.operand_stack[n - 2], frame.operand_stack[n - 1]) {
            (JValue::Int(a), JValue::Int(b)) => match apply_int(op, a, b) {
                Some(v) => {
                    frame.operand_stack.truncate(n - 2);
                    frame.operand_stack.push(JValue::Int(v));
                    assert(frame.operand_stack@ =~= below(old(frame).operand_stack@, 2).push(
                        JValue::Int(v),
                    ));
                    Ok(())
                },
                None => Err(JVMError::DivisionByZero),
            },
            _ => Err(JVMError::TypeMismatch),
        }
    }

    /// Replaces the two topmost values by the result of `op` on them: two
    /// longs, or for a shift a long and the integer shift count above it.
    pub fn binary_long(frame: &mut StackFrame, op: IntOp) -> (r: JVMResult)
        ensures
            follows(*old(frame), *final(frame), r, long_binary(old(frame).state(), op)),
    {
        let n = frame.operand_stack.len();
        if n < 2 {
            return Err(JVMError::InterpreterBug);
        }
        let shift = match op {
            IntOp::Shl => true,
            IntOp::Shr => true,
            IntOp::UShr => true,
            _ => false,
        };
        let result = match (frame.operand_stack[n - 2], frame.operand_stack[n - 1]) {
            (JValue::Long(a), JValue::Int(s)) => {
                if shift {
                    apply_long_shift(op, a, s)
                } else {
                    return Err(JVMError::TypeMismatch);
                }
            },
            (JValue::Long(a), JValue::Long(b)) => {
                if shift {
                    return Err(JVMError::TypeMismatch);
                } else {
                    match apply_long(op, a, b) {
                        Some(v) => v,
                        None => {
                            return Err(JVMError::DivisionByZero);
                        },
                    }
                }
            },
            _ => {
                return Err(JVMError::TypeMismatch);
            },
        };
        frame.operand_stack.truncate(n - 2);
        frame.operand_stack.push(JValue::Long(result));
        assert(frame.operand_stack@ =~= below(old(frame).operand_stack@, 2).push(
            JValue::Long(result),
        ));
        Ok(())
    }

    /// Replaces the top of the stack by what `op` makes of it.
    pub fn convert(frame: &mut StackFrame, op: Unary) -> (r: JVMResult)
        ensures
            follows(*old(frame), *final(frame), r, unary(old(frame).state(), op)),
    {
        let v = frame.peek()?;
        match apply_unary(op, v) {
            Some(w) => {
                let _ = frame.pop();
                frame.operand_stack.push(w);
                Ok(())
            },
            None => Err(JVMError::TypeMismatch),
        }
    }

    /// Adds `constant` to the integer local at `index`, wrapping on
    /// overflow.
    pub fn increment(frame: &mut StackFrame, index: u16, constant: i16) -> (r: JVMResult)
        ensures
            follows(
                *old(frame),
                *final(frame),
                r,
                increment_local(old(frame).state(), index as int, constant as int),
            ),
    {
        let i = u16_to_usize(index);
        if i >= frame.locals.len() {
            return Err(JVMError::InterpreterBug);
        }
        match frame.locals[i] {
            JValue::Int(v) => {
                frame.locals[i] = JValue::Int(int_add(v, constant as i32));
                Ok(())
            },
            _ => Err(JVMError::TypeMismatch),
        }
    }

    /// Drops the `popped` topmost values and, when `taken`, continues
    /// `offset` bytes from the instruction.
    pub(crate) fn jump(frame: &mut StackFrame, popped: usize, taken: bool, offset: i32) -> (r: Result<
        bool,
        JVMError,
    >)
        requires
            popped <= old(frame).operand_stack@.len(),
        ensures
            follows_branch(
                *old(frame),
                *final(frame),
                r,
                branch(
                    old(frame).state(),
                    below(old(frame).operand_stack@, popped as int),
                    taken,
                    offset as int,
                ),
            ),
    {
        let n = frame.operand_stack.len();
        if taken {
            match branch_target(frame.pc, offset, frame.method.code.len()) {
                Some(t) => {
                    frame.operand_stack.truncate(n - popped);
                    frame.pc = t;
                    assert(frame.operand_stack@ =~= below(old(frame).operand_stack@, popped as int));
                    Ok(true)
                },
                None => Err(JVMError::InterpreterBug),
            }
        } else {
            frame.operand_stack.truncate(n - popped);
            assert(frame.operand_stack@ =~= below(old(frame).operand_stack@, popped as int));
            Ok(false)
        }
    }
}

} // verus!

verus! {

impl Relation {
    /// True when `a` stands in this relation to `b`.
    pub fn test(self, a: i32, b: i32) -> (r: bool)
        ensures
            r == self.holds(a as int, b as int),
    {
        match self {
            Relation::Eq => a == b,
            Relation::Ne => a != b,
            Relation::Lt => a < b,
            Relation::Ge => a >= b,
            Relation::Gt => a > b,
            Relation::Le => a <= b,
        }
    }
}

impl JVM {
    /// Pops an integer and branches when it stands in `relation` to zero.
    pub fn jump_on_zero(frame: &mut StackFrame, relation: Relation, offset: i16) -> (r: Result<
        bool,
        JVMError,
    >)
        ensures
            follows_branch(
                *old(frame),
                *final(frame),
                r,
                branch_on_zero(old(frame).state(), relation, offset),
            ),
    {
        match frame.peek()? {
            JValue::Int(a) => Self::jump(frame, 1, relation.test(a, 0), short_to_int(offset)),
            _ => Err(JVMError::TypeMismatch),
        }
    }

    /// Pops two integers and branches when the lower stands in `relation`
    /// to the upper.
    pub fn jump_on_ints(frame: &mut StackFrame, relation: Relation, offset: i16) -> (r: Result<
        bool,
        JVMError,
    >)
        ensures
            follows_branch(
                *old(frame),
                *final(frame),
                r,
                branch_on_ints(old(frame).state(), relation, offset),
            ),
    {
        let n = frame.operand_stack.len();
        if n < 2 {
            return Err(JVMError::InterpreterBug);
        }
        match (frame.operand_stack[n - 2], frame.operand_stack[n - 1]) {
            (JValue::Int(a), JValue::Int(b)) => Self::jump(
                frame,
                2,
                relation.test(a, b),
                short_to_int(offset),
            ),
            _ => Err(JVMError::TypeMismatch),
        }
    }

    /// Pops two references and branches when they are the same (`same`) or
    /// not the same (`!same`) reference.
    pub fn jump_on_references(frame: &mut StackFrame, same: bool, offset: i16) -> (r: Result<
        bool,
        JVMError,
    >)
        ensures
            follows_branch(
                *old(frame),
                *final(frame),
                r,
                branch_on_references(old(frame).state(), same, offset),
            ),
    {
        let n = frame.operand_stack.len();
        if n < 2 {
            return Err(JVMError::InterpreterBug);
        }
        let v1 = frame.operand_stack[n - 2];
        let v2 = frame.operand_stack[n - 1];
        if !v1.is_reference() || !v2.is_reference() {
            return Err(JVMError::TypeMismatch);
        }
        Self::jump(frame, 2, (v1 == v2) == same, short_to_int(offset))
    }

    /// Pops a reference and branches when it is null (`null`) or not null
    /// (`!null`).
    pub fn jump_on_null(frame: &mut StackFrame, null: bool, offset: i16) -> (r: Result<
        bool,
        JVMError,
    >)
        ensures
            follows_branch(
                *old(frame),
                *final(frame),
                r,
                branch_on_null(old(frame).state(), null, offset),
            ),
    {
        let v = frame.peek()?;
        if !v.is_reference() {
            return Err(JVMError::TypeMismatch);
        }
        let is_null = match v {
            JValue::Null => true,
            _ => false,
        };
        Self::jump(frame, 1, is_null == null, short_to_int(offset))
    }

    /// Replaces the two topmost longs by the sign of the lower minus the
    /// upper.
    pub fn compare_long(frame: &mut StackFrame) -> (r: JVMResult)
        ensures
            follows(*old(frame), *final(frame), r, compare_longs(old(frame).state())),
    {
        let n = frame.operand_stack.len();
        if n < 2 {
            return Err(JVMError::InterpreterBug);
        }
        match (frame.operand_stack[n - 2], frame.operand_stack[n - 1]) {
            (JValue::Long(a), JValue::Long(b)) => {
                let v = long_compare(a, b);
                frame.operand_stack.truncate(n - 2);
                frame.operand_stack.push(JValue::Int(v));
                assert(frame.operand_stack@ =~= below(old(frame).operand_stack@, 2).push(
                    JValue::Int(v),
                ));
                Ok(())
            },
            _ => Err(JVMError::TypeMismatch),
        }
    }
}

} // verus!
