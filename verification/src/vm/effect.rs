//! What each instruction that works on one frame alone does to that frame,
//! as mathematics: a function from the frame's state to its next state.
use crate::arith::{quotient, remainder, sign_of_difference, target_of, wrap16, wrap32, wrap64, wrap8};
use crate::error::JVMError;
use crate::vm::jvalue::JValue;
use crate::vm::opcode::{Opcode, WideInstruction};
use vstd::prelude::*;

verus! {

/// The part of a frame that instructions read and change.
pub struct FrameState {
    /// The operand stack, bottom first.
    pub stack: Seq<JValue>,
    /// The local variables.
    pub locals: Seq<JValue>,
    /// The position of the instruction being executed.
    pub pc: int,
    /// The limit of the operand stack's depth.
    pub max_stack: int,
    /// The length of the method's code.
    pub code_len: int,
}

/// What an instruction leaves behind.
pub struct Outcome {
    /// The operand stack after the instruction.
    pub stack: Seq<JValue>,
    /// The local variables after the instruction.
    pub locals: Seq<JValue>,
    /// The position to continue at when the instruction branches; `None`
    /// when execution falls through to the next instruction.
    pub jump: Option<int>,
}

/// The kinds of value that typed loads, stores and returns tell apart.
#[derive(Clone, Copy, PartialEq, Eq, Structural, Debug)]
pub enum Kind {
    Int,
    Long,
    Float,
    Double,
    Reference,
}

impl Kind {
    /// True when `v` is of this kind; the null reference is a reference.
    pub open spec fn admits(self, v: JValue) -> bool {
        match self {
            Kind::Int => v is Int,
            Kind::Long => v is Long,
            Kind::Float => v is Float,
            Kind::Double => v is Double,
            Kind::Reference => v is Reference || v is Null,
        }
    }

    /// The number of local slots a value of this kind takes.
    pub open spec fn slots(self) -> int {
        match self {
            Kind::Long => 2,
            Kind::Double => 2,
            _ => 1,
        }
    }
}

/// Binary operations on integers.
#[derive(Clone, Copy, PartialEq, Eq, Structural, Debug)]
pub enum IntOp {
    Add,
    Sub,
    Mul,
    Div,
    Rem,
    Shl,
    Shr,
    UShr,
    And,
    Or,
    Xor,
}

/// Relations between two integers.
#[derive(Clone, Copy, PartialEq, Eq, Structural, Debug)]
pub enum Relation {
    Eq,
    Ne,
    Lt,
    Ge,
    Gt,
    Le,
}

impl Relation {
    /// True when `a` stands in this relation to `b`.
    pub open spec fn holds(self, a: int, b: int) -> bool {
        match self {
            Relation::Eq => a == b,
            Relation::Ne => a != b,
            Relation::Lt => a < b,
            Relation::Ge => a >= b,
            Relation::Gt => a > b,
            Relation::Le => a <= b,
        }
    }
}

/// Operations that replace the top of the stack by a value computed from it.
#[derive(Clone, Copy, PartialEq, Eq, Structural, Debug)]
pub enum Unary {
    INeg,
    LNeg,
    I2L,
    L2I,
    I2B,
    I2C,
    I2S,
}

/// The result of a binary operation on two 32-bit integers: the
/// two's-complement wrap-around of the mathematical result, and for shifts
/// the shift by the low five bits of `b`.  `None` is division by zero.
pub open spec fn int_op(op: IntOp, a: i32, b: i32) -> Option<i32> {
    match op {
        IntOp::Add => Some(wrap32(a + b) as i32),
        IntOp::Sub => Some(wrap32(a - b) as i32),
        IntOp::Mul => Some(wrap32(a * b) as i32),
        IntOp::Div => if b == 0 {
            None
        } else {
            Some(wrap32(quotient(a as int, b as int)) as i32)
        },
        IntOp::Rem => if b == 0 {
            None
        } else {
            Some(wrap32(remainder(a as int, b as int)) as i32)
        },
        IntOp::Shl => Some(a << (b & 31)),
        IntOp::Shr => Some(a >> (b & 31)),
        IntOp::UShr => Some(((a as u32) >> ((b & 31) as u32)) as i32),
        IntOp::And => Some(a & b),
        IntOp::Or => Some(a | b),
        IntOp::Xor => Some(a ^ b),
    }
}

/// The result of a binary operation on two 64-bit integers that is no
/// shift.  `None` is division by zero.
pub open spec fn long_op(op: IntOp, a: i64, b: i64) -> Option<i64> {
    match op {
        IntOp::Add => Some(wrap64(a + b) as i64),
        IntOp::Sub => Some(wrap64(a - b) as i64),
        IntOp::Mul => Some(wrap64(a * b) as i64),
        IntOp::Div => if b == 0 {
            None
        } else {
            Some(wrap64(quotient(a as int, b as int)) as i64)
        },
        IntOp::Rem => if b == 0 {
            None
        } else {
            Some(wrap64(remainder(a as int, b as int)) as i64)
        },
        IntOp::And => Some(a & b),
        IntOp::Or => Some(a | b),
        IntOp::Xor => Some(a ^ b),
        _ => None,
    }
}

/// The result of shifting a 64-bit integer by the low six bits of `s`.
pub open spec fn long_shift(op: IntOp, a: i64, s: i32) -> i64 {
    match op {
        IntOp::Shl => a << (s & 63),
        IntOp::Shr => a >> (s & 63),
        _ => ((a as u64) >> ((s & 63) as u32)) as i64,
    }
}

/// True for the three shifts.
pub open spec fn is_shift(op: IntOp) -> bool {
    op == IntOp::Shl || op == IntOp::Shr || op == IntOp::UShr
}

/// The value that a unary operation makes of `v`; `None` when `v` is not of
/// the kind that the operation takes.
pub open spec fn unary_op(op: Unary, v: JValue) -> Option<JValue> {
    match (op, v) {
        (Unary::INeg, JValue::Int(a)) => Some(JValue::Int(wrap32(-a) as i32)),
        (Unary::LNeg, JValue::Long(a)) => Some(JValue::Long(wrap64(-a) as i64)),
        (Unary::I2L, JValue::Int(a)) => Some(JValue::Long(a as i64)),
        (Unary::L2I, JValue::Long(a)) => Some(JValue::Int(wrap32(a as int) as i32)),
        (Unary::I2B, JValue::Int(a)) => Some(JValue::Byte(wrap8(a as int) as i8)),
        (Unary::I2C, JValue::Int(a)) => Some(JValue::Char((a as int % 0x1_0000) as u16)),
        (Unary::I2S, JValue::Int(a)) => Some(JValue::Short(wrap16(a as int) as i16)),
        _ => None,
    }
}

/// The value `k` places below the top of `s`.
pub open spec fn top(s: Seq<JValue>, k: int) -> JValue {
    s[s.len() - 1 - k]
}

/// `s` without its `k` topmost values.
pub open spec fn below(s: Seq<JValue>, k: int) -> Seq<JValue> {
    s.take(s.len() - k)
}

/// The frame continues with the operand stack `stack`, unless that is deeper
/// than the method allows.
pub open spec fn with_stack(f: FrameState, stack: Seq<JValue>) -> Result<Outcome, JVMError> {
    if stack.len() > f.max_stack {
        Err(JVMError::InterpreterBug)
    } else {
        Ok(Outcome { stack, locals: f.locals, jump: None })
    }
}

/// Pushes `v`.
pub open spec fn push_value(f: FrameState, v: JValue) -> Result<Outcome, JVMError> {
    with_stack(f, f.stack.push(v))
}

/// Pushes the local at `index`, which must be of kind `kind`.
pub open spec fn load_local(f: FrameState, index: int, kind: Kind) -> Result<Outcome, JVMError> {
    if index + kind.slots() > f.locals.len() {
        Err(JVMError::InterpreterBug)
    } else if !kind.admits(f.locals[index]) {
        Err(JVMError::TypeMismatch)
    } else {
        push_value(f, f.locals[index])
    }
}

/// Pops a value of kind `kind` into the local at `index`.
pub open spec fn store_local(f: FrameState, index: int, kind: Kind) -> Result<Outcome, JVMError> {
    if f.stack.len() < 1 {
        Err(JVMError::InterpreterBug)
    } else if !kind.admits(top(f.stack, 0)) {
        Err(JVMError::TypeMismatch)
    } else if index + kind.slots() > f.locals.len() {
        Err(JVMError::InterpreterBug)
    } else {
        Ok(
            Outcome {
                stack: below(f.stack, 1),
                locals: f.locals.update(index, top(f.stack, 0)),
                jump: None,
            },
        )
    }
}

/// Adds `constant` to the integer local at `index`, wrapping on overflow.
pub open spec fn increment_local(f: FrameState, index: int, constant: int) -> Result<
    Outcome,
    JVMError,
> {
    if index >= f.locals.len() {
        Err(JVMError::InterpreterBug)
    } else {
        match f.locals[index] {
            JValue::Int(v) => Ok(
                Outcome {
                    stack: f.stack,
                    locals: f.locals.update(index, JValue::Int(wrap32(v + constant) as i32)),
                    jump: None,
                },
            ),
            _ => Err(JVMError::TypeMismatch),
        }
    }
}

/// Replaces the two topmost integers by the result of `op` on them.
pub open spec fn int_binary(f: FrameState, op: IntOp) -> Result<Outcome, JVMError> {
    if f.stack.len() < 2 {
        Err(JVMError::InterpreterBug)
    } else {
        match (top(f.stack, 1), top(f.stack, 0)) {
            (JValue::Int(a), JValue::Int(b)) => match int_op(op, a, b) {
                Some(v) => Ok(
                    Outcome {
                        stack: below(f.stack, 2).push(JValue::Int(v)),
                        locals: f.locals,
                        jump: None,
                    },
                ),
                None => Err(JVMError::DivisionByZero),
            },
            _ => Err(JVMError::TypeMismatch),
        }
    }
}

/// Replaces the two topmost values by the result of `op` on them: two longs,
/// or for a shift a long and, above it, the integer shift count.
pub open spec fn long_binary(f: FrameState, op: IntOp) -> Result<Outcome, JVMError> {
    if f.stack.len() < 2 {
        Err(JVMError::InterpreterBug)
    } else if is_shift(op) {
        match (top(f.stack, 1), top(f.stack, 0)) {
            (JValue::Long(a), JValue::Int(s)) => Ok(
                Outcome {
                    stack: below(f.stack, 2).push(JValue::Long(long_shift(op, a, s))),
                    locals: f.locals,
                    jump: None,
                },
            ),
            _ => Err(JVMError::TypeMismatch),
        }
    } else {
        match (top(f.stack, 1), top(f.stack, 0)) {
            (JValue::Long(a), JValue::Long(b)) => match long_op(op, a, b) {
                Some(v) => Ok(
                    Outcome {
                        stack: below(f.stack, 2).push(JValue::Long(v)),
                        locals: f.locals,
                        jump: None,
                    },
                ),
                None => Err(JVMError::DivisionByZero),
            },
            _ => Err(JVMError::TypeMismatch),
        }
    }
}

/// Replaces the top of the stack by what `op` makes of it.
pub open spec fn unary(f: FrameState, op: Unary) -> Result<Outcome, JVMError> {
    if f.stack.len() < 1 {
        Err(JVMError::InterpreterBug)
    } else {
        match unary_op(op, top(f.stack, 0)) {
            Some(v) => Ok(
                Outcome { stack: below(f.stack, 1).push(v), locals: f.locals, jump: None },
            ),
            None => Err(JVMError::TypeMismatch),
        }
    }
}

/// Replaces the two topmost longs by -1, 0 or 1: the sign of the lower
/// minus the upper.
pub open spec fn compare_longs(f: FrameState) -> Result<Outcome, JVMError> {
    if f.stack.len() < 2 {
        Err(JVMError::InterpreterBug)
    } else {
        match (top(f.stack, 1), top(f.stack, 0)) {
            (JValue::Long(a), JValue::Long(b)) => Ok(
                Outcome {
                    stack: below(f.stack, 2).push(
                        JValue::Int(sign_of_difference(a as int, b as int) as i32),
                    ),
                    locals: f.locals,
                    jump: None,
                },
            ),
            _ => Err(JVMError::TypeMismatch),
        }
    }
}

/// Continues with the operand stack `stack`: at `offset` bytes from the
/// instruction when `taken`, else with the next instruction.  A target
/// outside the method's code faults.
pub open spec fn branch(f: FrameState, stack: Seq<JValue>, taken: bool, offset: int) -> Result<
    Outcome,
    JVMError,
> {
    if !taken {
        Ok(Outcome { stack, locals: f.locals, jump: None })
    } else {
        match target_of(f.pc, offset, f.code_len) {
            Some(t) => Ok(Outcome { stack, locals: f.locals, jump: Some(t) }),
            None => Err(JVMError::InterpreterBug),
        }
    }
}

/// Pops an integer and branches when it stands in `relation` to zero.
pub open spec fn branch_on_zero(f: FrameState, relation: Relation, offset: i16) -> Result<
    Outcome,
    JVMError,
> {
    if f.stack.len() < 1 {
        Err(JVMError::InterpreterBug)
    } else {
        match top(f.stack, 0) {
            JValue::Int(a) => branch(f, below(f.stack, 1), relation.holds(a as int, 0), offset as int),
            _ => Err(JVMError::TypeMismatch),
        }
    }
}

/// Pops two integers and branches when the lower stands in `relation` to the
/// upper.
pub open spec fn branch_on_ints(f: FrameState, relation: Relation, offset: i16) -> Result<
    Outcome,
    JVMError,
> {
    if f.stack.len() < 2 {
        Err(JVMError::InterpreterBug)
    } else {
        match (top(f.stack, 1), top(f.stack, 0)) {
            (JValue::Int(a), JValue::Int(b)) => branch(
                f,
                below(f.stack, 2),
                relation.holds(a as int, b as int),
                offset as int,
            ),
            _ => Err(JVMError::TypeMismatch),
        }
    }
}

/// Pops two references and branches when they are the same (`same`) or not
/// the same (`!same`) reference.
pub open spec fn branch_on_references(f: FrameState, same: bool, offset: i16) -> Result<
    Outcome,
    JVMError,
> {
    if f.stack.len() < 2 {
        Err(JVMError::InterpreterBug)
    } else if !Kind::Reference.admits(top(f.stack, 1)) || !Kind::Reference.admits(top(f.stack, 0)) {
        Err(JVMError::TypeMismatch)
    } else {
        branch(f, below(f.stack, 2), (top(f.stack, 1) == top(f.stack, 0)) == same, offset as int)
    }
}

/// Pops a reference and branches when it is null (`null`) or not null
/// (`!null`).
pub open spec fn branch_on_null(f: FrameState, null: bool, offset: i16) -> Result<
    Outcome,
    JVMError,
> {
    if f.stack.len() < 1 {
        Err(JVMError::InterpreterBug)
    } else if !Kind::Reference.admits(top(f.stack, 0)) {
        Err(JVMError::TypeMismatch)
    } else {
        branch(f, below(f.stack, 1), (top(f.stack, 0) is Null) == null, offset as int)
    }
}

/// The offset that a `tableswitch` selects for `key`.
pub open spec fn table_offset(
    default_offset: i32,
    low: i32,
    high: i32,
    jump_offsets: Seq<i32>,
    key: i32,
) -> Option<i32> {
    if key < low || key > high {
        Some(default_offset)
    } else if key - low < jump_offsets.len() {
        Some(jump_offsets[key - low])
    } else {
        None
    }
}

/// The offset of the first pair of `pairs` whose key is `key`.
pub open spec fn first_match(pairs: Seq<(i32, i32)>, key: i32) -> Option<i32>
    decreases pairs.len(),
{
    if pairs.len() == 0 {
        None
    } else if pairs[0].0 == key {
        Some(pairs[0].1)
    } else {
        first_match(pairs.drop_first(), key)
    }
}

/// The offset that a `lookupswitch` selects for `key`.
pub open spec fn lookup_offset(default_offset: i32, pairs: Seq<(i32, i32)>, key: i32) -> i32 {
    match first_match(pairs, key) {
        Some(offset) => offset,
        None => default_offset,
    }
}

/// The integer key on top of the stack of a switch.
pub open spec fn switch_key(f: FrameState) -> Result<i32, JVMError> {
    if f.stack.len() < 1 {
        Err(JVMError::InterpreterBug)
    } else {
        match top(f.stack, 0) {
            JValue::Int(key) => Ok(key),
            _ => Err(JVMError::TypeMismatch),
        }
    }
}

/// Pops the key of a switch and branches by `selected`; a table without an
/// entry for the key faults.
pub open spec fn switch_to(f: FrameState, selected: Option<i32>) -> Result<Outcome, JVMError> {
    match selected {
        Some(offset) => branch(f, below(f.stack, 1), true, offset as int),
        None => Err(JVMError::InterpreterBug),
    }
}

/// `tableswitch`: pops the integer key and branches by the entry of the
/// table for it, or by the default offset when the key lies outside
/// `[low, high]`.
pub open spec fn table_switch(
    f: FrameState,
    default_offset: i32,
    low: i32,
    high: i32,
    jump_offsets: Seq<i32>,
) -> Result<Outcome, JVMError> {
    match switch_key(f) {
        Ok(key) => switch_to(f, table_offset(default_offset, low, high, jump_offsets, key)),
        Err(e) => Err(e),
    }
}

/// `lookupswitch`: pops the integer key and branches by the offset of the
/// pair with that key, or by the default offset when there is none.
pub open spec fn lookup_switch(f: FrameState, default_offset: i32, pairs: Seq<(i32, i32)>) -> Result<
    Outcome,
    JVMError,
> {
    match switch_key(f) {
        Ok(key) => switch_to(f, Some(lookup_offset(default_offset, pairs, key))),
        Err(e) => Err(e),
    }
}

/// `pop`: discards the top value.
pub open spec fn pop_one(f: FrameState) -> Result<Outcome, JVMError> {
    if f.stack.len() < 1 {
        Err(JVMError::InterpreterBug)
    } else {
        with_stack(f, below(f.stack, 1))
    }
}

/// `pop2`: discards the top value when it is of category 2, and else the
/// two topmost values.
pub open spec fn pop_two(f: FrameState) -> Result<Outcome, JVMError> {
    if f.stack.len() < 1 {
        Err(JVMError::InterpreterBug)
    } else if top(f.stack, 0).is_category2() {
        with_stack(f, below(f.stack, 1))
    } else if f.stack.len() < 2 {
        Err(JVMError::InterpreterBug)
    } else {
        with_stack(f, below(f.stack, 2))
    }
}

/// `dup`: pushes the top value again.
pub open spec fn dup_one(f: FrameState) -> Result<Outcome, JVMError> {
    if f.stack.len() < 1 {
        Err(JVMError::InterpreterBug)
    } else {
        push_value(f, top(f.stack, 0))
    }
}

/// `dup_x1`: inserts a copy of the top value below the value under it.
pub open spec fn dup_one_x1(f: FrameState) -> Result<Outcome, JVMError> {
    if f.stack.len() < 2 {
        Err(JVMError::InterpreterBug)
    } else {
        let v1 = top(f.stack, 0);
        let v2 = top(f.stack, 1);
        with_stack(f, below(f.stack, 2) + seq![v1, v2, v1])
    }
}

/// `dup_x2`: inserts a copy of the top value two slots down: below the value
/// under it when that is of category 2, and else below the two values under
/// it.
pub open spec fn dup_one_x2(f: FrameState) -> Result<Outcome, JVMError> {
    if f.stack.len() < 2 {
        Err(JVMError::InterpreterBug)
    } else {
        let v1 = top(f.stack, 0);
        let v2 = top(f.stack, 1);
        if v2.is_category2() {
            with_stack(f, below(f.stack, 2) + seq![v1, v2, v1])
        } else if f.stack.len() < 3 {
            Err(JVMError::InterpreterBug)
        } else {
            let v3 = top(f.stack, 2);
            with_stack(f, below(f.stack, 3) + seq![v1, v3, v2, v1])
        }
    }
}

/// `dup2`: pushes the top value again when it is of category 2, and else
/// the two topmost values again.
pub open spec fn dup_two(f: FrameState) -> Result<Outcome, JVMError> {
    if f.stack.len() < 1 {
        Err(JVMError::InterpreterBug)
    } else {
        let v1 = top(f.stack, 0);
        if v1.is_category2() {
            with_stack(f, below(f.stack, 1) + seq![v1, v1])
        } else if f.stack.len() < 2 {
            Err(JVMError::InterpreterBug)
        } else {
            let v2 = top(f.stack, 1);
            with_stack(f, below(f.stack, 2) + seq![v2, v1, v2, v1])
        }
    }
}

/// `dup2_x1`: inserts a copy of the top two slots below the value under
/// them.
pub open spec fn dup_two_x1(f: FrameState) -> Result<Outcome, JVMError> {
    if f.stack.len() < 2 {
        Err(JVMError::InterpreterBug)
    } else {
        let v1 = top(f.stack, 0);
        let v2 = top(f.stack, 1);
        if v1.is_category2() {
            with_stack(f, below(f.stack, 2) + seq![v1, v2, v1])
        } else if f.stack.len() < 3 {
            Err(JVMError::InterpreterBug)
        } else {
            let v3 = top(f.stack, 2);
            with_stack(f, below(f.stack, 3) + seq![v2, v1, v3, v2, v1])
        }
    }
}

/// `dup2_x2`: inserts a copy of the top two slots below the two slots under
/// them, where a value of category 2 fills two slots.
pub open spec fn dup_two_x2(f: FrameState) -> Result<Outcome, JVMError> {
    if f.stack.len() < 2 {
        Err(JVMError::InterpreterBug)
    } else {
        let v1 = top(f.stack, 0);
        let v2 = top(f.stack, 1);
        if v1.is_category2() && v2.is_category2() {
            with_stack(f, below(f.stack, 2) + seq![v1, v2, v1])
        } else if f.stack.len() < 3 {
            Err(JVMError::InterpreterBug)
        } else {
            let v3 = top(f.stack, 2);
            if v1.is_category2() {
                with_stack(f, below(f.stack, 3) + seq![v1, v3, v2, v1])
            } else if v3.is_category2() {
                with_stack(f, below(f.stack, 3) + seq![v2, v1, v3, v2, v1])
            } else if f.stack.len() < 4 {
                Err(JVMError::InterpreterBug)
            } else {
                let v4 = top(f.stack, 3);
                with_stack(f, below(f.stack, 4) + seq![v2, v1, v4, v3, v2, v1])
            }
        }
    }
}

/// `swap`: exchanges the two topmost values.
pub open spec fn swap_two(f: FrameState) -> Result<Outcome, JVMError> {
    if f.stack.len() < 2 {
        Err(JVMError::InterpreterBug)
    } else {
        with_stack(f, below(f.stack, 2) + seq![top(f.stack, 0), top(f.stack, 1)])
    }
}

} // verus!
