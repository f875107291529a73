//! Integer arithmetic on the operand stack.
use crate::vm::effect::{increment_local, int_binary, long_binary, unary, IntOp, Unary};
use crate::vm::jvm::{JVMResult, JVM};
use crate::vm::stack_frame::{follows, StackFrame};
use vstd::prelude::*;

verus! {

impl JVM {

    /// `iadd`: replaces the two topmost integers by the sum of the lower and the upper, wrapping on overflow.
    pub fn iadd(frame: &mut StackFrame) -> (r: JVMResult)
        ensures
            follows(*old(frame), *final(frame), r, int_binary(old(frame).state(), IntOp::Add)),
    {
        Self::binary_int(frame, IntOp::Add)
    }

    /// `ladd`: replaces the two topmost longs by the sum of the lower and the upper, wrapping on overflow.
    pub fn ladd(frame: &mut StackFrame) -> (r: JVMResult)
        ensures
            follows(*old(frame), *final(frame), r, long_binary(old(frame).state(), IntOp::Add)),
    {
        Self::binary_long(frame, IntOp::Add)
    }

    /// `isub`: replaces the two topmost integers by the difference of the lower and the upper, wrapping on overflow.
    pub fn isub(frame: &mut StackFrame) -> (r: JVMResult)
        ensures
            follows(*old(frame), *final(frame), r, int_binary(old(frame).state(), IntOp::Sub)),
    {
        Self::binary_int(frame, IntOp::Sub)
    }

    /// `lsub`: replaces the two topmost longs by the difference of the lower and the upper, wrapping on overflow.
    pub fn lsub(frame: &mut StackFrame) -> (r: JVMResult)
        ensures
            follows(*old(frame), *final(frame), r, long_binary(old(frame).state(), IntOp::Sub)),
    {
        Self::binary_long(frame, IntOp::Sub)
    }

    /// `imul`: replaces the two topmost integers by the product of the lower and the upper, wrapping on overflow.
    pub fn imul(frame: &mut StackFrame) -> (r: JVMResult)
        ensures
            follows(*old(frame), *final(frame), r, int_binary(old(frame).state(), IntOp::Mul)),
    {
        Self::binary_int(frame, IntOp::Mul)
    }

    /// `lmul`: replaces the two topmost longs by the product of the lower and the upper, wrapping on overflow.
    pub fn lmul(frame: &mut StackFrame) -> (r: JVMResult)
        ensures
            follows(*old(frame), *final(frame), r, long_binary(old(frame).state(), IntOp::Mul)),
    {
        Self::binary_long(frame, IntOp::Mul)
    }

    /// `idiv`: replaces the two topmost integers by the quotient, rounded towards zero, of the lower and the upper, wrapping on overflow. `DivisionByZero` when the divisor is zero.
    pub fn idiv(frame: &mut StackFrame) -> (r: JVMResult)
        ensures
            follows(*old(frame), *final(frame), r, int_binary(old(frame).state(), IntOp::Div)),
    {
        Self::binary_int(frame, IntOp::Div)
    }

    /// `ldiv`: replaces the two topmost longs by the quotient, rounded towards zero, of the lower and the upper, wrapping on overflow. `DivisionByZero` when the divisor is zero.
    pub fn ldiv(frame: &mut StackFrame) -> (r: JVMResult)
        ensures
            follows(*old(frame), *final(frame), r, long_binary(old(frame).state(), IntOp::Div)),
    {
        Self::binary_long(frame, IntOp::Div)
    }

    /// `irem`: replaces the two topmost integers by the remainder of the lower and the upper, wrapping on overflow. `DivisionByZero` when the divisor is zero.
    pub fn irem(frame: &mut StackFrame) -> (r: JVMResult)
        ensures
            follows(*old(frame), *final(frame), r, int_binary(old(frame).state(), IntOp::Rem)),
    {
        Self::binary_int(frame, IntOp::Rem)
    }

    /// `lrem`: replaces the two topmost longs by the remainder of the lower and the upper, wrapping on overflow. `DivisionByZero` when the divisor is zero.
    pub fn lrem(frame: &mut StackFrame) -> (r: JVMResult)
        ensures
            follows(*old(frame), *final(frame), r, long_binary(old(frame).state(), IntOp::Rem)),
    {
        Self::binary_long(frame, IntOp::Rem)
    }

    /// `ishl`: replaces the two topmost integers by the left shift of the lower and the upper.
    pub fn ishl(frame: &mut StackFrame) -> (r: JVMResult)
        ensures
            follows(*old(frame), *final(frame), r, int_binary(old(frame).state(), IntOp::Shl)),
    {
        Self::binary_int(frame, IntOp::Shl)
    }

    /// `lshl`: replaces a long and the integer above it by the left shift of the long by the low six bits of the integer.
    pub fn lshl(frame: &mut StackFrame) -> (r: JVMResult)
        ensures
            follows(*old(frame), *final(frame), r, long_binary(old(frame).state(), IntOp::Shl)),
    {
        Self::binary_long(frame, IntOp::Shl)
    }

    /// `ishr`: replaces the two topmost integers by the sign-keeping right shift of the lower and the upper.
    pub fn ishr(frame: &mut StackFrame) -> (r: JVMResult)
        ensures
            follows(*old(frame), *final(frame), r, int_binary(old(frame).state(), IntOp::Shr)),
    {
        Self::binary_int(frame, IntOp::Shr)
    }

    /// `lshr`: replaces a long and the integer above it by the sign-keeping right shift of the long by the low six bits of the integer.
    pub fn lshr(frame: &mut StackFrame) -> (r: JVMResult)
        ensures
            follows(*old(frame), *final(frame), r, long_binary(old(frame).state(), IntOp::Shr)),
    {
        Self::binary_long(frame, IntOp::Shr)
    }

    /// `iushr`: replaces the two topmost integers by the zero-filling right shift of the lower and the upper.
    pub fn iushr(frame: &mut StackFrame) -> (r: JVMResult)
        ensures
            follows(*old(frame), *final(frame), r, int_binary(old(frame).state(), IntOp::UShr)),
    {
        Self::binary_int(frame, IntOp::UShr)
    }

    /// `lushr`: replaces a long and the integer above it by the zero-filling right shift of the long by the low six bits of the integer.
    pub fn lushr(frame: &mut StackFrame) -> (r: JVMResult)
        ensures
            follows(*old(frame), *final(frame), r, long_binary(old(frame).state(), IntOp::UShr)),
    {
        Self::binary_long(frame, IntOp::UShr)
    }

    /// `iand`: replaces the two topmost integers by the bitwise and of the lower and the upper.
    pub fn iand(frame: &mut StackFrame) -> (r: JVMResult)
        ensures
            follows(*old(frame), *final(frame), r, int_binary(old(frame).state(), IntOp::And)),
    {
        Self::binary_int(frame, IntOp::And)
    }

    /// `land`: replaces the two topmost longs by the bitwise and of the lower and the upper.
    pub fn land(frame: &mut StackFrame) -> (r: JVMResult)
        ensures
            follows(*old(frame), *final(frame), r, long_binary(old(frame).state(), IntOp::And)),
    {
        Self::binary_long(frame, IntOp::And)
    }

    /// `ior`: replaces the two topmost integers by the bitwise or of the lower and the upper.
    pub fn ior(frame: &mut StackFrame) -> (r: JVMResult)
        ensures
            follows(*old(frame), *final(frame), r, int_binary(old(frame).state(), IntOp::Or)),
    {
        Self::binary_int(frame, IntOp::Or)
    }

    /// `lor`: replaces the two topmost longs by the bitwise or of the lower and the upper.
    pub fn lor(frame: &mut StackFrame) -> (r: JVMResult)
        ensures
            follows(*old(frame), *final(frame), r, long_binary(old(frame).state(), IntOp::Or)),
    {
        Self::binary_long(frame, IntOp::Or)
    }

    /// `ixor`: replaces the two topmost integers by the bitwise exclusive or of the lower and the upper.
    pub fn ixor(frame: &mut StackFrame) -> (r: JVMResult)
        ensures
            follows(*old(frame), *final(frame), r, int_binary(old(frame).state(), IntOp::Xor)),
    {
        Self::binary_int(frame, IntOp::Xor)
    }

    /// `lxor`: replaces the two topmost longs by the bitwise exclusive or of the lower and the upper.
    pub fn lxor(frame: &mut StackFrame) -> (r: JVMResult)
        ensures
            follows(*old(frame), *final(frame), r, long_binary(old(frame).state(), IntOp::Xor)),
    {
        Self::binary_long(frame, IntOp::Xor)
    }

    /// `ineg`: negates the integer on top, wrapping on overflow.
    pub fn ineg(frame: &mut StackFrame) -> (r: JVMResult)
        ensures
            follows(*old(frame), *final(frame), r, unary(old(frame).state(), Unary::INeg)),
    {
        Self::convert(frame, Unary::INeg)
    }

    /// `lneg`: negates the long on top, wrapping on overflow.
    pub fn lneg(frame: &mut StackFrame) -> (r: JVMResult)
        ensures
            follows(*old(frame), *final(frame), r, unary(old(frame).state(), Unary::LNeg)),
    {
        Self::convert(frame, Unary::LNeg)
    }

    /// `iinc`: adds `constant` to the integer local at `index`, wrapping on overflow.
    pub fn iinc(frame: &mut StackFrame, index: u16, constant: i16) -> (r: JVMResult)
        ensures
            follows(*old(frame), *final(frame), r, increment_local(old(frame).state(), index as int, constant as int)),
    {
        Self::increment(frame, index, constant)
    }

}

} // verus!
