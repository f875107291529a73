//! Conversions between integer types.
use crate::vm::effect::{unary, Unary};
use crate::vm::jvm::{JVMResult, JVM};
use crate::vm::stack_frame::{follows, StackFrame};
use vstd::prelude::*;

verus! {

impl JVM {

    /// `i2l`: widens the integer on top to a long.
    pub fn i2l(frame: &mut StackFrame) -> (r: JVMResult)
        ensures
            follows(*old(frame), *final(frame), r, unary(old(frame).state(), Unary::I2L)),
    {
        Self::convert(frame, Unary::I2L)
    }

    /// `l2i`: narrows the long on top to its low 32 bits.
    pub fn l2i(frame: &mut StackFrame) -> (r: JVMResult)
        ensures
            follows(*old(frame), *final(frame), r, unary(old(frame).state(), Unary::L2I)),
    {
        Self::convert(frame, Unary::L2I)
    }

    /// `i2b`: narrows the integer on top to a signed byte.
    pub fn i2b(frame: &mut StackFrame) -> (r: JVMResult)
        ensures
            follows(*old(frame), *final(frame), r, unary(old(frame).state(), Unary::I2B)),
    {
        Self::convert(frame, Unary::I2B)
    }

    /// `i2c`: narrows the integer on top to an unsigned 16-bit character.
    pub fn i2c(frame: &mut StackFrame) -> (r: JVMResult)
        ensures
            follows(*old(frame), *final(frame), r, unary(old(frame).state(), Unary::I2C)),
    {
        Self::convert(frame, Unary::I2C)
    }

    /// `i2s`: narrows the integer on top to a signed 16-bit number.
    pub fn i2s(frame: &mut StackFrame) -> (r: JVMResult)
        ensures
            follows(*old(frame), *final(frame), r, unary(old(frame).state(), Unary::I2S)),
    {
        Self::convert(frame, Unary::I2S)
    }

}

} // verus!
