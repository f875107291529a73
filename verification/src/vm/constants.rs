//! Instructions that push a constant.
use crate::arith::{byte_to_int, short_to_int};
use crate::vm::effect::{push_value};
use crate::vm::jvalue::JValue;
use crate::vm::jvm::{JVMResult, JVM};
use crate::vm::stack_frame::{follows, StackFrame};
use vstd::prelude::*;

verus! {

impl JVM {

    /// `aconst_null`: pushes the null reference.
    pub fn aconst_null(frame: &mut StackFrame) -> (r: JVMResult)
        ensures
            follows(*old(frame), *final(frame), r, push_value(old(frame).state(), JValue::Null)),
    {
        frame.push(JValue::Null)
    }

    /// `iconst_<i>`: pushes the integer `constant`.
    pub fn iconst_i(frame: &mut StackFrame, constant: i32) -> (r: JVMResult)
        ensures
            follows(*old(frame), *final(frame), r, push_value(old(frame).state(), JValue::Int(constant))),
    {
        frame.push_int(constant)
    }

    /// `lconst_<l>`: pushes the long `constant`.
    pub fn lconst_i(frame: &mut StackFrame, constant: i64) -> (r: JVMResult)
        ensures
            follows(*old(frame), *final(frame), r, push_value(old(frame).state(), JValue::Long(constant))),
    {
        frame.push_long(constant)
    }

    /// `fconst_<f>`: pushes the float with bit pattern `bits`.
    pub fn fconst_i(frame: &mut StackFrame, bits: u32) -> (r: JVMResult)
        ensures
            follows(*old(frame), *final(frame), r, push_value(old(frame).state(), JValue::Float(bits))),
    {
        frame.push_float(bits)
    }

    /// `dconst_<d>`: pushes the double with bit pattern `bits`.
    pub fn dconst_i(frame: &mut StackFrame, bits: u64) -> (r: JVMResult)
        ensures
            follows(*old(frame), *final(frame), r, push_value(old(frame).state(), JValue::Double(bits))),
    {
        frame.push_double(bits)
    }

    /// `bipush`: pushes the signed byte, widened to an integer.
    pub fn bipush(frame: &mut StackFrame, byte: i8) -> (r: JVMResult)
        ensures
            follows(*old(frame), *final(frame), r, push_value(old(frame).state(), JValue::Int(byte as i32))),
    {
        frame.push_int(byte_to_int(byte))
    }

    /// `sipush`: pushes the signed 16-bit number, widened to an integer.
    pub fn sipush(frame: &mut StackFrame, short: i16) -> (r: JVMResult)
        ensures
            follows(*old(frame), *final(frame), r, push_value(old(frame).state(), JValue::Int(short as i32))),
    {
        frame.push_int(short_to_int(short))
    }

}

} // verus!
