//! Instructions that pop into a local variable.
use crate::vm::effect::{store_local, Kind};
use crate::vm::jvm::{JVMResult, JVM};
use crate::vm::stack_frame::{follows, StackFrame};
use vstd::prelude::*;

verus! {

impl JVM {

    /// `istore`: pops an integer into the local at `index`.
    pub fn istore(frame: &mut StackFrame, index: u16) -> (r: JVMResult)
        ensures
            follows(*old(frame), *final(frame), r, store_local(old(frame).state(), index as int, Kind::Int)),
    {
        Self::store(frame, index, Kind::Int)
    }

    /// `lstore`: pops a long into the local at `index`.
    pub fn lstore(frame: &mut StackFrame, index: u16) -> (r: JVMResult)
        ensures
            follows(*old(frame), *final(frame), r, store_local(old(frame).state(), index as int, Kind::Long)),
    {
        Self::store(frame, index, Kind::Long)
    }

    /// `fstore`: pops a float into the local at `index`.
    pub fn fstore(frame: &mut StackFrame, index: u16) -> (r: JVMResult)
        ensures
            follows(*old(frame), *final(frame), r, store_local(old(frame).state(), index as int, Kind::Float)),
    {
        Self::store(frame, index, Kind::Float)
    }

    /// `dstore`: pops a double into the local at `index`.
    pub fn dstore(frame: &mut StackFrame, index: u16) -> (r: JVMResult)
        ensures
            follows(*old(frame), *final(frame), r, store_local(old(frame).state(), index as int, Kind::Double)),
    {
        Self::store(frame, index, Kind::Double)
    }

    /// `astore`: pops a reference into the local at `index`.
    pub fn astore(frame: &mut StackFrame, index: u16) -> (r: JVMResult)
        ensures
            follows(*old(frame), *final(frame), r, store_local(old(frame).state(), index as int, Kind::Reference)),
    {
        Self::store(frame, index, Kind::Reference)
    }

}

} // verus!
