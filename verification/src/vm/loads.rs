//! Instructions that push a local variable.
use crate::vm::effect::{load_local, Kind};
use crate::vm::jvm::{JVMResult, JVM};
use crate::vm::stack_frame::{follows, StackFrame};
use vstd::prelude::*;

verus! {

impl JVM {

    /// `iload`: pushes the local at `index`, which must hold an integer.
    pub fn iload(frame: &mut StackFrame, index: u16) -> (r: JVMResult)
        ensures
            follows(*old(frame), *final(frame), r, load_local(old(frame).state(), index as int, Kind::Int)),
    {
        Self::load(frame, index, Kind::Int)
    }

    /// `lload`: pushes the local at `index`, which must hold a long.
    pub fn lload(frame: &mut StackFrame, index: u16) -> (r: JVMResult)
        ensures
            follows(*old(frame), *final(frame), r, load_local(old(frame).state(), index as int, Kind::Long)),
    {
        Self::load(frame, index, Kind::Long)
    }

    /// `fload`: pushes the local at `index`, which must hold a float.
    pub fn fload(frame: &mut StackFrame, index: u16) -> (r: JVMResult)
        ensures
            follows(*old(frame), *final(frame), r, load_local(old(frame).state(), index as int, Kind::Float)),
    {
        Self::load(frame, index, Kind::Float)
    }

    /// `dload`: pushes the local at `index`, which must hold a double.
    pub fn dload(frame: &mut StackFrame, index: u16) -> (r: JVMResult)
        ensures
            follows(*old(frame), *final(frame), r, load_local(old(frame).state(), index as int, Kind::Double)),
    {
        Self::load(frame, index, Kind::Double)
    }

    /// `aload`: pushes the local at `index`, which must hold a reference.
    pub fn aload(frame: &mut StackFrame, index: u16) -> (r: JVMResult)
        ensures
            follows(*old(frame), *final(frame), r, load_local(old(frame).state(), index as int, Kind::Reference)),
    {
        Self::load(frame, index, Kind::Reference)
    }

}

} // verus!
