//! Comparisons and conditional branches.
use crate::error::JVMError;
use crate::vm::effect::{
    branch_on_ints, branch_on_null, branch_on_references, branch_on_zero, compare_longs, Relation,
};
use crate::vm::jvm::{JVMResult, JVM};
use crate::vm::stack_frame::{follows, follows_branch, StackFrame};
use vstd::prelude::*;

verus! {

impl JVM {

    /// `lcmp`: replaces the two topmost longs by -1, 0 or 1 as the lower is less than, equal to or greater than the upper.
    pub fn lcmp(frame: &mut StackFrame) -> (r: JVMResult)
        ensures
            follows(*old(frame), *final(frame), r, compare_longs(old(frame).state())),
    {
        Self::compare_long(frame)
    }

    /// `ifeq`: pops an integer and branches when it is zero.  Returns whether it branched.
    pub fn ifeq(frame: &mut StackFrame, offset: i16) -> (r: Result<bool, JVMError>)
        ensures
            follows_branch(*old(frame), *final(frame), r, branch_on_zero(old(frame).state(), Relation::Eq, offset)),
    {
        Self::jump_on_zero(frame, Relation::Eq, offset)
    }

    /// `ifne`: pops an integer and branches when it is not zero.  Returns whether it branched.
    pub fn ifne(frame: &mut StackFrame, offset: i16) -> (r: Result<bool, JVMError>)
        ensures
            follows_branch(*old(frame), *final(frame), r, branch_on_zero(old(frame).state(), Relation::Ne, offset)),
    {
        Self::jump_on_zero(frame, Relation::Ne, offset)
    }

    /// `iflt`: pops an integer and branches when it is negative.  Returns whether it branched.
    pub fn iflt(frame: &mut StackFrame, offset: i16) -> (r: Result<bool, JVMError>)
        ensures
            follows_branch(*old(frame), *final(frame), r, branch_on_zero(old(frame).state(), Relation::Lt, offset)),
    {
        Self::jump_on_zero(frame, Relation::Lt, offset)
    }

    /// `ifge`: pops an integer and branches when it is not negative.  Returns whether it branched.
    pub fn ifge(frame: &mut StackFrame, offset: i16) -> (r: Result<bool, JVMError>)
        ensures
            follows_branch(*old(frame), *final(frame), r, branch_on_zero(old(frame).state(), Relation::Ge, offset)),
    {
        Self::jump_on_zero(frame, Relation::Ge, offset)
    }

    /// `ifgt`: pops an integer and branches when it is positive.  Returns whether it branched.
    pub fn ifgt(frame: &mut StackFrame, offset: i16) -> (r: Result<bool, JVMError>)
        ensures
            follows_branch(*old(frame), *final(frame), r, branch_on_zero(old(frame).state(), Relation::Gt, offset)),
    {
        Self::jump_on_zero(frame, Relation::Gt, offset)
    }

    /// `ifle`: pops an integer and branches when it is not positive.  Returns whether it branched.
    pub fn ifle(frame: &mut StackFrame, offset: i16) -> (r: Result<bool, JVMError>)
        ensures
            follows_branch(*old(frame), *final(frame), r, branch_on_zero(old(frame).state(), Relation::Le, offset)),
    {
        Self::jump_on_zero(frame, Relation::Le, offset)
    }

    /// `if_icmpeq`: pops two integers and branches when the lower equals the upper.  Returns whether it branched.
    pub fn if_icmpeq(frame: &mut StackFrame, offset: i16) -> (r: Result<bool, JVMError>)
        ensures
            follows_branch(*old(frame), *final(frame), r, branch_on_ints(old(frame).state(), Relation::Eq, offset)),
    {
        Self::jump_on_ints(frame, Relation::Eq, offset)
    }

    /// `if_icmpne`: pops two integers and branches when the lower differs from the upper.  Returns whether it branched.
    pub fn if_icmpne(frame: &mut StackFrame, offset: i16) -> (r: Result<bool, JVMError>)
        ensures
            follows_branch(*old(frame), *final(frame), r, branch_on_ints(old(frame).state(), Relation::Ne, offset)),
    {
        Self::jump_on_ints(frame, Relation::Ne, offset)
    }

    /// `if_icmplt`: pops two integers and branches when the lower is less than the upper.  Returns whether it branched.
    pub fn if_icmplt(frame: &mut StackFrame, offset: i16) -> (r: Result<bool, JVMError>)
        ensures
            follows_branch(*old(frame), *final(frame), r, branch_on_ints(old(frame).state(), Relation::Lt, offset)),
    {
        Self::jump_on_ints(frame, Relation::Lt, offset)
    }

    /// `if_icmpge`: pops two integers and branches when the lower is at least the upper.  Returns whether it branched.
    pub fn if_icmpge(frame: &mut StackFrame, offset: i16) -> (r: Result<bool, JVMError>)
        ensures
            follows_branch(*old(frame), *final(frame), r, branch_on_ints(old(frame).state(), Relation::Ge, offset)),
    {
        Self::jump_on_ints(frame, Relation::Ge, offset)
    }

    /// `if_icmpgt`: pops two integers and branches when the lower is greater than the upper.  Returns whether it branched.
    pub fn if_icmpgt(frame: &mut StackFrame, offset: i16) -> (r: Result<bool, JVMError>)
        ensures
            follows_branch(*old(frame), *final(frame), r, branch_on_ints(old(frame).state(), Relation::Gt, offset)),
    {
        Self::jump_on_ints(frame, Relation::Gt, offset)
    }

    /// `if_icmple`: pops two integers and branches when the lower is at most the upper.  Returns whether it branched.
    pub fn if_icmple(frame: &mut StackFrame, offset: i16) -> (r: Result<bool, JVMError>)
        ensures
            follows_branch(*old(frame), *final(frame), r, branch_on_ints(old(frame).state(), Relation::Le, offset)),
    {
        Self::jump_on_ints(frame, Relation::Le, offset)
    }

    /// `if_acmpeq`: pops two references and branches when they are the same reference.  Returns whether it branched.
    pub fn if_acmpeq(frame: &mut StackFrame, offset: i16) -> (r: Result<bool, JVMError>)
        ensures
            follows_branch(*old(frame), *final(frame), r, branch_on_references(old(frame).state(), true, offset)),
    {
        Self::jump_on_references(frame, true, offset)
    }

    /// `if_acmpne`: pops two references and branches when they are not the same reference.  Returns whether it branched.
    pub fn if_acmpne(frame: &mut StackFrame, offset: i16) -> (r: Result<bool, JVMError>)
        ensures
            follows_branch(*old(frame), *final(frame), r, branch_on_references(old(frame).state(), false, offset)),
    {
        Self::jump_on_references(frame, false, offset)
    }

    /// `ifnull`: pops a reference and branches when it is null.  Returns whether it branched.
    pub fn ifnull(frame: &mut StackFrame, offset: i16) -> (r: Result<bool, JVMError>)
        ensures
            follows_branch(*old(frame), *final(frame), r, branch_on_null(old(frame).state(), true, offset)),
    {
        Self::jump_on_null(frame, true, offset)
    }

    /// `ifnonnull`: pops a reference and branches when it is not null.  Returns whether it branched.
    pub fn ifnonnull(frame: &mut StackFrame, offset: i16) -> (r: Result<bool, JVMError>)
        ensures
            follows_branch(*old(frame), *final(frame), r, branch_on_null(old(frame).state(), false, offset)),
    {
        Self::jump_on_null(frame, false, offset)
    }

}

} // verus!
