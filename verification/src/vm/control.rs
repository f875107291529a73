//! Unconditional branches and switches.
use crate::error::JVMError;
use crate::vm::effect::{
    below, branch, first_match, lookup_offset, lookup_switch, table_offset, table_switch,
};
use crate::vm::jvalue::JValue;
use crate::vm::jvm::JVM;
use crate::vm::stack_frame::{follows_branch, StackFrame};
use vstd::prelude::*;

verus! {

/// Computes `table_offset`.
pub fn select_from_table(
    default_offset: i32,
    low: i32,
    high: i32,
    jump_offsets: &Vec<i32>,
    key: i32,
) -> (r: Option<i32>)
    ensures
        r == table_offset(default_offset, low, high, jump_offsets@, key),
{
    if key < low || key > high {
        Some(default_offset)
    } else {
        let index: u64 = (key as i64 - low as i64) as u64;
        if index < jump_offsets.len() as u64 {
            Some(jump_offsets[index as usize])
        } else {
            None
        }
    }
}

/// Computes `lookup_offset`.
pub fn select_from_pairs(default_offset: i32, match_offsets: &Vec<(i32, i32)>, key: i32) -> (r: i32)
    ensures
        r == lookup_offset(default_offset, match_offsets@, key),
{
    let mut i: usize = 0;
    assert(match_offsets@.skip(0) =~= match_offsets@);
    while i < match_offsets.len()
        invariant
            i <= match_offsets@.len(),
            first_match(match_offsets@, key) == first_match(match_offsets@.skip(i as int), key),
        decreases match_offsets@.len() - i,
    {
        let pair = match_offsets[i];
        if pair.0 == key {
            return pair.1;
        }
        assert(match_offsets@.skip(i as int).drop_first() =~= match_offsets@.skip(i + 1));
        i = i + 1;
    }
    default_offset
}

impl JVM {
    /// `goto` and `goto_w`: continues `offset` bytes from the instruction.
    pub fn goto(frame: &mut StackFrame, offset: i32) -> (r: Result<bool, JVMError>)
        ensures
            follows_branch(
                *old(frame),
                *final(frame),
                r,
                branch(old(frame).state(), old(frame).operand_stack@, true, offset as int),
            ),
    {
        assert(below(frame.operand_stack@, 0) =~= frame.operand_stack@);
        Self::jump(frame, 0, true, offset)
    }

    /// `tableswitch`: pops the integer key and branches by the entry of the
    /// table for it, or by the default offset when the key lies outside
    /// `[low, high]`.
    pub fn tableswitch(
        frame: &mut StackFrame,
        default_offset: i32,
        low: i32,
        high: i32,
        jump_offsets: &Vec<i32>,
    ) -> (r: Result<bool, JVMError>)
        ensures
            follows_branch(
                *old(frame),
                *final(frame),
                r,
                table_switch(old(frame).state(), default_offset, low, high, jump_offsets@),
            ),
    {
        match frame.peek()? {
            JValue::Int(key) => match select_from_table(
                default_offset,
                low,
                high,
                jump_offsets,
                key,
            ) {
                Some(offset) => Self::jump(frame, 1, true, offset),
                None => Err(JVMError::InterpreterBug),
            },
            _ => Err(JVMError::TypeMismatch),
        }
    }

    /// `lookupswitch`: pops the integer key and branches by the offset of
    /// the pair with that key, or by the default offset when there is none.
    pub fn lookupswitch(
        frame: &mut StackFrame,
        default_offset: i32,
        npairs: i32,
        match_offsets: &Vec<(i32, i32)>,
    ) -> (r: Result<bool, JVMError>)
        ensures
            follows_branch(
                *old(frame),
                *final(frame),
                r,
                lookup_switch(old(frame).state(), default_offset, match_offsets@),
            ),
    {
        match frame.peek()? {
            JValue::Int(key) => Self::jump(
                frame,
                1,
                true,
                select_from_pairs(default_offset, match_offsets, key),
            ),
            _ => Err(JVMError::TypeMismatch),
        }
    }
}

} // verus!
