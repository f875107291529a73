//! Dispatch of the instructions that work on the executing frame alone.
use crate::arith::{short_to_int, u8_to_u16, byte_to_short};
use crate::error::JVMError;
use crate::vm::dispatch_effect::{
    array_load_effect, array_store_op, branch_effect, comparison_effect, constant_effect,
    control_effect, conversion_effect, effect, float_effect, float_op, is_unsupported,
    load_effect, math_effect, return_kind, stack_effect, store_effect,
};
use crate::vm::floats::{FloatOp, FloatRequest};
use crate::vm::frame_return::returned;
use crate::vm::jthread::JThread;
use crate::vm::jvm::{JVMResult, JVM};
use crate::vm::opcode::{Opcode, WideInstruction};
use crate::vm::stack_frame::{follows, follows_branch, StackFrame};
use vstd::prelude::*;

verus! {

/// A handler of instructions that do not branch ran, or found that the
/// instruction is none of its own and left the frame as it was.
pub open spec fn dispatched(
    pre: StackFrame,
    post: StackFrame,
    r: Option<JVMResult>,
    expected: Option<Result<crate::vm::effect::Outcome, JVMError>>,
) -> bool {
    match expected {
        Some(outcome) => r is Some && follows(pre, post, r->0, outcome),
        None => r is None && post == pre,
    }
}

/// A handler of instructions that may branch ran, or found that the
/// instruction is none of its own and left the frame as it was.
pub open spec fn dispatched_branch(
    pre: StackFrame,
    post: StackFrame,
    r: Option<Result<bool, JVMError>>,
    expected: Option<Result<crate::vm::effect::Outcome, JVMError>>,
) -> bool {
    match expected {
        Some(outcome) => r is Some && follows_branch(pre, post, r->0, outcome),
        None => r is None && post == pre,
    }
}

/// The handler of array stores ran, or found that the instruction is none of
/// its own and left the machine and the frame as they were.
pub open spec fn dispatched_store(
    pre: JVM,
    post: JVM,
    before: StackFrame,
    after: StackFrame,
    r: Option<JVMResult>,
    op: Opcode,
) -> bool {
    match array_store_op(op) {
        Some(family) => r is Some && JVM::stores(pre, post, before, after, r->0, family),
        None => r is None && post == pre && after == before,
    }
}

/// The handler of returns ran, or found that the instruction is none of its
/// own and left the thread as it was.
pub open spec fn dispatched_return(pre: JThread, post: JThread, r: Option<JVMResult>, op: Opcode) -> bool {
    match return_kind(op) {
        Some(kind) => r is Some && returned(pre, post, r->0, kind),
        None => r is None && post == pre,
    }
}

/// The result of an instruction that does not branch, as that of one that
/// may.
pub open spec fn not_branching(r: Option<JVMResult>) -> Option<Result<bool, JVMError>> {
    match r {
        Some(Ok(())) => Some(Ok(false)),
        Some(Err(e)) => Some(Err(e)),
        None => None,
    }
}

impl JVM {
    /// Executes `op` on `frame` if it pushes a constant that it carries.
    pub fn execute_constant(frame: &mut StackFrame, op: &Opcode) -> (r: Option<JVMResult>)
        ensures
            dispatched(*old(frame), *final(frame), r, constant_effect(*op, old(frame).state())),
    {
        match op {
            Opcode::Nop => Some(Ok(())),
            Opcode::AConstNull => Some(Self::aconst_null(frame)),
            Opcode::IConstM1 => Some(Self::iconst_i(frame, -1)),
            Opcode::IConst0 => Some(Self::iconst_i(frame, 0)),
            Opcode::IConst1 => Some(Self::iconst_i(frame, 1)),
            Opcode::IConst2 => Some(Self::iconst_i(frame, 2)),
            Opcode::IConst3 => Some(Self::iconst_i(frame, 3)),
            Opcode::IConst4 => Some(Self::iconst_i(frame, 4)),
            Opcode::IConst5 => Some(Self::iconst_i(frame, 5)),
            Opcode::LConst0 => Some(Self::lconst_i(frame, 0)),
            Opcode::LConst1 => Some(Self::lconst_i(frame, 1)),
            Opcode::FConst0 => Some(Self::fconst_i(frame, 0x0000_0000)),
            Opcode::FConst1 => Some(Self::fconst_i(frame, 0x3F80_0000)),
            Opcode::FConst2 => Some(Self::fconst_i(frame, 0x4000_0000)),
            Opcode::DConst0 => Some(Self::dconst_i(frame, 0x0000_0000_0000_0000)),
            Opcode::DConst1 => Some(Self::dconst_i(frame, 0x3FF0_0000_0000_0000)),
            Opcode::BIPush(byte) => Some(Self::bipush(frame, *byte)),
            Opcode::SIPush(short) => Some(Self::sipush(frame, *short)),
            _ => None,
        }
    }

    /// Executes `op` on `frame` if it pushes a local variable.
    pub fn execute_load(frame: &mut StackFrame, op: &Opcode) -> (r: Option<JVMResult>)
        ensures
            dispatched(*old(frame), *final(frame), r, load_effect(*op, old(frame).state())),
    {
        match op {
            Opcode::ILoad(index) => Some(Self::iload(frame, u8_to_u16(*index))),
            Opcode::ILoad0 => Some(Self::iload(frame, 0)),
            Opcode::ILoad1 => Some(Self::iload(frame, 1)),
            Opcode::ILoad2 => Some(Self::iload(frame, 2)),
            Opcode::ILoad3 => Some(Self::iload(frame, 3)),
            Opcode::Wide(WideInstruction::ILoad(index)) => Some(Self::iload(frame, *index)),
            Opcode::LLoad(index) => Some(Self::lload(frame, u8_to_u16(*index))),
            Opcode::LLoad0 => Some(Self::lload(frame, 0)),
            Opcode::LLoad1 => Some(Self::lload(frame, 1)),
            Opcode::LLoad2 => Some(Self::lload(frame, 2)),
            Opcode::LLoad3 => Some(Self::lload(frame, 3)),
            Opcode::Wide(WideInstruction::LLoad(index)) => Some(Self::lload(frame, *index)),
            Opcode::FLoad(index) => Some(Self::fload(frame, u8_to_u16(*index))),
            Opcode::FLoad0 => Some(Self::fload(frame, 0)),
            Opcode::FLoad1 => Some(Self::fload(frame, 1)),
            Opcode::FLoad2 => Some(Self::fload(frame, 2)),
            Opcode::FLoad3 => Some(Self::fload(frame, 3)),
            Opcode::Wide(WideInstruction::FLoad(index)) => Some(Self::fload(frame, *index)),
            Opcode::DLoad(index) => Some(Self::dload(frame, u8_to_u16(*index))),
            Opcode::DLoad0 => Some(Self::dload(frame, 0)),
            Opcode::DLoad1 => Some(Self::dload(frame, 1)),
            Opcode::DLoad2 => Some(Self::dload(frame, 2)),
            Opcode::DLoad3 => Some(Self::dload(frame, 3)),
            Opcode::Wide(WideInstruction::DLoad(index)) => Some(Self::dload(frame, *index)),
            Opcode::ALoad(index) => Some(Self::aload(frame, u8_to_u16(*index))),
            Opcode::ALoad0 => Some(Self::aload(frame, 0)),
            Opcode::ALoad1 => Some(Self::aload(frame, 1)),
            Opcode::ALoad2 => Some(Self::aload(frame, 2)),
            Opcode::ALoad3 => Some(Self::aload(frame, 3)),
            Opcode::Wide(WideInstruction::ALoad(index)) => Some(Self::aload(frame, *index)),
            _ => None,
        }
    }

    /// Executes `op` on `frame` if it pops into a local variable.
    pub fn execute_store(frame: &mut StackFrame, op: &Opcode) -> (r: Option<JVMResult>)
        ensures
            dispatched(*old(frame), *final(frame), r, store_effect(*op, old(frame).state())),
    {
        match op {
            Opcode::IStore(index) => Some(Self::istore(frame, u8_to_u16(*index))),
            Opcode::IStore0 => Some(Self::istore(frame, 0)),
            Opcode::IStore1 => Some(Self::istore(frame, 1)),
            Opcode::IStore2 => Some(Self::istore(frame, 2)),
            Opcode::IStore3 => Some(Self::istore(frame, 3)),
            Opcode::Wide(WideInstruction::IStore(index)) => Some(Self::istore(frame, *index)),
            Opcode::LStore(index) => Some(Self::lstore(frame, u8_to_u16(*index))),
            Opcode::LStore0 => Some(Self::lstore(frame, 0)),
            Opcode::LStore1 => Some(Self::lstore(frame, 1)),
            Opcode::LStore2 => Some(Self::lstore(frame, 2)),
            Opcode::LStore3 => Some(Self::lstore(frame, 3)),
            Opcode::Wide(WideInstruction::LStore(index)) => Some(Self::lstore(frame, *index)),
            Opcode::FStore(index) => Some(Self::fstore(frame, u8_to_u16(*index))),
            Opcode::FStore0 => Some(Self::fstore(frame, 0)),
            Opcode::FStore1 => Some(Self::fstore(frame, 1)),
            Opcode::FStore2 => Some(Self::fstore(frame, 2)),
            Opcode::FStore3 => Some(Self::fstore(frame, 3)),
            Opcode::Wide(WideInstruction::FStore(index)) => Some(Self::fstore(frame, *index)),
            Opcode::DStore(index) => Some(Self::dstore(frame, u8_to_u16(*index))),
            Opcode::DStore0 => Some(Self::dstore(frame, 0)),
            Opcode::DStore1 => Some(Self::dstore(frame, 1)),
            Opcode::DStore2 => Some(Self::dstore(frame, 2)),
            Opcode::DStore3 => Some(Self::dstore(frame, 3)),
            Opcode::Wide(WideInstruction::DStore(index)) => Some(Self::dstore(frame, *index)),
            Opcode::AStore(index) => Some(Self::astore(frame, u8_to_u16(*index))),
            Opcode::AStore0 => Some(Self::astore(frame, 0)),
            Opcode::AStore1 => Some(Self::astore(frame, 1)),
            Opcode::AStore2 => Some(Self::astore(frame, 2)),
            Opcode::AStore3 => Some(Self::astore(frame, 3)),
            Opcode::Wide(WideInstruction::AStore(index)) => Some(Self::astore(frame, *index)),
            _ => None,
        }
    }

    /// Executes `op` on `frame` if it shuffles the operand stack.
    pub fn execute_stack(frame: &mut StackFrame, op: &Opcode) -> (r: Option<JVMResult>)
        ensures
            dispatched(*old(frame), *final(frame), r, stack_effect(*op, old(frame).state())),
    {
        match op {
            Opcode::Pop => Some(Self::pop(frame)),
            Opcode::Pop2 => Some(Self::pop2(frame)),
            Opcode::Dup => Some(Self::dup(frame)),
            Opcode::DupX1 => Some(Self::dup_x1(frame)),
            Opcode::DupX2 => Some(Self::dup_x2(frame)),
            Opcode::Dup2 => Some(Self::dup2(frame)),
            Opcode::Dup2X1 => Some(Self::dup2_x1(frame)),
            Opcode::Dup2X2 => Some(Self::dup2_x2(frame)),
            Opcode::Swap => Some(Self::swap(frame)),
            _ => None,
        }
    }

    /// Executes `op` on `frame` if it does integer arithmetic.
    pub fn execute_math(frame: &mut StackFrame, op: &Opcode) -> (r: Option<JVMResult>)
        ensures
            dispatched(*old(frame), *final(frame), r, math_effect(*op, old(frame).state())),
    {
        match op {
            Opcode::IAdd => Some(Self::iadd(frame)),
            Opcode::LAdd => Some(Self::ladd(frame)),
            Opcode::ISub => Some(Self::isub(frame)),
            Opcode::LSub => Some(Self::lsub(frame)),
            Opcode::IMul => Some(Self::imul(frame)),
            Opcode::LMul => Some(Self::lmul(frame)),
            Opcode::IDiv => Some(Self::idiv(frame)),
            Opcode::LDiv => Some(Self::ldiv(frame)),
            Opcode::IRem => Some(Self::irem(frame)),
            Opcode::LRem => Some(Self::lrem(frame)),
            Opcode::IShl => Some(Self::ishl(frame)),
            Opcode::LShl => Some(Self::lshl(frame)),
            Opcode::IShr => Some(Self::ishr(frame)),
            Opcode::LShr => Some(Self::lshr(frame)),
            Opcode::IUShr => Some(Self::iushr(frame)),
            Opcode::LUshr => Some(Self::lushr(frame)),
            Opcode::IAnd => Some(Self::iand(frame)),
            Opcode::LAnd => Some(Self::land(frame)),
            Opcode::IOr => Some(Self::ior(frame)),
            Opcode::LOr => Some(Self::lor(frame)),
            Opcode::IXor => Some(Self::ixor(frame)),
            Opcode::LXor => Some(Self::lxor(frame)),
            Opcode::INeg => Some(Self::ineg(frame)),
            Opcode::LNeg => Some(Self::lneg(frame)),
            Opcode::IInc(index, constant) => Some(Self::iinc(frame, u8_to_u16(*index), byte_to_short(*constant))),
            Opcode::Wide(WideInstruction::IInc(index, constant)) => Some(Self::iinc(frame, *index, *constant)),
            _ => None,
        }
    }

    /// Executes `op` on `frame` if it converts between integer types.
    pub fn execute_conversion(frame: &mut StackFrame, op: &Opcode) -> (r: Option<JVMResult>)
        ensures
            dispatched(*old(frame), *final(frame), r, conversion_effect(*op, old(frame).state())),
    {
        match op {
            Opcode::I2L => Some(Self::i2l(frame)),
            Opcode::L2I => Some(Self::l2i(frame)),
            Opcode::I2B => Some(Self::i2b(frame)),
            Opcode::I2C => Some(Self::i2c(frame)),
            Opcode::I2S => Some(Self::i2s(frame)),
            _ => None,
        }
    }

    /// Executes `op` on `frame` if it compares two longs.
    pub fn execute_comparison(frame: &mut StackFrame, op: &Opcode) -> (r: Option<JVMResult>)
        ensures
            dispatched(*old(frame), *final(frame), r, comparison_effect(*op, old(frame).state())),
    {
        match op {
            Opcode::LCmp => Some(Self::lcmp(frame)),
            _ => None,
        }
    }

    /// Executes `op` on `frame` if it branches on a condition.
    pub fn execute_branch(frame: &mut StackFrame, op: &Opcode) -> (r: Option<Result<bool, JVMError>>)
        ensures
            dispatched_branch(*old(frame), *final(frame), r, branch_effect(*op, old(frame).state())),
    {
        match op {
            Opcode::IfEq(offset) => Some(Self::ifeq(frame, *offset)),
            Opcode::IfNe(offset) => Some(Self::ifne(frame, *offset)),
            Opcode::IfLt(offset) => Some(Self::iflt(frame, *offset)),
            Opcode::IfGe(offset) => Some(Self::ifge(frame, *offset)),
            Opcode::IfGt(offset) => Some(Self::ifgt(frame, *offset)),
            Opcode::IfLe(offset) => Some(Self::ifle(frame, *offset)),
            Opcode::IfICmpEq(offset) => Some(Self::if_icmpeq(frame, *offset)),
            Opcode::IfICmpNe(offset) => Some(Self::if_icmpne(frame, *offset)),
            Opcode::IfICmpLt(offset) => Some(Self::if_icmplt(frame, *offset)),
            Opcode::IfICmpGe(offset) => Some(Self::if_icmpge(frame, *offset)),
            Opcode::IfICmpGt(offset) => Some(Self::if_icmpgt(frame, *offset)),
            Opcode::IfICmpLe(offset) => Some(Self::if_icmple(frame, *offset)),
            Opcode::IfACmpEq(offset) => Some(Self::if_acmpeq(frame, *offset)),
            Opcode::IfACmpNe(offset) => Some(Self::if_acmpne(frame, *offset)),
            Opcode::IfNull(offset) => Some(Self::ifnull(frame, *offset)),
            Opcode::IfNonNull(offset) => Some(Self::ifnonnull(frame, *offset)),
            _ => None,
        }
    }

    /// Executes `op` on `frame` if it branches without condition or by a table.
    pub fn execute_control(frame: &mut StackFrame, op: &Opcode) -> (r: Option<Result<bool, JVMError>>)
        ensures
            dispatched_branch(*old(frame), *final(frame), r, control_effect(*op, old(frame).state())),
    {
        match op {
            Opcode::Goto(offset) => Some(Self::goto(frame, short_to_int(*offset))),
            Opcode::GotoW(offset) => Some(Self::goto(frame, *offset)),
            Opcode::TableSwitch { default_offset, low, high, jump_offsets } => Some(Self::tableswitch(frame, *default_offset, *low, *high, jump_offsets)),
            Opcode::LookupSwitch { default_offset, npairs, match_offsets } => Some(Self::lookupswitch(frame, *default_offset, *npairs, match_offsets)),
            _ => None,
        }
    }

    /// Executes `op` on `frame` if it works on the frame alone.  Returns
    /// whether the instruction branched.
    pub fn execute_local(frame: &mut StackFrame, op: &Opcode) -> (r: Option<Result<bool, JVMError>>)
        ensures
            dispatched_branch(*old(frame), *final(frame), r, effect(*op, old(frame).state())),
    {
        if let Some(r) = Self::execute_constant(frame, op) {
            return Self::fall_through(r);
        }
        if let Some(r) = Self::execute_load(frame, op) {
            return Self::fall_through(r);
        }
        if let Some(r) = Self::execute_store(frame, op) {
            return Self::fall_through(r);
        }
        if let Some(r) = Self::execute_stack(frame, op) {
            return Self::fall_through(r);
        }
        if let Some(r) = Self::execute_math(frame, op) {
            return Self::fall_through(r);
        }
        if let Some(r) = Self::execute_conversion(frame, op) {
            return Self::fall_through(r);
        }
        if let Some(r) = Self::execute_comparison(frame, op) {
            return Self::fall_through(r);
        }
        if let Some(r) = Self::execute_branch(frame, op) {
            return Some(r);
        }
        Self::execute_control(frame, op)
    }

    /// The result of an instruction that does not branch, as that of one
    /// that may.
    pub fn fall_through(r: JVMResult) -> (b: Option<Result<bool, JVMError>>)
        ensures
            b == not_branching(Some(r)),
    {
        match r {
            Ok(()) => Some(Ok(false)),
            Err(e) => Some(Err(e)),
        }
    }

    /// The floating-point instruction that `op` is, if it is one.
    pub fn as_float_op(op: &Opcode) -> (r: Option<FloatOp>)
        ensures
            r == float_op(*op),
    {
        match op {
            Opcode::FAdd => Some(FloatOp::FAdd),
            Opcode::FSub => Some(FloatOp::FSub),
            Opcode::FMul => Some(FloatOp::FMul),
            Opcode::FDiv => Some(FloatOp::FDiv),
            Opcode::FRem => Some(FloatOp::FRem),
            Opcode::FNeg => Some(FloatOp::FNeg),
            Opcode::DAdd => Some(FloatOp::DAdd),
            Opcode::DSub => Some(FloatOp::DSub),
            Opcode::DMul => Some(FloatOp::DMul),
            Opcode::DDiv => Some(FloatOp::DDiv),
            Opcode::DRem => Some(FloatOp::DRem),
            Opcode::DNeg => Some(FloatOp::DNeg),
            Opcode::I2F => Some(FloatOp::I2F),
            Opcode::I2D => Some(FloatOp::I2D),
            Opcode::L2F => Some(FloatOp::L2F),
            Opcode::L2D => Some(FloatOp::L2D),
            Opcode::F2I => Some(FloatOp::F2I),
            Opcode::F2L => Some(FloatOp::F2L),
            Opcode::F2D => Some(FloatOp::F2D),
            Opcode::D2I => Some(FloatOp::D2I),
            Opcode::D2L => Some(FloatOp::D2L),
            Opcode::D2F => Some(FloatOp::D2F),
            Opcode::FCmpL => Some(FloatOp::FCmpL),
            Opcode::FCmpG => Some(FloatOp::FCmpG),
            Opcode::DCmpL => Some(FloatOp::DCmpL),
            Opcode::DCmpG => Some(FloatOp::DCmpG),
            _ => None,
        }
    }

    /// Executes `op` on `frame` if it is an array load.
    pub fn execute_array_load(&self, frame: &mut StackFrame, op: &Opcode) -> (r: Option<JVMResult>)
        ensures
            dispatched(
                *old(frame),
                *final(frame),
                r,
                array_load_effect(*op, old(frame).state(), self.heap@),
            ),
    {
        match op {
            Opcode::IALoad => Some(self.iaload(frame)),
            Opcode::LALoad => Some(self.laload(frame)),
            Opcode::FALoad => Some(self.faload(frame)),
            Opcode::DALoad => Some(self.daload(frame)),
            Opcode::AALoad => Some(self.aaload(frame)),
            Opcode::BALoad => Some(self.baload(frame)),
            Opcode::CALoad => Some(self.caload(frame)),
            Opcode::SALoad => Some(self.saload(frame)),
            _ => None,
        }
    }

    /// Executes `op` on `frame` if it is an array store.
    pub fn execute_array_store(&mut self, frame: &mut StackFrame, op: &Opcode) -> (r: Option<
        JVMResult,
    >)
        ensures
            dispatched_store(*old(self), *final(self), *old(frame), *final(frame), r, *op),
    {
        match op {
            Opcode::IAStore => Some(self.iastore(frame)),
            Opcode::LAStore => Some(self.lastore(frame)),
            Opcode::FAStore => Some(self.fastore(frame)),
            Opcode::DAStore => Some(self.dastore(frame)),
            Opcode::AAStore => Some(self.aastore(frame)),
            Opcode::BAStore => Some(self.bastore(frame)),
            Opcode::CAStore => Some(self.castore(frame)),
            Opcode::SAStore => Some(self.sastore(frame)),
            _ => None,
        }
    }

    /// The request that `op` makes on `frame` if it is a floating-point
    /// instruction.
    pub fn execute_float(frame: &StackFrame, op: &Opcode) -> (r: Option<
        Result<FloatRequest, JVMError>,
    >)
        ensures
            r == float_effect(*op, frame.state()),
    {
        match op {
            Opcode::FAdd => Some(Self::fadd(frame)),
            Opcode::FSub => Some(Self::fsub(frame)),
            Opcode::FMul => Some(Self::fmul(frame)),
            Opcode::FDiv => Some(Self::fdiv(frame)),
            Opcode::FRem => Some(Self::frem(frame)),
            Opcode::FNeg => Some(Self::fneg(frame)),
            Opcode::DAdd => Some(Self::dadd(frame)),
            Opcode::DSub => Some(Self::dsub(frame)),
            Opcode::DMul => Some(Self::dmul(frame)),
            Opcode::DDiv => Some(Self::ddiv(frame)),
            Opcode::DRem => Some(Self::drem(frame)),
            Opcode::DNeg => Some(Self::dneg(frame)),
            Opcode::I2F => Some(Self::i2f(frame)),
            Opcode::I2D => Some(Self::i2d(frame)),
            Opcode::L2F => Some(Self::l2f(frame)),
            Opcode::L2D => Some(Self::l2d(frame)),
            Opcode::F2I => Some(Self::f2i(frame)),
            Opcode::F2L => Some(Self::f2l(frame)),
            Opcode::F2D => Some(Self::f2d(frame)),
            Opcode::D2I => Some(Self::d2i(frame)),
            Opcode::D2L => Some(Self::d2l(frame)),
            Opcode::D2F => Some(Self::d2f(frame)),
            Opcode::FCmpL => Some(Self::fcmpl(frame)),
            Opcode::FCmpG => Some(Self::fcmpg(frame)),
            Opcode::DCmpL => Some(Self::dcmpl(frame)),
            Opcode::DCmpG => Some(Self::dcmpg(frame)),
            _ => None,
        }
    }

    /// Executes `op` on `thread` if it is a return.
    pub fn execute_return(thread: &mut JThread, op: &Opcode) -> (r: Option<JVMResult>)
        ensures
            dispatched_return(*old(thread), *final(thread), r, *op),
    {
        match op {
            Opcode::IReturn => Some(Self::ireturn(thread)),
            Opcode::LReturn => Some(Self::lreturn(thread)),
            Opcode::FReturn => Some(Self::freturn(thread)),
            Opcode::DReturn => Some(Self::dreturn(thread)),
            Opcode::AReturn => Some(Self::areturn(thread)),
            Opcode::Return => Some(Self::return_op(thread)),
            _ => None,
        }
    }

    /// True for the instructions that the machine decodes but does not
    /// execute.
    pub fn unsupported(op: &Opcode) -> (r: bool)
        ensures
            r == is_unsupported(*op),
    {
        match op {
            Opcode::Jsr(_) => true,
            Opcode::Ret(_) => true,
            Opcode::JsrW(_) => true,
            Opcode::GetStatic(_) => true,
            Opcode::PutStatic(_) => true,
            Opcode::InvokeVirtual(_) => true,
            Opcode::InvokeStatic(_) => true,
            Opcode::InvokeInterface(_, _) => true,
            Opcode::InvokeDynamic(_) => true,
            Opcode::AThrow => true,
            Opcode::CheckCast(_) => true,
            Opcode::InstanceOf(_) => true,
            Opcode::MonitorEnter => true,
            Opcode::MonitorExit => true,
            Opcode::MultiANewArray(_, _) => true,
            Opcode::Breakpoint => true,
            _ => false,
        }
    }
}

} // verus!
