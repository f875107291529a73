//! What each instruction does, by opcode.
use crate::error::JVMError;
use crate::vm::effect::{
    branch, branch_on_ints, branch_on_null, branch_on_references, branch_on_zero, compare_longs,
    dup_one, dup_one_x1, dup_one_x2, dup_two, dup_two_x1, dup_two_x2, increment_local, int_binary,
    load_local, long_binary, lookup_switch, pop_one, pop_two, push_value, store_local, swap_two,
    table_switch, unary, FrameState, IntOp, Kind, Outcome, Relation, Unary,
};
use crate::vm::floats::{float_request, FloatOp, FloatRequest};
use crate::vm::heap_effect::{array_load, ArrayOp};
use crate::vm::jobject::JObject;
use crate::vm::jvalue::JValue;
use crate::vm::opcode::{Opcode, WideInstruction};
use vstd::prelude::*;

verus! {

/// What an instruction that pushes a constant that it carries does to the frame `f`; `None` for
/// any other instruction.
pub open spec fn constant_effect(op: Opcode, f: FrameState) -> Option<Result<Outcome, JVMError>> {
    match op {
        Opcode::Nop => Some(Ok(Outcome { stack: f.stack, locals: f.locals, jump: None })),
        Opcode::AConstNull => Some(push_value(f, JValue::Null)),
        Opcode::IConstM1 => Some(push_value(f, JValue::Int(-1i32))),
        Opcode::IConst0 => Some(push_value(f, JValue::Int(0i32))),
        Opcode::IConst1 => Some(push_value(f, JValue::Int(1i32))),
        Opcode::IConst2 => Some(push_value(f, JValue::Int(2i32))),
        Opcode::IConst3 => Some(push_value(f, JValue::Int(3i32))),
        Opcode::IConst4 => Some(push_value(f, JValue::Int(4i32))),
        Opcode::IConst5 => Some(push_value(f, JValue::Int(5i32))),
        Opcode::LConst0 => Some(push_value(f, JValue::Long(0i64))),
        Opcode::LConst1 => Some(push_value(f, JValue::Long(1i64))),
        Opcode::FConst0 => Some(push_value(f, JValue::Float(0x0000_0000u32))),
        Opcode::FConst1 => Some(push_value(f, JValue::Float(0x3F80_0000u32))),
        Opcode::FConst2 => Some(push_value(f, JValue::Float(0x4000_0000u32))),
        Opcode::DConst0 => Some(push_value(f, JValue::Double(0x0000_0000_0000_0000u64))),
        Opcode::DConst1 => Some(push_value(f, JValue::Double(0x3FF0_0000_0000_0000u64))),
        Opcode::BIPush(byte) => Some(push_value(f, JValue::Int(byte as i32))),
        Opcode::SIPush(short) => Some(push_value(f, JValue::Int(short as i32))),
        _ => None,
    }
}

/// What an instruction that pushes a local variable does to the frame `f`; `None` for
/// any other instruction.
pub open spec fn load_effect(op: Opcode, f: FrameState) -> Option<Result<Outcome, JVMError>> {
    match op {
        Opcode::ILoad(index) => Some(load_local(f, index as int, Kind::Int)),
        Opcode::ILoad0 => Some(load_local(f, 0, Kind::Int)),
        Opcode::ILoad1 => Some(load_local(f, 1, Kind::Int)),
        Opcode::ILoad2 => Some(load_local(f, 2, Kind::Int)),
        Opcode::ILoad3 => Some(load_local(f, 3, Kind::Int)),
        Opcode::Wide(WideInstruction::ILoad(index)) => Some(load_local(f, index as int, Kind::Int)),
        Opcode::LLoad(index) => Some(load_local(f, index as int, Kind::Long)),
        Opcode::LLoad0 => Some(load_local(f, 0, Kind::Long)),
        Opcode::LLoad1 => Some(load_local(f, 1, Kind::Long)),
        Opcode::LLoad2 => Some(load_local(f, 2, Kind::Long)),
        Opcode::LLoad3 => Some(load_local(f, 3, Kind::Long)),
        Opcode::Wide(WideInstruction::LLoad(index)) => Some(load_local(f, index as int, Kind::Long)),
        Opcode::FLoad(index) => Some(load_local(f, index as int, Kind::Float)),
        Opcode::FLoad0 => Some(load_local(f, 0, Kind::Float)),
        Opcode::FLoad1 => Some(load_local(f, 1, Kind::Float)),
        Opcode::FLoad2 => Some(load_local(f, 2, Kind::Float)),
        Opcode::FLoad3 => Some(load_local(f, 3, Kind::Float)),
        Opcode::Wide(WideInstruction::FLoad(index)) => Some(load_local(f, index as int, Kind::Float)),
        Opcode::DLoad(index) => Some(load_local(f, index as int, Kind::Double)),
        Opcode::DLoad0 => Some(load_local(f, 0, Kind::Double)),
        Opcode::DLoad1 => Some(load_local(f, 1, Kind::Double)),
        Opcode::DLoad2 => Some(load_local(f, 2, Kind::Double)),
        Opcode::DLoad3 => Some(load_local(f, 3, Kind::Double)),
        Opcode::Wide(WideInstruction::DLoad(index)) => Some(load_local(f, index as int, Kind::Double)),
        Opcode::ALoad(index) => Some(load_local(f, index as int, Kind::Reference)),
        Opcode::ALoad0 => Some(load_local(f, 0, Kind::Reference)),
        Opcode::ALoad1 => Some(load_local(f, 1, Kind::Reference)),
        Opcode::ALoad2 => Some(load_local(f, 2, Kind::Reference)),
        Opcode::ALoad3 => Some(load_local(f, 3, Kind::Reference)),
        Opcode::Wide(WideInstruction::ALoad(index)) => Some(load_local(f, index as int, Kind::Reference)),
        _ => None,
    }
}

/// What an instruction that pops into a local variable does to the frame `f`; `None` for
/// any other instruction.
pub open spec fn store_effect(op: Opcode, f: FrameState) -> Option<Result<Outcome, JVMError>> {
    match op {
        Opcode::IStore(index) => Some(store_local(f, index as int, Kind::Int)),
        Opcode::IStore0 => Some(store_local(f, 0, Kind::Int)),
        Opcode::IStore1 => Some(store_local(f, 1, Kind::Int)),
        Opcode::IStore2 => Some(store_local(f, 2, Kind::Int)),
        Opcode::IStore3 => Some(store_local(f, 3, Kind::Int)),
        Opcode::Wide(WideInstruction::IStore(index)) => Some(store_local(f, index as int, Kind::Int)),
        Opcode::LStore(index) => Some(store_local(f, index as int, Kind::Long)),
        Opcode::LStore0 => Some(store_local(f, 0, Kind::Long)),
        Opcode::LStore1 => Some(store_local(f, 1, Kind::Long)),
        Opcode::LStore2 => Some(store_local(f, 2, Kind::Long)),
        Opcode::LStore3 => Some(store_local(f, 3, Kind::Long)),
        Opcode::Wide(WideInstruction::LStore(index)) => Some(store_local(f, index as int, Kind::Long)),
        Opcode::FStore(index) => Some(store_local(f, index as int, Kind::Float)),
        Opcode::FStore0 => Some(store_local(f, 0, Kind::Float)),
        Opcode::FStore1 => Some(store_local(f, 1, Kind::Float)),
        Opcode::FStore2 => Some(store_local(f, 2, Kind::Float)),
        Opcode::FStore3 => Some(store_local(f, 3, Kind::Float)),
        Opcode::Wide(WideInstruction::FStore(index)) => Some(store_local(f, index as int, Kind::Float)),
        Opcode::DStore(index) => Some(store_local(f, index as int, Kind::Double)),
        Opcode::DStore0 => Some(store_local(f, 0, Kind::Double)),
        Opcode::DStore1 => Some(store_local(f, 1, Kind::Double)),
        Opcode::DStore2 => Some(store_local(f, 2, Kind::Double)),
        Opcode::DStore3 => Some(store_local(f, 3, Kind::Double)),
        Opcode::Wide(WideInstruction::DStore(index)) => Some(store_local(f, index as int, Kind::Double)),
        Opcode::AStore(index) => Some(store_local(f, index as int, Kind::Reference)),
        Opcode::AStore0 => Some(store_local(f, 0, Kind::Reference)),
        Opcode::AStore1 => Some(store_local(f, 1, Kind::Reference)),
        Opcode::AStore2 => Some(store_local(f, 2, Kind::Reference)),
        Opcode::AStore3 => Some(store_local(f, 3, Kind::Reference)),
        Opcode::Wide(WideInstruction::AStore(index)) => Some(store_local(f, index as int, Kind::Reference)),
        _ => None,
    }
}

/// What an instruction that shuffles the operand stack does to the frame `f`; `None` for
/// any other instruction.
pub open spec fn stack_effect(op: Opcode, f: FrameState) -> Option<Result<Outcome, JVMError>> {
    match op {
        Opcode::Pop => Some(pop_one(f)),
        Opcode::Pop2 => Some(pop_two(f)),
        Opcode::Dup => Some(dup_one(f)),
        Opcode::DupX1 => Some(dup_one_x1(f)),
        Opcode::DupX2 => Some(dup_one_x2(f)),
        Opcode::Dup2 => Some(dup_two(f)),
        Opcode::Dup2X1 => Some(dup_two_x1(f)),
        Opcode::Dup2X2 => Some(dup_two_x2(f)),
        Opcode::Swap => Some(swap_two(f)),
        _ => None,
    }
}

/// What an instruction that does integer arithmetic does to the frame `f`; `None` for
/// any other instruction.
pub open spec fn math_effect(op: Opcode, f: FrameState) -> Option<Result<Outcome, JVMError>> {
    match op {
        Opcode::IAdd => Some(int_binary(f, IntOp::Add)),
        Opcode::LAdd => Some(long_binary(f, IntOp::Add)),
        Opcode::ISub => Some(int_binary(f, IntOp::Sub)),
        Opcode::LSub => Some(long_binary(f, IntOp::Sub)),
        Opcode::IMul => Some(int_binary(f, IntOp::Mul)),
        Opcode::LMul => Some(long_binary(f, IntOp::Mul)),
        Opcode::IDiv => Some(int_binary(f, IntOp::Div)),
        Opcode::LDiv => Some(long_binary(f, IntOp::Div)),
        Opcode::IRem => Some(int_binary(f, IntOp::Rem)),
        Opcode::LRem => Some(long_binary(f, IntOp::Rem)),
        Opcode::IShl => Some(int_binary(f, IntOp::Shl)),
        Opcode::LShl => Some(long_binary(f, IntOp::Shl)),
        Opcode::IShr => Some(int_binary(f, IntOp::Shr)),
        Opcode::LShr => Some(long_binary(f, IntOp::Shr)),
        Opcode::IUShr => Some(int_binary(f, IntOp::UShr)),
        Opcode::LUshr => Some(long_binary(f, IntOp::UShr)),
        Opcode::IAnd => Some(int_binary(f, IntOp::And)),
        Opcode::LAnd => Some(long_binary(f, IntOp::And)),
        Opcode::IOr => Some(int_binary(f, IntOp::Or)),
        Opcode::LOr => Some(long_binary(f, IntOp::Or)),
        Opcode::IXor => Some(int_binary(f, IntOp::Xor)),
        Opcode::LXor => Some(long_binary(f, IntOp::Xor)),
        Opcode::INeg => Some(unary(f, Unary::INeg)),
        Opcode::LNeg => Some(unary(f, Unary::LNeg)),
        Opcode::IInc(index, constant) => Some(increment_local(f, index as int, constant as int)),
        Opcode::Wide(WideInstruction::IInc(index, constant)) => Some(increment_local(f, index as int, constant as int)),
        _ => None,
    }
}

/// What an instruction that converts between integer types does to the frame `f`; `None` for
/// any other instruction.
pub open spec fn conversion_effect(op: Opcode, f: FrameState) -> Option<Result<Outcome, JVMError>> {
    match op {
        Opcode::I2L => Some(unary(f, Unary::I2L)),
        Opcode::L2I => Some(unary(f, Unary::L2I)),
        Opcode::I2B => Some(unary(f, Unary::I2B)),
        Opcode::I2C => Some(unary(f, Unary::I2C)),
        Opcode::I2S => Some(unary(f, Unary::I2S)),
        _ => None,
    }
}

/// What an instruction that compares two longs does to the frame `f`; `None` for
/// any other instruction.
pub open spec fn comparison_effect(op: Opcode, f: FrameState) -> Option<Result<Outcome, JVMError>> {
    match op {
        Opcode::LCmp => Some(compare_longs(f)),
        _ => None,
    }
}

/// What an instruction that branches on a condition does to the frame `f`; `None` for
/// any other instruction.
pub open spec fn branch_effect(op: Opcode, f: FrameState) -> Option<Result<Outcome, JVMError>> {
    match op {
        Opcode::IfEq(offset) => Some(branch_on_zero(f, Relation::Eq, offset)),
        Opcode::IfNe(offset) => Some(branch_on_zero(f, Relation::Ne, offset)),
        Opcode::IfLt(offset) => Some(branch_on_zero(f, Relation::Lt, offset)),
        Opcode::IfGe(offset) => Some(branch_on_zero(f, Relation::Ge, offset)),
        Opcode::IfGt(offset) => Some(branch_on_zero(f, Relation::Gt, offset)),
        Opcode::IfLe(offset) => Some(branch_on_zero(f, Relation::Le, offset)),
        Opcode::IfICmpEq(offset) => Some(branch_on_ints(f, Relation::Eq, offset)),
        Opcode::IfICmpNe(offset) => Some(branch_on_ints(f, Relation::Ne, offset)),
        Opcode::IfICmpLt(offset) => Some(branch_on_ints(f, Relation::Lt, offset)),
        Opcode::IfICmpGe(offset) => Some(branch_on_ints(f, Relation::Ge, offset)),
        Opcode::IfICmpGt(offset) => Some(branch_on_ints(f, Relation::Gt, offset)),
        Opcode::IfICmpLe(offset) => Some(branch_on_ints(f, Relation::Le, offset)),
        Opcode::IfACmpEq(offset) => Some(branch_on_references(f, true, offset)),
        Opcode::IfACmpNe(offset) => Some(branch_on_references(f, false, offset)),
        Opcode::IfNull(offset) => Some(branch_on_null(f, true, offset)),
        Opcode::IfNonNull(offset) => Some(branch_on_null(f, false, offset)),
        _ => None,
    }
}

/// What an instruction that branches without condition or by a table does to the frame `f`; `None` for
/// any other instruction.
pub open spec fn control_effect(op: Opcode, f: FrameState) -> Option<Result<Outcome, JVMError>> {
    match op {
        Opcode::Goto(offset) => Some(branch(f, f.stack, true, offset as int)),
        Opcode::GotoW(offset) => Some(branch(f, f.stack, true, offset as int)),
        Opcode::TableSwitch { default_offset, low, high, jump_offsets } => Some(table_switch(f, default_offset, low, high, jump_offsets@)),
        Opcode::LookupSwitch { default_offset, npairs, match_offsets } => Some(lookup_switch(f, default_offset, match_offsets@)),
        _ => None,
    }
}

/// What an instruction that works on the executing frame alone does to the
/// frame `f`; `None` for any other instruction.
pub open spec fn effect(op: Opcode, f: FrameState) -> Option<Result<Outcome, JVMError>> {
    if constant_effect(op, f) is Some {
        constant_effect(op, f)
    } else if load_effect(op, f) is Some {
        load_effect(op, f)
    } else if store_effect(op, f) is Some {
        store_effect(op, f)
    } else if stack_effect(op, f) is Some {
        stack_effect(op, f)
    } else if math_effect(op, f) is Some {
        math_effect(op, f)
    } else if conversion_effect(op, f) is Some {
        conversion_effect(op, f)
    } else if comparison_effect(op, f) is Some {
        comparison_effect(op, f)
    } else if branch_effect(op, f) is Some {
        branch_effect(op, f)
    } else {
        control_effect(op, f)
    }
}

/// The floating-point instruction that `op` is, if it is one.
pub open spec fn float_op(op: Opcode) -> Option<FloatOp> {
    match op {
        Opcode::FAdd => Some(FloatOp::FAdd),
        Opcode::FSub => Some(FloatOp::FSub),
        Opcode::FMul => Some(FloatOp::FMul),
        Opcode::FDiv => Some(FloatOp::FDiv),
        Opcode::FRem => Some(FloatOp::FRem),
        Opcode::FNeg => Some(FloatOp::FNeg),
        Opcode::DAdd => Some(FloatOp::DAdd),
        Opcode::DSub => Some(FloatOp::DSub),
        Opcode::DMul => Some(FloatOp::DMul),
        Opcode::DDiv => Some(FloatOp::DDiv),
        Opcode::DRem => Some(FloatOp::DRem),
        Opcode::DNeg => Some(FloatOp::DNeg),
        Opcode::I2F => Some(FloatOp::I2F),
        Opcode::I2D => Some(FloatOp::I2D),
        Opcode::L2F => Some(FloatOp::L2F),
        Opcode::L2D => Some(FloatOp::L2D),
        Opcode::F2I => Some(FloatOp::F2I),
        Opcode::F2L => Some(FloatOp::F2L),
        Opcode::F2D => Some(FloatOp::F2D),
        Opcode::D2I => Some(FloatOp::D2I),
        Opcode::D2L => Some(FloatOp::D2L),
        Opcode::D2F => Some(FloatOp::D2F),
        Opcode::FCmpL => Some(FloatOp::FCmpL),
        Opcode::FCmpG => Some(FloatOp::FCmpG),
        Opcode::DCmpL => Some(FloatOp::DCmpL),
        Opcode::DCmpG => Some(FloatOp::DCmpG),
        _ => None,
    }
}

/// The family of the array load that `op` is, if it is one.
pub open spec fn array_load_op(op: Opcode) -> Option<ArrayOp> {
    match op {
        Opcode::IALoad => Some(ArrayOp::Int),
        Opcode::LALoad => Some(ArrayOp::Long),
        Opcode::FALoad => Some(ArrayOp::Float),
        Opcode::DALoad => Some(ArrayOp::Double),
        Opcode::AALoad => Some(ArrayOp::Reference),
        Opcode::BALoad => Some(ArrayOp::Byte),
        Opcode::CALoad => Some(ArrayOp::Char),
        Opcode::SALoad => Some(ArrayOp::Short),
        _ => None,
    }
}

/// The family of the array store that `op` is, if it is one.
pub open spec fn array_store_op(op: Opcode) -> Option<ArrayOp> {
    match op {
        Opcode::IAStore => Some(ArrayOp::Int),
        Opcode::LAStore => Some(ArrayOp::Long),
        Opcode::FAStore => Some(ArrayOp::Float),
        Opcode::DAStore => Some(ArrayOp::Double),
        Opcode::AAStore => Some(ArrayOp::Reference),
        Opcode::BAStore => Some(ArrayOp::Byte),
        Opcode::CAStore => Some(ArrayOp::Char),
        Opcode::SAStore => Some(ArrayOp::Short),
        _ => None,
    }
}

/// What an array load does to the frame `f`, where `heap` holds the
/// objects; `None` for any other instruction.
pub open spec fn array_load_effect(op: Opcode, f: FrameState, heap: Seq<JObject>) -> Option<
    Result<Outcome, JVMError>,
> {
    match array_load_op(op) {
        Some(family) => Some(array_load(f, heap, family)),
        None => None,
    }
}

/// The request that a floating-point instruction makes on the frame `f`;
/// `None` for any other instruction.
pub open spec fn float_effect(op: Opcode, f: FrameState) -> Option<Result<FloatRequest, JVMError>> {
    match float_op(op) {
        Some(float) => Some(float_request(f, float)),
        None => None,
    }
}

/// The kind of the value that the return `op` hands to the caller, with
/// `Some(None)` for the return without value; `None` when `op` is no
/// return.
pub open spec fn return_kind(op: Opcode) -> Option<Option<Kind>> {
    match op {
        Opcode::IReturn => Some(Some(Kind::Int)),
        Opcode::LReturn => Some(Some(Kind::Long)),
        Opcode::FReturn => Some(Some(Kind::Float)),
        Opcode::DReturn => Some(Some(Kind::Double)),
        Opcode::AReturn => Some(Some(Kind::Reference)),
        Opcode::Return => Some(None),
        _ => None,
    }
}

/// True for the instructions that the machine decodes but does not
/// execute.
pub open spec fn is_unsupported(op: Opcode) -> bool {
    match op {
        Opcode::Jsr(_) => true,
        Opcode::Ret(_) => true,
        Opcode::JsrW(_) => true,
        Opcode::GetStatic(_) => true,
        Opcode::PutStatic(_) => true,
        Opcode::InvokeVirtual(_) => true,
        Opcode::InvokeStatic(_) => true,
        Opcode::InvokeInterface(_, _) => true,
        Opcode::InvokeDynamic(_) => true,
        Opcode::AThrow => true,
        Opcode::CheckCast(_) => true,
        Opcode::InstanceOf(_) => true,
        Opcode::MonitorEnter => true,
        Opcode::MonitorExit => true,
        Opcode::MultiANewArray(_, _) => true,
        Opcode::Breakpoint => true,
        _ => false,
    }
}

} // verus!
