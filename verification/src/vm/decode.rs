//! Decoding of one instruction from a method's code buffer.
use crate::bytes::{
    be_u16, be_u32, get_i16, get_i32, get_i8, get_u16, get_u8, i16_bytes, i32_bytes, i8_bytes,
    lemma_u16_bytes, lemma_u32_bytes, u16_bytes,
};
use crate::error::{decode_error, decode_fault, DecodeErrorKind, JVMError};
use crate::vm::jvm::JVM;
use crate::vm::opcode::{
    be_i32, encodes, instruction_len, keys_ascend, lookup_switch_len, padding, table_switch_len,
    operand_len, wide_len, AType, Opcode, WideInstruction,
};
use vstd::prelude::*;

verus! {

/// What decoding the instruction at `pc` must return: the instruction and
/// its length where one starts there, and else the reason why none does, as
/// a decode error at `pc`.
pub open spec fn decodes_to(code: Seq<u8>, pc: int, r: Result<(Opcode, usize), JVMError>) -> bool {
    match r {
        Ok((op, len)) => instruction_len(code, pc) == Ok::<int, DecodeErrorKind>(len as int)
            && encodes(code, pc, op, len as int),
        Err(e) => instruction_len(code, pc) is Err && e == decode_fault(
            instruction_len(code, pc)->Err_0,
            pc,
        ),
    }
}

/// The unsigned byte operand of the instruction at `pc`.
fn operand_u8(code: &[u8], pc: usize) -> (r: Result<u8, JVMError>)
    requires
        pc < code@.len(),
    ensures
        pc + 2 <= code@.len() ==> r is Ok && code@.subrange(pc + 1, pc + 2) == seq![r->Ok_0]
            && code@[pc + 1] == r->Ok_0,
        pc + 2 > code@.len() ==> r == Err::<u8, JVMError>(
            decode_fault(DecodeErrorKind::UnexpectedEof, pc as int),
        ),
{
    if code.len() - pc < 2 {
        return Err(decode_error(DecodeErrorKind::UnexpectedEof, pc));
    }
    let v = get_u8(code, pc + 1).unwrap();
    assert(code@.subrange(pc + 1, pc + 2) =~= seq![v]);
    Ok(v)
}

/// The signed byte operand of the instruction at `pc`.
fn operand_i8(code: &[u8], pc: usize) -> (r: Result<i8, JVMError>)
    requires
        pc < code@.len(),
    ensures
        pc + 2 <= code@.len() ==> r is Ok && code@.subrange(pc + 1, pc + 2) == i8_bytes(r->Ok_0),
        pc + 2 > code@.len() ==> r == Err::<i8, JVMError>(
            decode_fault(DecodeErrorKind::UnexpectedEof, pc as int),
        ),
{
    if code.len() - pc < 2 {
        return Err(decode_error(DecodeErrorKind::UnexpectedEof, pc));
    }
    let v = get_i8(code, pc + 1).unwrap();
    assert(code@.subrange(pc + 1, pc + 2) =~= i8_bytes(v));
    Ok(v)
}

/// The unsigned two-byte operand of the instruction at `pc`.
fn operand_u16(code: &[u8], pc: usize) -> (r: Result<u16, JVMError>)
    requires
        pc < code@.len(),
    ensures
        pc + 3 <= code@.len() ==> r is Ok && code@.subrange(pc + 1, pc + 3) == u16_bytes(
            r->Ok_0 as int,
        ),
        pc + 3 > code@.len() ==> r == Err::<u16, JVMError>(
            decode_fault(DecodeErrorKind::UnexpectedEof, pc as int),
        ),
{
    if code.len() - pc < 3 {
        return Err(decode_error(DecodeErrorKind::UnexpectedEof, pc));
    }
    let v = get_u16(code, pc + 1).unwrap();
    proof {
        lemma_u16_bytes(code@, pc + 1);
    }
    Ok(v)
}

/// The signed two-byte operand of the instruction at `pc`.
fn operand_i16(code: &[u8], pc: usize) -> (r: Result<i16, JVMError>)
    requires
        pc < code@.len(),
    ensures
        pc + 3 <= code@.len() ==> r is Ok && code@.subrange(pc + 1, pc + 3) == i16_bytes(r->Ok_0),
        pc + 3 > code@.len() ==> r == Err::<i16, JVMError>(
            decode_fault(DecodeErrorKind::UnexpectedEof, pc as int),
        ),
{
    if code.len() - pc < 3 {
        return Err(decode_error(DecodeErrorKind::UnexpectedEof, pc));
    }
    let v = get_i16(code, pc + 1).unwrap();
    proof {
        lemma_u16_bytes(code@, pc + 1);
    }
    Ok(v)
}

/// The signed four-byte operand of the instruction at `pc`.
fn operand_i32(code: &[u8], pc: usize) -> (r: Result<i32, JVMError>)
    requires
        pc < code@.len(),
    ensures
        pc + 5 <= code@.len() ==> r is Ok && code@.subrange(pc + 1, pc + 5) == i32_bytes(r->Ok_0),
        pc + 5 > code@.len() ==> r == Err::<i32, JVMError>(
            decode_fault(DecodeErrorKind::UnexpectedEof, pc as int),
        ),
{
    if code.len() - pc < 5 {
        return Err(decode_error(DecodeErrorKind::UnexpectedEof, pc));
    }
    let v = get_i32(code, pc + 1).unwrap();
    proof {
        lemma_u32_bytes(code@, pc + 1);
    }
    Ok(v)
}

/// The operands of the `iinc` at `pc`: a local index and a signed constant.
fn operand_iinc(code: &[u8], pc: usize) -> (r: Result<(u8, i8), JVMError>)
    requires
        pc < code@.len(),
    ensures
        pc + 3 <= code@.len() ==> r is Ok && code@.subrange(pc + 1, pc + 3) == seq![r->Ok_0.0]
            + i8_bytes(r->Ok_0.1),
        pc + 3 > code@.len() ==> r == Err::<(u8, i8), JVMError>(
            decode_fault(DecodeErrorKind::UnexpectedEof, pc as int),
        ),
{
    if code.len() - pc < 3 {
        return Err(decode_error(DecodeErrorKind::UnexpectedEof, pc));
    }
    let index = get_u8(code, pc + 1).unwrap();
    let constant = get_i8(code, pc + 2).unwrap();
    assert(code@.subrange(pc + 1, pc + 3) =~= seq![index] + i8_bytes(constant));
    Ok((index, constant))
}

/// The operands of the `invokeinterface` at `pc`: a pool index, a count and
/// a byte that must be zero.
fn operand_interface(code: &[u8], pc: usize) -> (r: Result<(u16, u8), JVMError>)
    requires
        pc < code@.len(),
        code@[pc as int] == 0xB9,
    ensures
        r is Ok ==> instruction_len(code@, pc as int) == Ok::<int, DecodeErrorKind>(5)
            && code@.subrange(pc + 1, pc + 5) == u16_bytes(r->Ok_0.0 as int) + seq![
            r->Ok_0.1,
            0u8,
        ],
        r is Err ==> instruction_len(code@, pc as int) is Err && r->Err_0 == decode_fault(
            instruction_len(code@, pc as int)->Err_0,
            pc as int,
        ),
{
    if code.len() - pc < 5 {
        return Err(decode_error(DecodeErrorKind::UnexpectedEof, pc));
    }
    let index = get_u16(code, pc + 1).unwrap();
    let count = get_u8(code, pc + 3).unwrap();
    let zero = get_u8(code, pc + 4).unwrap();
    if zero != 0 {
        Err(decode_error(DecodeErrorKind::InvalidOperand, pc))
    } else {
        proof {
            lemma_u16_bytes(code@, pc + 1);
            assert(code@.subrange(pc + 1, pc + 5) =~= code@.subrange(pc + 1, pc + 3) + seq![
                count,
                0u8,
            ]);
        }
        Ok((index, count))
    }
}

/// The operands of the `invokedynamic` at `pc`: a pool index and two bytes
/// that must be zero.
fn operand_dynamic(code: &[u8], pc: usize) -> (r: Result<u16, JVMError>)
    requires
        pc < code@.len(),
        code@[pc as int] == 0xBA,
    ensures
        r is Ok ==> instruction_len(code@, pc as int) == Ok::<int, DecodeErrorKind>(5)
            && code@.subrange(pc + 1, pc + 5) == u16_bytes(r->Ok_0 as int) + seq![0u8, 0u8],
        r is Err ==> instruction_len(code@, pc as int) is Err && r->Err_0 == decode_fault(
            instruction_len(code@, pc as int)->Err_0,
            pc as int,
        ),
{
    if code.len() - pc < 5 {
        return Err(decode_error(DecodeErrorKind::UnexpectedEof, pc));
    }
    let index = get_u16(code, pc + 1).unwrap();
    let zero1 = get_u8(code, pc + 3).unwrap();
    let zero2 = get_u8(code, pc + 4).unwrap();
    if zero1 != 0 || zero2 != 0 {
        Err(decode_error(DecodeErrorKind::InvalidOperand, pc))
    } else {
        proof {
            lemma_u16_bytes(code@, pc + 1);
            assert(code@.subrange(pc + 1, pc + 5) =~= code@.subrange(pc + 1, pc + 3) + seq![
                0u8,
                0u8,
            ]);
        }
        Ok(index)
    }
}

/// The operand of the `newarray` at `pc`: a primitive element type.
fn operand_atype(code: &[u8], pc: usize) -> (r: Result<AType, JVMError>)
    requires
        pc < code@.len(),
        code@[pc as int] == 0xBC,
    ensures
        r is Ok ==> instruction_len(code@, pc as int) == Ok::<int, DecodeErrorKind>(2)
            && code@.subrange(pc + 1, pc + 2) == seq![r->Ok_0.spec_code()],
        r is Err ==> instruction_len(code@, pc as int) is Err && r->Err_0 == decode_fault(
            instruction_len(code@, pc as int)->Err_0,
            pc as int,
        ),
{
    if code.len() - pc < 2 {
        return Err(decode_error(DecodeErrorKind::UnexpectedEof, pc));
    }
    let b = get_u8(code, pc + 1).unwrap();
    match AType::try_from_primitive(b) {
        Some(ty) => {
            assert(code@.subrange(pc + 1, pc + 2) =~= seq![ty.spec_code()]);
            Ok(ty)
        },
        None => Err(decode_error(DecodeErrorKind::InvalidArrayType, pc)),
    }
}

/// The operands of the `multianewarray` at `pc`: a pool index and a number
/// of dimensions.
fn operand_multi(code: &[u8], pc: usize) -> (r: Result<(u16, u8), JVMError>)
    requires
        pc < code@.len(),
    ensures
        pc + 4 <= code@.len() ==> r is Ok && code@.subrange(pc + 1, pc + 4) == u16_bytes(
            r->Ok_0.0 as int,
        ) + seq![r->Ok_0.1],
        pc + 4 > code@.len() ==> r == Err::<(u16, u8), JVMError>(
            decode_fault(DecodeErrorKind::UnexpectedEof, pc as int),
        ),
{
    if code.len() - pc < 4 {
        return Err(decode_error(DecodeErrorKind::UnexpectedEof, pc));
    }
    let index = get_u16(code, pc + 1).unwrap();
    let dimensions = get_u8(code, pc + 3).unwrap();
    proof {
        lemma_u16_bytes(code@, pc + 1);
        assert(code@.subrange(pc + 1, pc + 4) =~= code@.subrange(pc + 1, pc + 3) + seq![
            dimensions,
        ]);
    }
    Ok((index, dimensions))
}

/// The instruction behind the `wide` prefix at `pc`.
fn parse_wide(code: &[u8], pc: usize) -> (r: Result<(Opcode, usize), JVMError>)
    requires
        pc < code@.len(),
        code@[pc as int] == 0xC4,
    ensures
        decodes_to(code@, pc as int, r),
{
    reveal(encodes);
    let rest: usize = code.len() - pc;
    if rest < 2 {
        return Err(decode_error(DecodeErrorKind::UnexpectedEof, pc));
    }
    let b = get_u8(code, pc + 1).unwrap();
    if b == 0x84 {
        if rest < 6 {
            return Err(decode_error(DecodeErrorKind::UnexpectedEof, pc));
        }
        let index = get_u16(code, pc + 2).unwrap();
        let constant = get_i16(code, pc + 4).unwrap();
        proof {
            lemma_u16_bytes(code@, pc + 2);
            lemma_u16_bytes(code@, pc + 4);
            assert(code@.subrange(pc + 1, pc + 6) =~= seq![0x84u8] + u16_bytes(index as int)
                + i16_bytes(constant));
        }
        Ok((Opcode::Wide(WideInstruction::IInc(index, constant)), 6))
    } else if (0x15 <= b && b <= 0x19) || (0x36 <= b && b <= 0x3A) {
        if rest < 4 {
            return Err(decode_error(DecodeErrorKind::UnexpectedEof, pc));
        }
        let index = get_u16(code, pc + 2).unwrap();
        let instr = match b {
            0x15 => WideInstruction::ILoad(index),
            0x16 => WideInstruction::LLoad(index),
            0x17 => WideInstruction::FLoad(index),
            0x18 => WideInstruction::DLoad(index),
            0x19 => WideInstruction::ALoad(index),
            0x36 => WideInstruction::IStore(index),
            0x37 => WideInstruction::LStore(index),
            0x38 => WideInstruction::FStore(index),
            0x39 => WideInstruction::DStore(index),
            _ => WideInstruction::AStore(index),
        };
        proof {
            lemma_u16_bytes(code@, pc + 2);
            assert(code@.subrange(pc + 1, pc + 4) =~= seq![b] + u16_bytes(index as int));
        }
        Ok((Opcode::Wide(instr), 4))
    } else {
        Err(decode_error(DecodeErrorKind::InvalidWideTarget, pc))
    }
}

/// The number of padding bytes behind the opcode byte of a switch at `pc`.
fn switch_padding(pc: usize) -> (pad: usize)
    requires
        pc < usize::MAX,
    ensures
        pad == padding(pc as int),
        pad <= 3,
{
    (4 - (pc + 1) % 4) % 4
}

/// The `tableswitch` at `pc`.
fn parse_table_switch(code: &[u8], pc: usize) -> (r: Result<(Opcode, usize), JVMError>)
    requires
        pc < code@.len(),
        code@[pc as int] == 0xAA,
    ensures
        decodes_to(code@, pc as int, r),
{
    reveal(encodes);
    let rest: usize = code.len() - (pc + 1);
    let pad = switch_padding(pc);
    if rest < pad + 12 {
        return Err(decode_error(DecodeErrorKind::UnexpectedEof, pc));
    }
    let base: usize = pc + 1 + pad;
    let default_offset = get_i32(code, base).unwrap();
    let low = get_i32(code, base + 4).unwrap();
    let high = get_i32(code, base + 8).unwrap();
    if low > high {
        return Err(decode_error(DecodeErrorKind::InvalidSwitch, pc));
    }
    let n: u64 = (high as i64 - low as i64 + 1) as u64;
    let avail: u64 = (rest - (pad + 12)) as u64;
    if 4 * n > avail {
        return Err(decode_error(DecodeErrorKind::UnexpectedEof, pc));
    }
    let count: usize = n as usize;
    let mut jump_offsets: Vec<i32> = Vec::new();
    let mut k: usize = 0;
    while k < count
        invariant
            k <= count,
            base + 12 + 4 * count <= code@.len() <= usize::MAX,
            jump_offsets@.len() == k,
            forall|j: int|
                0 <= j < k ==> #[trigger] jump_offsets@[j] == be_i32(code@, base + 12 + 4 * j),
        decreases count - k,
    {
        let v = get_i32(code, base + 12 + 4 * k).unwrap();
        jump_offsets.push(v);
        k = k + 1;
    }
    let len: usize = 1 + pad + 12 + 4 * count;
    Ok((Opcode::TableSwitch { default_offset, low, high, jump_offsets }, len))
}

/// The `lookupswitch` at `pc`.
fn parse_lookup_switch(code: &[u8], pc: usize) -> (r: Result<(Opcode, usize), JVMError>)
    requires
        pc < code@.len(),
        code@[pc as int] == 0xAB,
    ensures
        decodes_to(code@, pc as int, r),
{
    reveal(encodes);
    let rest: usize = code.len() - (pc + 1);
    let pad = switch_padding(pc);
    if rest < pad + 8 {
        return Err(decode_error(DecodeErrorKind::UnexpectedEof, pc));
    }
    let base: usize = pc + 1 + pad;
    let default_offset = get_i32(code, base).unwrap();
    let npairs = get_i32(code, base + 4).unwrap();
    if npairs < 0 {
        return Err(decode_error(DecodeErrorKind::InvalidSwitch, pc));
    }
    let n: u64 = npairs as u64;
    let avail: u64 = (rest - (pad + 8)) as u64;
    if 8 * n > avail {
        return Err(decode_error(DecodeErrorKind::UnexpectedEof, pc));
    }
    let count: usize = n as usize;
    let mut match_offsets: Vec<(i32, i32)> = Vec::new();
    let mut k: usize = 0;
    while k < count
        invariant
            k <= count,
            count == npairs,
            pc < code@.len(),
            code@[pc as int] == 0xAB,
            base == pc + 1 + padding(pc as int),
            be_i32(code@, base + 4) == npairs,
            base + 8 + 8 * count <= code@.len() <= usize::MAX,
            match_offsets@.len() == k,
            forall|j: int|
                0 <= j < k ==> (#[trigger] match_offsets@[j]).0 == be_i32(code@, base + 8 + 8 * j)
                    && match_offsets@[j].1 == be_i32(code@, base + 12 + 8 * j),
            keys_ascend(code@, base + 8, k as int),
        decreases count - k,
    {
        let key = get_i32(code, base + 8 + 8 * k).unwrap();
        let offset = get_i32(code, base + 12 + 8 * k).unwrap();
        if k > 0 {
            let previous = match_offsets[k - 1].0;
            if previous >= key {
                assert(!keys_ascend(code@, base + 8, count as int)) by {
                    assert(be_i32(code@, base + 8 + 8 * (k - 1)) >= be_i32(
                        code@,
                        base + 8 + 8 * k,
                    ));
                }
                return Err(decode_error(DecodeErrorKind::InvalidSwitch, pc));
            }
        }
        match_offsets.push((key, offset));
        k = k + 1;
    }
    let len: usize = 1 + pad + 8 + 8 * count;
    Ok((Opcode::LookupSwitch { default_offset, npairs, match_offsets }, len))
}

/// The number of operand bytes of the instruction with opcode byte `b`.
fn operand_size(b: u8) -> (r: Option<usize>)
    ensures
        r is Some <==> operand_len(b) is Some,
        r is Some ==> r->0 as int == operand_len(b)->0,
{
    if b == 0xAA || b == 0xAB || b == 0xC4 || b >= 0xCB {
        None
    } else if b == 0x10 || b == 0x12 || (0x15 <= b && b <= 0x19) || (0x36 <= b && b <= 0x3A) || b
        == 0xA9 || b == 0xBC {
        Some(1)
    } else if b == 0x11 || b == 0x13 || b == 0x14 || b == 0x84 || (0x99 <= b && b <= 0xA8) || (
    0xB2 <= b && b <= 0xB8) || b == 0xBB || b == 0xBD || b == 0xC0 || b == 0xC1 || b == 0xC6 || b
        == 0xC7 {
        Some(2)
    } else if b == 0xC5 {
        Some(3)
    } else if b == 0xB9 || b == 0xBA || b == 0xC8 || b == 0xC9 {
        Some(4)
    } else {
        Some(0)
    }
}

/// The instruction without operands whose opcode byte is `b`.
fn plain(b: u8) -> (op: Opcode)
    requires
        operand_len(b) == Some(0int),
    ensures
        op.byte() == b,
        op.operands() == Seq::<u8>::empty(),
{
    match b {
        0x01 => Opcode::AConstNull,
        0x02 => Opcode::IConstM1,
        0x03 => Opcode::IConst0,
        0x04 => Opcode::IConst1,
        0x05 => Opcode::IConst2,
        0x06 => Opcode::IConst3,
        0x07 => Opcode::IConst4,
        0x08 => Opcode::IConst5,
        0x09 => Opcode::LConst0,
        0x0a => Opcode::LConst1,
        0x0b => Opcode::FConst0,
        0x0c => Opcode::FConst1,
        0x0d => Opcode::FConst2,
        0x0e => Opcode::DConst0,
        0x0f => Opcode::DConst1,
        0x1a => Opcode::ILoad0,
        0x1b => Opcode::ILoad1,
        0x1c => Opcode::ILoad2,
        0x1d => Opcode::ILoad3,
        0x1e => Opcode::LLoad0,
        0x1f => Opcode::LLoad1,
        0x20 => Opcode::LLoad2,
        0x21 => Opcode::LLoad3,
        0x22 => Opcode::FLoad0,
        0x23 => Opcode::FLoad1,
        0x24 => Opcode::FLoad2,
        0x25 => Opcode::FLoad3,
        0x26 => Opcode::DLoad0,
        0x27 => Opcode::DLoad1,
        0x28 => Opcode::DLoad2,
        0x29 => Opcode::DLoad3,
        0x2a => Opcode::ALoad0,
        0x2b => Opcode::ALoad1,
        0x2c => Opcode::ALoad2,
        0x2d => Opcode::ALoad3,
        0x2e => Opcode::IALoad,
        0x2f => Opcode::LALoad,
        0x30 => Opcode::FALoad,
        0x31 => Opcode::DALoad,
        0x32 => Opcode::AALoad,
        0x33 => Opcode::BALoad,
        0x34 => Opcode::CALoad,
        0x35 => Opcode::SALoad,
        0x3b => Opcode::IStore0,
        0x3c => Opcode::IStore1,
        0x3d => Opcode::IStore2,
        0x3e => Opcode::IStore3,
        0x3f => Opcode::LStore0,
        0x40 => Opcode::LStore1,
        0x41 => Opcode::LStore2,
        0x42 => Opcode::LStore3,
        0x43 => Opcode::FStore0,
        0x44 => Opcode::FStore1,
        0x45 => Opcode::FStore2,
        0x46 => Opcode::FStore3,
        0x47 => Opcode::DStore0,
        0x48 => Opcode::DStore1,
        0x49 => Opcode::DStore2,
        0x4a => Opcode::DStore3,
        0x4b => Opcode::AStore0,
        0x4c => Opcode::AStore1,
        0x4d => Opcode::AStore2,
        0x4e => Opcode::AStore3,
        0x4f => Opcode::IAStore,
        0x50 => Opcode::LAStore,
        0x51 => Opcode::FAStore,
        0x52 => Opcode::DAStore,
        0x53 => Opcode::AAStore,
        0x54 => Opcode::BAStore,
        0x55 => Opcode::CAStore,
        0x56 => Opcode::SAStore,
        0x57 => Opcode::Pop,
        0x58 => Opcode::Pop2,
        0x59 => Opcode::Dup,
        0x5a => Opcode::DupX1,
        0x5b => Opcode::DupX2,
        0x5c => Opcode::Dup2,
        0x5d => Opcode::Dup2X1,
        0x5e => Opcode::Dup2X2,
        0x5f => Opcode::Swap,
        0x60 => Opcode::IAdd,
        0x61 => Opcode::LAdd,
        0x62 => Opcode::FAdd,
        0x63 => Opcode::DAdd,
        0x64 => Opcode::ISub,
        0x65 => Opcode::LSub,
        0x66 => Opcode::FSub,
        0x67 => Opcode::DSub,
        0x68 => Opcode::IMul,
        0x69 => Opcode::LMul,
        0x6a => Opcode::FMul,
        0x6b => Opcode::DMul,
        0x6c => Opcode::IDiv,
        0x6d => Opcode::LDiv,
        0x6e => Opcode::FDiv,
        0x6f => Opcode::DDiv,
        0x70 => Opcode::IRem,
        0x71 => Opcode::LRem,
        0x72 => Opcode::FRem,
        0x73 => Opcode::DRem,
        0x74 => Opcode::INeg,
        0x75 => Opcode::LNeg,
        0x76 => Opcode::FNeg,
        0x77 => Opcode::DNeg,
        0x78 => Opcode::IShl,
        0x79 => Opcode::LShl,
        0x7a => Opcode::IShr,
        0x7b => Opcode::LShr,
        0x7c => Opcode::IUShr,
        0x7d => Opcode::LUshr,
        0x7e => Opcode::IAnd,
        0x7f => Opcode::LAnd,
        0x80 => Opcode::IOr,
        0x81 => Opcode::LOr,
        0x82 => Opcode::IXor,
        0x83 => Opcode::LXor,
        0x85 => Opcode::I2L,
        0x86 => Opcode::I2F,
        0x87 => Opcode::I2D,
        0x88 => Opcode::L2I,
        0x89 => Opcode::L2F,
        0x8a => Opcode::L2D,
        0x8b => Opcode::F2I,
        0x8c => Opcode::F2L,
        0x8d => Opcode::F2D,
        0x8e => Opcode::D2I,
        0x8f => Opcode::D2L,
        0x90 => Opcode::D2F,
        0x91 => Opcode::I2B,
        0x92 => Opcode::I2C,
        0x93 => Opcode::I2S,
        0x94 => Opcode::LCmp,
        0x95 => Opcode::FCmpL,
        0x96 => Opcode::FCmpG,
        0x97 => Opcode::DCmpL,
        0x98 => Opcode::DCmpG,
        0xac => Opcode::IReturn,
        0xad => Opcode::LReturn,
        0xae => Opcode::FReturn,
        0xaf => Opcode::DReturn,
        0xb0 => Opcode::AReturn,
        0xb1 => Opcode::Return,
        0xbe => Opcode::ArrayLength,
        0xbf => Opcode::AThrow,
        0xc2 => Opcode::MonitorEnter,
        0xc3 => Opcode::MonitorExit,
        0xca => Opcode::Breakpoint,
        _ => Opcode::Nop,
    }
}

/// True for the opcode bytes of the instructions whose operand is one
/// unsigned byte.
pub open spec fn takes_u8(b: u8) -> bool {
    b == 0x12 || 0x15 <= b <= 0x19 || 0x36 <= b <= 0x3A || b == 0xA9
}

/// The instruction with opcode byte `b` and the unsigned byte operand `v`.
fn with_u8(b: u8, v: u8) -> (op: Opcode)
    requires
        takes_u8(b),
    ensures
        op.byte() == b,
        op.operands() == seq![v],
{
    match b {
        0x12 => Opcode::Ldc(v),
        0x15 => Opcode::ILoad(v),
        0x16 => Opcode::LLoad(v),
        0x17 => Opcode::FLoad(v),
        0x18 => Opcode::DLoad(v),
        0x19 => Opcode::ALoad(v),
        0x36 => Opcode::IStore(v),
        0x37 => Opcode::LStore(v),
        0x38 => Opcode::FStore(v),
        0x39 => Opcode::DStore(v),
        0x3a => Opcode::AStore(v),
        _ => Opcode::Ret(v),
    }
}

/// True for the opcode bytes of the instructions whose operand is one
/// signed 16-bit number.
pub open spec fn takes_i16(b: u8) -> bool {
    b == 0x11 || 0x99 <= b <= 0xA8 || b == 0xC6 || b == 0xC7
}

/// The instruction with opcode byte `b` and the signed 16-bit operand `v`.
fn with_i16(b: u8, v: i16) -> (op: Opcode)
    requires
        takes_i16(b),
    ensures
        op.byte() == b,
        op.operands() == i16_bytes(v),
{
    match b {
        0x11 => Opcode::SIPush(v),
        0x99 => Opcode::IfEq(v),
        0x9a => Opcode::IfNe(v),
        0x9b => Opcode::IfLt(v),
        0x9c => Opcode::IfGe(v),
        0x9d => Opcode::IfGt(v),
        0x9e => Opcode::IfLe(v),
        0x9f => Opcode::IfICmpEq(v),
        0xa0 => Opcode::IfICmpNe(v),
        0xa1 => Opcode::IfICmpLt(v),
        0xa2 => Opcode::IfICmpGe(v),
        0xa3 => Opcode::IfICmpGt(v),
        0xa4 => Opcode::IfICmpLe(v),
        0xa5 => Opcode::IfACmpEq(v),
        0xa6 => Opcode::IfACmpNe(v),
        0xa7 => Opcode::Goto(v),
        0xa8 => Opcode::Jsr(v),
        0xc6 => Opcode::IfNull(v),
        _ => Opcode::IfNonNull(v),
    }
}

/// True for the opcode bytes of the instructions whose operand is one
/// unsigned 16-bit number.
pub open spec fn takes_u16(b: u8) -> bool {
    b == 0x13 || b == 0x14 || 0xB2 <= b <= 0xB8 || b == 0xBB || b == 0xBD || b == 0xC0 || b
        == 0xC1
}

/// The instruction with opcode byte `b` and the unsigned 16-bit operand `v`.
fn with_u16(b: u8, v: u16) -> (op: Opcode)
    requires
        takes_u16(b),
    ensures
        op.byte() == b,
        op.operands() == u16_bytes(v as int),
{
    match b {
        0x13 => Opcode::LdcW(v),
        0x14 => Opcode::Ldc2W(v),
        0xb2 => Opcode::GetStatic(v),
        0xb3 => Opcode::PutStatic(v),
        0xb4 => Opcode::GetField(v),
        0xb5 => Opcode::PutField(v),
        0xb6 => Opcode::InvokeVirtual(v),
        0xb7 => Opcode::InvokeSpecial(v),
        0xb8 => Opcode::InvokeStatic(v),
        0xbb => Opcode::New(v),
        0xbd => Opcode::ANewArray(v),
        0xc0 => Opcode::CheckCast(v),
        _ => Opcode::InstanceOf(v),
    }
}

impl JVM {
    /// Decodes the instruction that starts at `pc` in `code`.
    ///
    /// Returns the instruction and its length in bytes, or a decode error
    /// at `pc` that says why no instruction starts there: the buffer ends
    /// too early, the byte names no instruction, or an operand is not
    /// allowed.
    pub fn parse_opcode(code: &[u8], pc: usize) -> (r: Result<(Opcode, usize), JVMError>)
        ensures
            decodes_to(code@, pc as int, r),
            r is Ok ==> 1 <= r->Ok_0.1 && pc + r->Ok_0.1 <= code@.len(),
    {
        reveal(encodes);
        let b = match get_u8(code, pc) {
            Some(b) => b,
            None => {
                return Err(decode_error(DecodeErrorKind::UnexpectedEof, pc));
            },
        };
        if b == 0xAA {
            parse_table_switch(code, pc)
        } else if b == 0xAB {
            parse_lookup_switch(code, pc)
        } else if b == 0xC4 {
            parse_wide(code, pc)
        } else if b == 0x10 {
            Ok((Opcode::BIPush(operand_i8(code, pc)?), 2))
        } else if b == 0x84 {
            let (index, constant) = operand_iinc(code, pc)?;
            Ok((Opcode::IInc(index, constant), 3))
        } else if b == 0xB9 {
            let (index, count) = operand_interface(code, pc)?;
            Ok((Opcode::InvokeInterface(index, count), 5))
        } else if b == 0xBA {
            Ok((Opcode::InvokeDynamic(operand_dynamic(code, pc)?), 5))
        } else if b == 0xBC {
            Ok((Opcode::NewArray(operand_atype(code, pc)?), 2))
        } else if b == 0xC5 {
            let (index, dimensions) = operand_multi(code, pc)?;
            Ok((Opcode::MultiANewArray(index, dimensions), 4))
        } else if b == 0xC8 {
            Ok((Opcode::GotoW(operand_i32(code, pc)?), 5))
        } else if b == 0xC9 {
            Ok((Opcode::JsrW(operand_i32(code, pc)?), 5))
        } else {
            match operand_size(b) {
                None => Err(decode_error(DecodeErrorKind::InvalidOpcode, pc)),
                Some(0) => {
                    assert(code@.subrange(pc + 1, pc + 1) =~= Seq::<u8>::empty());
                    Ok((plain(b), 1))
                },
                Some(1) => Ok((with_u8(b, operand_u8(code, pc)?), 2)),
                Some(_) => {
                    if b == 0x11 || (0x99 <= b && b <= 0xA8) || b == 0xC6 || b == 0xC7 {
                        Ok((with_i16(b, operand_i16(code, pc)?), 3))
                    } else {
                        Ok((with_u16(b, operand_u16(code, pc)?), 3))
                    }
                },
            }
        }
    }
}

} // verus!
