//! The instruction set: one variant per instruction with its operands, and
//! the layout of each instruction in a code buffer.
use crate::bytes::{be_u32, i16_bytes, i32_bytes, i8_bytes, signed32, u16_bytes};
use crate::error::DecodeErrorKind;
use vstd::prelude::*;

verus! {

/// The element type that `newarray` names.
#[derive(Clone, Copy, PartialEq, Eq, Structural, Debug)]
pub enum AType {
    Boolean,
    Char,
    Float,
    Double,
    Byte,
    Short,
    Int,
    Long,
}

impl AType {
    /// The type code of the element type in the instruction stream.
    pub open spec fn spec_code(self) -> u8 {
        match self {
            AType::Boolean => 4,
            AType::Char => 5,
            AType::Float => 6,
            AType::Double => 7,
            AType::Byte => 8,
            AType::Short => 9,
            AType::Int => 10,
            AType::Long => 11,
        }
    }

    /// The type code of the element type in the instruction stream.
    #[verifier::when_used_as_spec(spec_code)]
    pub fn code(self) -> (r: u8)
        ensures
            r == self.spec_code(),
    {
        match self {
            AType::Boolean => 4,
            AType::Char => 5,
            AType::Float => 6,
            AType::Double => 7,
            AType::Byte => 8,
            AType::Short => 9,
            AType::Int => 10,
            AType::Long => 11,
        }
    }

    /// The element type with type code `code`; there is one for each code
    /// from 4 to 11.
    pub fn try_from_primitive(code: u8) -> (r: Option<AType>)
        ensures
            r is Some <==> 4 <= code <= 11,
            r is Some ==> r->0.spec_code() == code,
    {
        match code {
            4 => Some(AType::Boolean),
            5 => Some(AType::Char),
            6 => Some(AType::Float),
            7 => Some(AType::Double),
            8 => Some(AType::Byte),
            9 => Some(AType::Short),
            10 => Some(AType::Int),
            11 => Some(AType::Long),
            _ => None,
        }
    }

    /// The descriptor letter of the element type.
    pub open spec fn spec_letter(self) -> char {
        match self {
            AType::Boolean => 'Z',
            AType::Char => 'C',
            AType::Float => 'F',
            AType::Double => 'D',
            AType::Byte => 'B',
            AType::Short => 'S',
            AType::Int => 'I',
            AType::Long => 'J',
        }
    }
}

/// A load, store or increment with the two-byte operands that the `wide`
/// prefix gives it.
#[derive(Clone, Copy, PartialEq, Eq, Structural, Debug)]
pub enum WideInstruction {
    ILoad(u16),
    LLoad(u16),
    FLoad(u16),
    DLoad(u16),
    ALoad(u16),
    IStore(u16),
    LStore(u16),
    FStore(u16),
    DStore(u16),
    AStore(u16),
    IInc(u16, i16),
}

impl WideInstruction {
    /// The opcode byte of the instruction that `wide` modifies.
    pub open spec fn byte(self) -> u8 {
        match self {
            WideInstruction::ILoad(_) => 0x15,
            WideInstruction::LLoad(_) => 0x16,
            WideInstruction::FLoad(_) => 0x17,
            WideInstruction::DLoad(_) => 0x18,
            WideInstruction::ALoad(_) => 0x19,
            WideInstruction::IStore(_) => 0x36,
            WideInstruction::LStore(_) => 0x37,
            WideInstruction::FStore(_) => 0x38,
            WideInstruction::DStore(_) => 0x39,
            WideInstruction::AStore(_) => 0x3a,
            WideInstruction::IInc(_, _) => 0x84,
        }
    }

    /// The bytes that follow the `wide` opcode byte.
    pub open spec fn bytes(self) -> Seq<u8> {
        match self {
            WideInstruction::ILoad(index) => seq![0x15u8] + u16_bytes(index as int),
            WideInstruction::LLoad(index) => seq![0x16u8] + u16_bytes(index as int),
            WideInstruction::FLoad(index) => seq![0x17u8] + u16_bytes(index as int),
            WideInstruction::DLoad(index) => seq![0x18u8] + u16_bytes(index as int),
            WideInstruction::ALoad(index) => seq![0x19u8] + u16_bytes(index as int),
            WideInstruction::IStore(index) => seq![0x36u8] + u16_bytes(index as int),
            WideInstruction::LStore(index) => seq![0x37u8] + u16_bytes(index as int),
            WideInstruction::FStore(index) => seq![0x38u8] + u16_bytes(index as int),
            WideInstruction::DStore(index) => seq![0x39u8] + u16_bytes(index as int),
            WideInstruction::AStore(index) => seq![0x3au8] + u16_bytes(index as int),
            WideInstruction::IInc(index, constant) => seq![0x84u8] + u16_bytes(index as int)
                + i16_bytes(constant),
        }
    }
}

/// A decoded instruction.
///
/// Branch offsets are relative to the position of the instruction's opcode
/// byte.
#[derive(PartialEq, Eq, Debug)]
pub enum Opcode {
    Nop,
    AConstNull,
    IConstM1,
    IConst0,
    IConst1,
    IConst2,
    IConst3,
    IConst4,
    IConst5,
    LConst0,
    LConst1,
    FConst0,
    FConst1,
    FConst2,
    DConst0,
    DConst1,
    BIPush(i8),
    SIPush(i16),
    Ldc(u8),
    LdcW(u16),
    Ldc2W(u16),
    ILoad(u8),
    LLoad(u8),
    FLoad(u8),
    DLoad(u8),
    ALoad(u8),
    ILoad0,
    ILoad1,
    ILoad2,
    ILoad3,
    LLoad0,
    LLoad1,
    LLoad2,
    LLoad3,
    FLoad0,
    FLoad1,
    FLoad2,
    FLoad3,
    DLoad0,
    DLoad1,
    DLoad2,
    DLoad3,
    ALoad0,
    ALoad1,
    ALoad2,
    ALoad3,
    IALoad,
    LALoad,
    FALoad,
    DALoad,
    AALoad,
    BALoad,
    CALoad,
    SALoad,
    IStore(u8),
    LStore(u8),
    FStore(u8),
    DStore(u8),
    AStore(u8),
    IStore0,
    IStore1,
    IStore2,
    IStore3,
    LStore0,
    LStore1,
    LStore2,
    LStore3,
    FStore0,
    FStore1,
    FStore2,
    FStore3,
    DStore0,
    DStore1,
    DStore2,
    DStore3,
    AStore0,
    AStore1,
    AStore2,
    AStore3,
    IAStore,
    LAStore,
    FAStore,
    DAStore,
    AAStore,
    BAStore,
    CAStore,
    SAStore,
    Pop,
    Pop2,
    Dup,
    DupX1,
    DupX2,
    Dup2,
    Dup2X1,
    Dup2X2,
    Swap,
    IAdd,
    LAdd,
    FAdd,
    DAdd,
    ISub,
    LSub,
    FSub,
    DSub,
    IMul,
    LMul,
    FMul,
    DMul,
    IDiv,
    LDiv,
    FDiv,
    DDiv,
    IRem,
    LRem,
    FRem,
    DRem,
    INeg,
    LNeg,
    FNeg,
    DNeg,
    IShl,
    LShl,
    IShr,
    LShr,
    IUShr,
    LUshr,
    IAnd,
    LAnd,
    IOr,
    LOr,
    IXor,
    LXor,
    IInc(u8, i8),
    I2L,
    I2F,
    I2D,
    L2I,
    L2F,
    L2D,
    F2I,
    F2L,
    F2D,
    D2I,
    D2L,
    D2F,
    I2B,
    I2C,
    I2S,
    LCmp,
    FCmpL,
    FCmpG,
    DCmpL,
    DCmpG,
    IfEq(i16),
    IfNe(i16),
    IfLt(i16),
    IfGe(i16),
    IfGt(i16),
    IfLe(i16),
    IfICmpEq(i16),
    IfICmpNe(i16),
    IfICmpLt(i16),
    IfICmpGe(i16),
    IfICmpGt(i16),
    IfICmpLe(i16),
    IfACmpEq(i16),
    IfACmpNe(i16),
    Goto(i16),
    Jsr(i16),
    Ret(u8),
    TableSwitch { default_offset: i32, low: i32, high: i32, jump_offsets: Vec<i32> },
    LookupSwitch { default_offset: i32, npairs: i32, match_offsets: Vec<(i32, i32)> },
    IReturn,
    LReturn,
    FReturn,
    DReturn,
    AReturn,
    Return,
    GetStatic(u16),
    PutStatic(u16),
    GetField(u16),
    PutField(u16),
    InvokeVirtual(u16),
    InvokeSpecial(u16),
    InvokeStatic(u16),
    InvokeInterface(u16, u8),
    InvokeDynamic(u16),
    New(u16),
    NewArray(AType),
    ANewArray(u16),
    ArrayLength,
    AThrow,
    CheckCast(u16),
    InstanceOf(u16),
    MonitorEnter,
    MonitorExit,
    Wide(WideInstruction),
    MultiANewArray(u16, u8),
    IfNull(i16),
    IfNonNull(i16),
    GotoW(i32),
    JsrW(i32),
    Breakpoint,
}

impl Opcode {
    /// The opcode byte of the instruction.
    pub open spec fn byte(self) -> u8 {
        match self {
            Opcode::Nop => 0x00,
            Opcode::AConstNull => 0x01,
            Opcode::IConstM1 => 0x02,
            Opcode::IConst0 => 0x03,
            Opcode::IConst1 => 0x04,
            Opcode::IConst2 => 0x05,
            Opcode::IConst3 => 0x06,
            Opcode::IConst4 => 0x07,
            Opcode::IConst5 => 0x08,
            Opcode::LConst0 => 0x09,
            Opcode::LConst1 => 0x0a,
            Opcode::FConst0 => 0x0b,
            Opcode::FConst1 => 0x0c,
            Opcode::FConst2 => 0x0d,
            Opcode::DConst0 => 0x0e,
            Opcode::DConst1 => 0x0f,
            Opcode::BIPush(_) => 0x10,
            Opcode::SIPush(_) => 0x11,
            Opcode::Ldc(_) => 0x12,
            Opcode::LdcW(_) => 0x13,
            Opcode::Ldc2W(_) => 0x14,
            Opcode::ILoad(_) => 0x15,
            Opcode::LLoad(_) => 0x16,
            Opcode::FLoad(_) => 0x17,
            Opcode::DLoad(_) => 0x18,
            Opcode::ALoad(_) => 0x19,
            Opcode::ILoad0 => 0x1a,
            Opcode::ILoad1 => 0x1b,
            Opcode::ILoad2 => 0x1c,
            Opcode::ILoad3 => 0x1d,
            Opcode::LLoad0 => 0x1e,
            Opcode::LLoad1 => 0x1f,
            Opcode::LLoad2 => 0x20,
            Opcode::LLoad3 => 0x21,
            Opcode::FLoad0 => 0x22,
            Opcode::FLoad1 => 0x23,
            Opcode::FLoad2 => 0x24,
            Opcode::FLoad3 => 0x25,
            Opcode::DLoad0 => 0x26,
            Opcode::DLoad1 => 0x27,
            Opcode::DLoad2 => 0x28,
            Opcode::DLoad3 => 0x29,
            Opcode::ALoad0 => 0x2a,
            Opcode::ALoad1 => 0x2b,
            Opcode::ALoad2 => 0x2c,
            Opcode::ALoad3 => 0x2d,
            Opcode::IALoad => 0x2e,
            Opcode::LALoad => 0x2f,
            Opcode::FALoad => 0x30,
            Opcode::DALoad => 0x31,
            Opcode::AALoad => 0x32,
            Opcode::BALoad => 0x33,
            Opcode::CALoad => 0x34,
            Opcode::SALoad => 0x35,
            Opcode::IStore(_) => 0x36,
            Opcode::LStore(_) => 0x37,
            Opcode::FStore(_) => 0x38,
            Opcode::DStore(_) => 0x39,
            Opcode::AStore(_) => 0x3a,
            Opcode::IStore0 => 0x3b,
            Opcode::IStore1 => 0x3c,
            Opcode::IStore2 => 0x3d,
            Opcode::IStore3 => 0x3e,
            Opcode::LStore0 => 0x3f,
            Opcode::LStore1 => 0x40,
            Opcode::LStore2 => 0x41,
            Opcode::LStore3 => 0x42,
            Opcode::FStore0 => 0x43,
            Opcode::FStore1 => 0x44,
            Opcode::FStore2 => 0x45,
            Opcode::FStore3 => 0x46,
            Opcode::DStore0 => 0x47,
            Opcode::DStore1 => 0x48,
            Opcode::DStore2 => 0x49,
            Opcode::DStore3 => 0x4a,
            Opcode::AStore0 => 0x4b,
            Opcode::AStore1 => 0x4c,
            Opcode::AStore2 => 0x4d,
            Opcode::AStore3 => 0x4e,
            Opcode::IAStore => 0x4f,
            Opcode::LAStore => 0x50,
            Opcode::FAStore => 0x51,
            Opcode::DAStore => 0x52,
            Opcode::AAStore => 0x53,
            Opcode::BAStore => 0x54,
            Opcode::CAStore => 0x55,
            Opcode::SAStore => 0x56,
            Opcode::Pop => 0x57,
            Opcode::Pop2 => 0x58,
            Opcode::Dup => 0x59,
            Opcode::DupX1 => 0x5a,
            Opcode::DupX2 => 0x5b,
            Opcode::Dup2 => 0x5c,
            Opcode::Dup2X1 => 0x5d,
            Opcode::Dup2X2 => 0x5e,
            Opcode::Swap => 0x5f,
            Opcode::IAdd => 0x60,
            Opcode::LAdd => 0x61,
            Opcode::FAdd => 0x62,
            Opcode::DAdd => 0x63,
            Opcode::ISub => 0x64,
            Opcode::LSub => 0x65,
            Opcode::FSub => 0x66,
            Opcode::DSub => 0x67,
            Opcode::IMul => 0x68,
            Opcode::LMul => 0x69,
            Opcode::FMul => 0x6a,
            Opcode::DMul => 0x6b,
            Opcode::IDiv => 0x6c,
            Opcode::LDiv => 0x6d,
            Opcode::FDiv => 0x6e,
            Opcode::DDiv => 0x6f,
            Opcode::IRem => 0x70,
            Opcode::LRem => 0x71,
            Opcode::FRem => 0x72,
            Opcode::DRem => 0x73,
            Opcode::INeg => 0x74,
            Opcode::LNeg => 0x75,
            Opcode::FNeg => 0x76,
            Opcode::DNeg => 0x77,
            Opcode::IShl => 0x78,
            Opcode::LShl => 0x79,
            Opcode::IShr => 0x7a,
            Opcode::LShr => 0x7b,
            Opcode::IUShr => 0x7c,
            Opcode::LUshr => 0x7d,
            Opcode::IAnd => 0x7e,
            Opcode::LAnd => 0x7f,
            Opcode::IOr => 0x80,
            Opcode::LOr => 0x81,
            Opcode::IXor => 0x82,
            Opcode::LXor => 0x83,
            Opcode::IInc(_, _) => 0x84,
            Opcode::I2L => 0x85,
            Opcode::I2F => 0x86,
            Opcode::I2D => 0x87,
            Opcode::L2I => 0x88,
            Opcode::L2F => 0x89,
            Opcode::L2D => 0x8a,
            Opcode::F2I => 0x8b,
            Opcode::F2L => 0x8c,
            Opcode::F2D => 0x8d,
            Opcode::D2I => 0x8e,
            Opcode::D2L => 0x8f,
            Opcode::D2F => 0x90,
            Opcode::I2B => 0x91,
            Opcode::I2C => 0x92,
            Opcode::I2S => 0x93,
            Opcode::LCmp => 0x94,
            Opcode::FCmpL => 0x95,
            Opcode::FCmpG => 0x96,
            Opcode::DCmpL => 0x97,
            Opcode::DCmpG => 0x98,
            Opcode::IfEq(_) => 0x99,
            Opcode::IfNe(_) => 0x9a,
            Opcode::IfLt(_) => 0x9b,
            Opcode::IfGe(_) => 0x9c,
            Opcode::IfGt(_) => 0x9d,
            Opcode::IfLe(_) => 0x9e,
            Opcode::IfICmpEq(_) => 0x9f,
            Opcode::IfICmpNe(_) => 0xa0,
            Opcode::IfICmpLt(_) => 0xa1,
            Opcode::IfICmpGe(_) => 0xa2,
            Opcode::IfICmpGt(_) => 0xa3,
            Opcode::IfICmpLe(_) => 0xa4,
            Opcode::IfACmpEq(_) => 0xa5,
            Opcode::IfACmpNe(_) => 0xa6,
            Opcode::Goto(_) => 0xa7,
            Opcode::Jsr(_) => 0xa8,
            Opcode::Ret(_) => 0xa9,
            Opcode::TableSwitch { .. } => 0xaa,
            Opcode::LookupSwitch { .. } => 0xab,
            Opcode::IReturn => 0xac,
            Opcode::LReturn => 0xad,
            Opcode::FReturn => 0xae,
            Opcode::DReturn => 0xaf,
            Opcode::AReturn => 0xb0,
            Opcode::Return => 0xb1,
            Opcode::GetStatic(_) => 0xb2,
            Opcode::PutStatic(_) => 0xb3,
            Opcode::GetField(_) => 0xb4,
            Opcode::PutField(_) => 0xb5,
            Opcode::InvokeVirtual(_) => 0xb6,
            Opcode::InvokeSpecial(_) => 0xb7,
            Opcode::InvokeStatic(_) => 0xb8,
            Opcode::InvokeInterface(_, _) => 0xb9,
            Opcode::InvokeDynamic(_) => 0xba,
            Opcode::New(_) => 0xbb,
            Opcode::NewArray(_) => 0xbc,
            Opcode::ANewArray(_) => 0xbd,
            Opcode::ArrayLength => 0xbe,
            Opcode::AThrow => 0xbf,
            Opcode::CheckCast(_) => 0xc0,
            Opcode::InstanceOf(_) => 0xc1,
            Opcode::MonitorEnter => 0xc2,
            Opcode::MonitorExit => 0xc3,
            Opcode::Wide(_) => 0xc4,
            Opcode::MultiANewArray(_, _) => 0xc5,
            Opcode::IfNull(_) => 0xc6,
            Opcode::IfNonNull(_) => 0xc7,
            Opcode::GotoW(_) => 0xc8,
            Opcode::JsrW(_) => 0xc9,
            Opcode::Breakpoint => 0xca,
        }
    }

    /// The operand bytes that follow the opcode byte.  For the two switch
    /// instructions, whose operands are aligned to the start of the method,
    /// see `table_switch_at` and `lookup_switch_at`.
    pub open spec fn operands(self) -> Seq<u8> {
        match self {
            Opcode::BIPush(v) => i8_bytes(v),
            Opcode::SIPush(v) => i16_bytes(v),
            Opcode::Ldc(v) => seq![v],
            Opcode::LdcW(v) => u16_bytes(v as int),
            Opcode::Ldc2W(v) => u16_bytes(v as int),
            Opcode::ILoad(v) => seq![v],
            Opcode::LLoad(v) => seq![v],
            Opcode::FLoad(v) => seq![v],
            Opcode::DLoad(v) => seq![v],
            Opcode::ALoad(v) => seq![v],
            Opcode::IStore(v) => seq![v],
            Opcode::LStore(v) => seq![v],
            Opcode::FStore(v) => seq![v],
            Opcode::DStore(v) => seq![v],
            Opcode::AStore(v) => seq![v],
            Opcode::IInc(index, constant) => seq![index] + i8_bytes(constant),
            Opcode::IfEq(v) => i16_bytes(v),
            Opcode::IfNe(v) => i16_bytes(v),
            Opcode::IfLt(v) => i16_bytes(v),
            Opcode::IfGe(v) => i16_bytes(v),
            Opcode::IfGt(v) => i16_bytes(v),
            Opcode::IfLe(v) => i16_bytes(v),
            Opcode::IfICmpEq(v) => i16_bytes(v),
            Opcode::IfICmpNe(v) => i16_bytes(v),
            Opcode::IfICmpLt(v) => i16_bytes(v),
            Opcode::IfICmpGe(v) => i16_bytes(v),
            Opcode::IfICmpGt(v) => i16_bytes(v),
            Opcode::IfICmpLe(v) => i16_bytes(v),
            Opcode::IfACmpEq(v) => i16_bytes(v),
            Opcode::IfACmpNe(v) => i16_bytes(v),
            Opcode::Goto(v) => i16_bytes(v),
            Opcode::Jsr(v) => i16_bytes(v),
            Opcode::Ret(v) => seq![v],
            Opcode::GetStatic(v) => u16_bytes(v as int),
            Opcode::PutStatic(v) => u16_bytes(v as int),
            Opcode::GetField(v) => u16_bytes(v as int),
            Opcode::PutField(v) => u16_bytes(v as int),
            Opcode::InvokeVirtual(v) => u16_bytes(v as int),
            Opcode::InvokeSpecial(v) => u16_bytes(v as int),
            Opcode::InvokeStatic(v) => u16_bytes(v as int),
            Opcode::InvokeInterface(index, count) => u16_bytes(index as int) + seq![count, 0u8],
            Opcode::InvokeDynamic(v) => u16_bytes(v as int) + seq![0u8, 0u8],
            Opcode::New(v) => u16_bytes(v as int),
            Opcode::NewArray(ty) => seq![ty.spec_code()],
            Opcode::ANewArray(v) => u16_bytes(v as int),
            Opcode::CheckCast(v) => u16_bytes(v as int),
            Opcode::InstanceOf(v) => u16_bytes(v as int),
            Opcode::Wide(w) => w.bytes(),
            Opcode::MultiANewArray(index, dimensions) => u16_bytes(index as int) + seq![dimensions],
            Opcode::IfNull(v) => i16_bytes(v),
            Opcode::IfNonNull(v) => i16_bytes(v),
            Opcode::GotoW(v) => i32_bytes(v),
            Opcode::JsrW(v) => i32_bytes(v),
            _ => Seq::empty(),
        }
    }
}

/// The number of padding bytes between the opcode byte of a switch at `pc`
/// and its operands, which start at the next multiple of four.
pub open spec fn padding(pc: int) -> int {
    (4 - (pc + 1) % 4) % 4
}

/// The signed 32-bit number at `i`.
pub open spec fn be_i32(code: Seq<u8>, i: int) -> int {
    signed32(be_u32(code, i))
}

/// The operands of a `tableswitch` at `pc` are those given, and the
/// instruction is `len` bytes long.
pub open spec fn table_switch_at(
    code: Seq<u8>,
    pc: int,
    default_offset: i32,
    low: i32,
    high: i32,
    jump_offsets: Seq<i32>,
    len: int,
) -> bool {
    let base = pc + 1 + padding(pc);
    &&& be_i32(code, base) == default_offset
    &&& be_i32(code, base + 4) == low
    &&& be_i32(code, base + 8) == high
    &&& low <= high
    &&& jump_offsets.len() == high - low + 1
    &&& forall|k: int|
        0 <= k < jump_offsets.len() ==> #[trigger] jump_offsets[k] == be_i32(
            code,
            base + 12 + 4 * k,
        )
    &&& len == 1 + padding(pc) + 12 + 4 * (high - low + 1)
}

/// The operands of a `lookupswitch` at `pc` are those given, and the
/// instruction is `len` bytes long.
pub open spec fn lookup_switch_at(
    code: Seq<u8>,
    pc: int,
    default_offset: i32,
    npairs: i32,
    match_offsets: Seq<(i32, i32)>,
    len: int,
) -> bool {
    let base = pc + 1 + padding(pc);
    &&& be_i32(code, base) == default_offset
    &&& be_i32(code, base + 4) == npairs
    &&& 0 <= npairs
    &&& match_offsets.len() == npairs
    &&& forall|k: int|
        0 <= k < match_offsets.len() ==> (#[trigger] match_offsets[k]).0 == be_i32(
            code,
            base + 8 + 8 * k,
        ) && match_offsets[k].1 == be_i32(code, base + 12 + 8 * k)
    &&& len == 1 + padding(pc) + 8 + 8 * npairs
}

/// `op` is the instruction that the `len` bytes of `code` at `pc` hold.
#[verifier::opaque]
pub open spec fn encodes(code: Seq<u8>, pc: int, op: Opcode, len: int) -> bool {
    &&& 0 <= pc
    &&& 1 <= len
    &&& pc + len <= code.len()
    &&& code[pc] == op.byte()
    &&& match op {
        Opcode::TableSwitch { default_offset, low, high, jump_offsets } => table_switch_at(
            code,
            pc,
            default_offset,
            low,
            high,
            jump_offsets@,
            len,
        ),
        Opcode::LookupSwitch { default_offset, npairs, match_offsets } => lookup_switch_at(
            code,
            pc,
            default_offset,
            npairs,
            match_offsets@,
            len,
        ),
        _ => code.subrange(pc + 1, pc + len) == op.operands(),
    }
}

/// The number of operand bytes of the instruction with opcode byte `b`;
/// `None` for the bytes that name no instruction and for `tableswitch`,
/// `lookupswitch` and `wide`, whose length depends on what follows.
pub open spec fn operand_len(b: u8) -> Option<int> {
    if b == 0xAA || b == 0xAB || b == 0xC4 || b >= 0xCB {
        None
    } else if b == 0x10 || b == 0x12 || (0x15 <= b <= 0x19) || (0x36 <= b <= 0x3A) || b == 0xA9
        || b == 0xBC {
        Some(1)
    } else if b == 0x11 || b == 0x13 || b == 0x14 || b == 0x84 || (0x99 <= b <= 0xA8) || (0xB2
        <= b <= 0xB8) || b == 0xBB || b == 0xBD || b == 0xC0 || b == 0xC1 || b == 0xC6 || b
        == 0xC7 {
        Some(2)
    } else if b == 0xC5 {
        Some(3)
    } else if b == 0xB9 || b == 0xBA || b == 0xC8 || b == 0xC9 {
        Some(4)
    } else {
        Some(0)
    }
}

/// The keys of the `n` pairs of a `lookupswitch` whose pairs start at
/// `pairs` are in strictly ascending order.
pub open spec fn keys_ascend(code: Seq<u8>, pairs: int, n: int) -> bool {
    forall|k: int| 0 < k < n ==> be_i32(code, pairs + 8 * (k - 1)) < #[trigger] be_i32(code, pairs + 8 * k)
}

/// The length of the `tableswitch` at `pc`, or why there is none.
pub open spec fn table_switch_len(code: Seq<u8>, pc: int) -> Result<int, DecodeErrorKind> {
    let base = pc + 1 + padding(pc);
    if base + 12 > code.len() {
        Err(DecodeErrorKind::UnexpectedEof)
    } else if be_i32(code, base + 4) > be_i32(code, base + 8) {
        Err(DecodeErrorKind::InvalidSwitch)
    } else {
        let n = be_i32(code, base + 8) - be_i32(code, base + 4) + 1;
        if base + 12 + 4 * n > code.len() {
            Err(DecodeErrorKind::UnexpectedEof)
        } else {
            Ok(1 + padding(pc) + 12 + 4 * n)
        }
    }
}

/// The length of the `lookupswitch` at `pc`, or why there is none.
pub open spec fn lookup_switch_len(code: Seq<u8>, pc: int) -> Result<int, DecodeErrorKind> {
    let base = pc + 1 + padding(pc);
    if base + 8 > code.len() {
        Err(DecodeErrorKind::UnexpectedEof)
    } else if be_i32(code, base + 4) < 0 {
        Err(DecodeErrorKind::InvalidSwitch)
    } else {
        let n = be_i32(code, base + 4);
        if base + 8 + 8 * n > code.len() {
            Err(DecodeErrorKind::UnexpectedEof)
        } else if !keys_ascend(code, base + 8, n) {
            Err(DecodeErrorKind::InvalidSwitch)
        } else {
            Ok(1 + padding(pc) + 8 + 8 * n)
        }
    }
}

/// The length of the `wide` instruction at `pc`, or why there is none.
pub open spec fn wide_len(code: Seq<u8>, pc: int) -> Result<int, DecodeErrorKind> {
    if pc + 2 > code.len() {
        Err(DecodeErrorKind::UnexpectedEof)
    } else {
        let b = code[pc + 1];
        if (0x15 <= b <= 0x19) || (0x36 <= b <= 0x3A) {
            if pc + 4 > code.len() {
                Err(DecodeErrorKind::UnexpectedEof)
            } else {
                Ok(4)
            }
        } else if b == 0x84 {
            if pc + 6 > code.len() {
                Err(DecodeErrorKind::UnexpectedEof)
            } else {
                Ok(6)
            }
        } else {
            Err(DecodeErrorKind::InvalidWideTarget)
        }
    }
}

/// The length in bytes of the instruction that starts at `pc`, or why no
/// instruction starts there.
pub open spec fn instruction_len(code: Seq<u8>, pc: int) -> Result<int, DecodeErrorKind> {
    if pc < 0 || pc >= code.len() {
        Err(DecodeErrorKind::UnexpectedEof)
    } else if code[pc] == 0xAA {
        table_switch_len(code, pc)
    } else if code[pc] == 0xAB {
        lookup_switch_len(code, pc)
    } else if code[pc] == 0xC4 {
        wide_len(code, pc)
    } else {
        match operand_len(code[pc]) {
            None => Err(DecodeErrorKind::InvalidOpcode),
            Some(n) => if pc + 1 + n > code.len() {
                Err(DecodeErrorKind::UnexpectedEof)
            } else if code[pc] == 0xBC && !(4 <= code[pc + 1] <= 11) {
                Err(DecodeErrorKind::InvalidArrayType)
            } else if code[pc] == 0xB9 && code[pc + 4] != 0 {
                Err(DecodeErrorKind::InvalidOperand)
            } else if code[pc] == 0xBA && (code[pc + 3] != 0 || code[pc + 4] != 0) {
                Err(DecodeErrorKind::InvalidOperand)
            } else {
                Ok(1 + n)
            },
        }
    }
}

} // verus!
