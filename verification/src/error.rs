//! What can go wrong while decoding a class file or running bytecode.
use vstd::prelude::*;

verus! {

/// Why a class file or an instruction stream was rejected.
#[derive(Clone, Copy, PartialEq, Eq, Structural, Debug)]
pub enum DecodeErrorKind {
    /// The input ended inside a record.
    UnexpectedEof,
    /// A constant-pool entry starts with a tag that names no entry kind.
    InvalidConstantTag,
    /// The bytes of a Utf8 entry are not UTF-8.
    InvalidUtf8,
    /// An access-flag word has a bit set that names no flag.
    InvalidAccessFlags,
    /// A constant-pool index points outside the pool.
    InvalidPoolIndex,
    /// A constant-pool entry is not of the kind that the reference needs.
    UnexpectedPoolEntry,
    /// An interface entry does not start with the tag of a class entry.
    ExpectedClassTag,
    /// A stack-map frame has a reserved frame type.
    InvalidFrameType,
    /// A verification type has an unknown tag.
    InvalidVerificationTag,
    /// The byte names no instruction.
    InvalidOpcode,
    /// `wide` is followed by an instruction that it cannot modify.
    InvalidWideTarget,
    /// `newarray` names no primitive element type.
    InvalidArrayType,
    /// A switch has `low > high`, a negative pair count, or keys out of
    /// ascending order.
    InvalidSwitch,
    /// A byte that the format fixes to zero is not zero.
    InvalidOperand,
    /// A method carries no `Code` attribute.
    MissingCode,
}

/// A decode failure: what was wrong, and where.  For a failure of the
/// reader, `offset` is the byte at which the offending record begins, or
/// the length of the input when the input ended too early; for a failure
/// found when a decoded class is linked, it is the constant-pool index that
/// was followed.
#[derive(Clone, Copy, PartialEq, Eq, Structural, Debug)]
pub struct DecodeError {
    pub kind: DecodeErrorKind,
    pub offset: usize,
}

/// The ways in which loading or executing a class ends abnormally.
#[derive(Clone, Copy, PartialEq, Eq, Structural, Debug)]
pub enum JVMError {
    /// A class file or an instruction is malformed.
    Decode(DecodeError),
    /// No class of the requested name could be supplied.
    ClassNotFound,
    /// A field or method reference names a member that its class lacks.
    MissingMember,
    /// An instruction met a value of the wrong kind.
    TypeMismatch,
    /// An instruction dereferenced the null reference.
    NullDereference,
    /// An array was indexed outside `[0, length)`.
    ArrayIndexOutOfBounds,
    /// An array of negative length was asked for.
    NegativeArraySize,
    /// An integer was divided by zero.
    DivisionByZero,
    /// The instruction is decoded but not executed by this machine.
    UnsupportedInstruction,
    /// A field or method descriptor is not well formed.
    InvalidDescriptor,
    /// The machine's own bookkeeping was violated: an operand stack
    /// underflowed or outgrew its limit, a local index or a branch target
    /// lies outside the method, or a handle is stale.
    InterpreterBug,
}

impl DecodeErrorKind {
    /// A sentence that explains the kind.
    pub fn message(&self) -> (r: &'static str)
        ensures
            r@ == self.message_text(),
    {
        match self {
            DecodeErrorKind::UnexpectedEof => "unexpected end of input",
            DecodeErrorKind::InvalidConstantTag => "invalid constant tag",
            DecodeErrorKind::InvalidUtf8 => "UTF-8 string was not in correct format",
            DecodeErrorKind::InvalidAccessFlags => "invalid access flag",
            DecodeErrorKind::InvalidPoolIndex => "expected valid constant-pool index",
            DecodeErrorKind::UnexpectedPoolEntry => "constant-pool entry of the wrong kind",
            DecodeErrorKind::ExpectedClassTag => "expected class entry tag",
            DecodeErrorKind::InvalidFrameType => "frame type reserved for future use",
            DecodeErrorKind::InvalidVerificationTag => "invalid verification type tag",
            DecodeErrorKind::InvalidOpcode => "unknown opcode",
            DecodeErrorKind::InvalidWideTarget => "unsupported opcode after wide",
            DecodeErrorKind::InvalidArrayType => "invalid array element type",
            DecodeErrorKind::InvalidSwitch => "malformed switch table",
            DecodeErrorKind::InvalidOperand => "operand byte must be zero",
            DecodeErrorKind::MissingCode => "method missing code attribute",
        }
    }

    /// The text of `message`.
    pub open spec fn message_text(&self) -> Seq<char> {
        match self {
            DecodeErrorKind::UnexpectedEof => "unexpected end of input"@,
            DecodeErrorKind::InvalidConstantTag => "invalid constant tag"@,
            DecodeErrorKind::InvalidUtf8 => "UTF-8 string was not in correct format"@,
            DecodeErrorKind::InvalidAccessFlags => "invalid access flag"@,
            DecodeErrorKind::InvalidPoolIndex => "expected valid constant-pool index"@,
            DecodeErrorKind::UnexpectedPoolEntry => "constant-pool entry of the wrong kind"@,
            DecodeErrorKind::ExpectedClassTag => "expected class entry tag"@,
            DecodeErrorKind::InvalidFrameType => "frame type reserved for future use"@,
            DecodeErrorKind::InvalidVerificationTag => "invalid verification type tag"@,
            DecodeErrorKind::InvalidOpcode => "unknown opcode"@,
            DecodeErrorKind::InvalidWideTarget => "unsupported opcode after wide"@,
            DecodeErrorKind::InvalidArrayType => "invalid array element type"@,
            DecodeErrorKind::InvalidSwitch => "malformed switch table"@,
            DecodeErrorKind::InvalidOperand => "operand byte must be zero"@,
            DecodeErrorKind::MissingCode => "method missing code attribute"@,
        }
    }
}

/// A decode failure of kind `kind` at `offset`, as a machine error.
pub open spec fn decode_fault(kind: DecodeErrorKind, offset: int) -> JVMError {
    JVMError::Decode(DecodeError { kind, offset: offset as usize })
}

/// Builds the machine error for a decode failure.
pub fn decode_error(kind: DecodeErrorKind, offset: usize) -> (e: JVMError)
    ensures
        e == decode_fault(kind, offset as int),
{
    JVMError::Decode(DecodeError { kind, offset })
}

/// The failure of following the constant-pool index `index`.
pub open spec fn link_fault(kind: DecodeErrorKind, index: u16) -> JVMError {
    JVMError::Decode(DecodeError { kind, offset: index as usize })
}

/// Builds the machine error for a constant-pool index that cannot be
/// followed.
pub fn link_error(kind: DecodeErrorKind, index: u16) -> (e: JVMError)
    ensures
        e == link_fault(kind, index),
{
    JVMError::Decode(DecodeError { kind, offset: index as usize })
}

} // verus!
