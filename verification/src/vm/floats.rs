//! Floating-point instructions.
//!
//! The machine holds floats and doubles as bit patterns and does not compute
//! with them.  An instruction that needs floating-point arithmetic is
//! executed in two halves: the machine checks the operands and hands them
//! out as a request, and when the answer comes back it replaces the operands
//! by the result.
use crate::error::JVMError;
use crate::vm::effect::{below, top, FrameState, Kind, Outcome};
use crate::vm::jvalue::JValue;
use crate::vm::jvm::{JVMResult, JVM};
use crate::vm::stack_frame::{follows, StackFrame};
use vstd::prelude::*;

verus! {

/// The instructions that need floating-point arithmetic.
#[derive(Clone, Copy, PartialEq, Eq, Structural, Debug)]
pub enum FloatOp {
    FAdd,
    FSub,
    FMul,
    FDiv,
    FRem,
    FNeg,
    DAdd,
    DSub,
    DMul,
    DDiv,
    DRem,
    DNeg,
    I2F,
    I2D,
    L2F,
    L2D,
    F2I,
    F2L,
    F2D,
    D2I,
    D2L,
    D2F,
    FCmpL,
    FCmpG,
    DCmpL,
    DCmpG,
}

/// The operands of a floating-point instruction, as they lie on the stack:
/// `x` below `y`.  An instruction with one operand has it in `x`, and
/// `y` is null.
#[derive(Clone, Copy, PartialEq, Eq, Structural, Debug)]
pub struct FloatRequest {
    pub op: FloatOp,
    pub x: JValue,
    pub y: JValue,
}

/// The answer to a request: the result of an arithmetic instruction or of a
/// conversion, or how the operands of a comparison compare.
#[derive(Clone, Copy, PartialEq, Eq, Structural, Debug)]
pub enum FloatAnswer {
    Value(JValue),
    Less,
    Equal,
    Greater,
    /// One of the operands is not a number.
    Unordered,
}

impl FloatOp {
    /// The kind of the first operand.
    pub open spec fn first(self) -> Kind {
        match self {
            FloatOp::FAdd => Kind::Float,
            FloatOp::FSub => Kind::Float,
            FloatOp::FMul => Kind::Float,
            FloatOp::FDiv => Kind::Float,
            FloatOp::FRem => Kind::Float,
            FloatOp::FNeg => Kind::Float,
            FloatOp::DAdd => Kind::Double,
            FloatOp::DSub => Kind::Double,
            FloatOp::DMul => Kind::Double,
            FloatOp::DDiv => Kind::Double,
            FloatOp::DRem => Kind::Double,
            FloatOp::DNeg => Kind::Double,
            FloatOp::I2F => Kind::Int,
            FloatOp::I2D => Kind::Int,
            FloatOp::L2F => Kind::Long,
            FloatOp::L2D => Kind::Long,
            FloatOp::F2I => Kind::Float,
            FloatOp::F2L => Kind::Float,
            FloatOp::F2D => Kind::Float,
            FloatOp::D2I => Kind::Double,
            FloatOp::D2L => Kind::Double,
            FloatOp::D2F => Kind::Double,
            FloatOp::FCmpL => Kind::Float,
            FloatOp::FCmpG => Kind::Float,
            FloatOp::DCmpL => Kind::Double,
            FloatOp::DCmpG => Kind::Double,
        }
    }

    /// The kind of the second operand, for the instructions that have one.
    pub open spec fn second(self) -> Option<Kind> {
        match self {
            FloatOp::FAdd => Some(Kind::Float),
            FloatOp::FSub => Some(Kind::Float),
            FloatOp::FMul => Some(Kind::Float),
            FloatOp::FDiv => Some(Kind::Float),
            FloatOp::FRem => Some(Kind::Float),
            FloatOp::DAdd => Some(Kind::Double),
            FloatOp::DSub => Some(Kind::Double),
            FloatOp::DMul => Some(Kind::Double),
            FloatOp::DDiv => Some(Kind::Double),
            FloatOp::DRem => Some(Kind::Double),
            FloatOp::FCmpL => Some(Kind::Float),
            FloatOp::FCmpG => Some(Kind::Float),
            FloatOp::DCmpL => Some(Kind::Double),
            FloatOp::DCmpG => Some(Kind::Double),
            _ => None,
        }
    }

    /// The kind of the result.
    pub open spec fn result(self) -> Kind {
        match self {
            FloatOp::FAdd => Kind::Float,
            FloatOp::FSub => Kind::Float,
            FloatOp::FMul => Kind::Float,
            FloatOp::FDiv => Kind::Float,
            FloatOp::FRem => Kind::Float,
            FloatOp::FNeg => Kind::Float,
            FloatOp::DAdd => Kind::Double,
            FloatOp::DSub => Kind::Double,
            FloatOp::DMul => Kind::Double,
            FloatOp::DDiv => Kind::Double,
            FloatOp::DRem => Kind::Double,
            FloatOp::DNeg => Kind::Double,
            FloatOp::I2F => Kind::Float,
            FloatOp::I2D => Kind::Double,
            FloatOp::L2F => Kind::Float,
            FloatOp::L2D => Kind::Double,
            FloatOp::F2I => Kind::Int,
            FloatOp::F2L => Kind::Long,
            FloatOp::F2D => Kind::Double,
            FloatOp::D2I => Kind::Int,
            FloatOp::D2L => Kind::Long,
            FloatOp::D2F => Kind::Float,
            FloatOp::FCmpL => Kind::Int,
            FloatOp::FCmpG => Kind::Int,
            FloatOp::DCmpL => Kind::Int,
            FloatOp::DCmpG => Kind::Int,
        }
    }

    /// True for the four comparisons.
    pub open spec fn compares(self) -> bool {
        self == FloatOp::FCmpL || self == FloatOp::FCmpG || self == FloatOp::DCmpL || self
            == FloatOp::DCmpG
    }

    /// What a comparison pushes for an unordered pair: -1 for the `l`
    /// forms, 1 for the `g` forms.
    pub open spec fn unordered(self) -> i32 {
        if self == FloatOp::FCmpG || self == FloatOp::DCmpG {
            1i32
        } else {
            -1i32
        }
    }

    /// The value that the instruction pushes for `answer`: the value of an
    /// answer of the result's kind, and for a comparison -1, 0 or 1 as the
    /// first operand is less than, equal to or greater than the second.
    /// `None` for an answer that does not fit the instruction.
    pub open spec fn pushed(self, answer: FloatAnswer) -> Option<JValue> {
        if self.compares() {
            match answer {
                FloatAnswer::Less => Some(JValue::Int(-1i32)),
                FloatAnswer::Equal => Some(JValue::Int(0i32)),
                FloatAnswer::Greater => Some(JValue::Int(1i32)),
                FloatAnswer::Unordered => Some(JValue::Int(self.unordered())),
                FloatAnswer::Value(_) => None,
            }
        } else {
            match answer {
                FloatAnswer::Value(v) => if self.result().admits(v) {
                    Some(v)
                } else {
                    None
                },
                _ => None,
            }
        }
    }

    /// Computes `first`.
    pub fn first_kind(self) -> (r: Kind)
        ensures
            r == self.first(),
    {
        match self {
            FloatOp::FAdd => Kind::Float,
            FloatOp::FSub => Kind::Float,
            FloatOp::FMul => Kind::Float,
            FloatOp::FDiv => Kind::Float,
            FloatOp::FRem => Kind::Float,
            FloatOp::FNeg => Kind::Float,
            FloatOp::DAdd => Kind::Double,
            FloatOp::DSub => Kind::Double,
            FloatOp::DMul => Kind::Double,
            FloatOp::DDiv => Kind::Double,
            FloatOp::DRem => Kind::Double,
            FloatOp::DNeg => Kind::Double,
            FloatOp::I2F => Kind::Int,
            FloatOp::I2D => Kind::Int,
            FloatOp::L2F => Kind::Long,
            FloatOp::L2D => Kind::Long,
            FloatOp::F2I => Kind::Float,
            FloatOp::F2L => Kind::Float,
            FloatOp::F2D => Kind::Float,
            FloatOp::D2I => Kind::Double,
            FloatOp::D2L => Kind::Double,
            FloatOp::D2F => Kind::Double,
            FloatOp::FCmpL => Kind::Float,
            FloatOp::FCmpG => Kind::Float,
            FloatOp::DCmpL => Kind::Double,
            FloatOp::DCmpG => Kind::Double,
        }
    }

    /// Computes `second`.
    pub fn second_kind(self) -> (r: Option<Kind>)
        ensures
            r == self.second(),
    {
        match self {
            FloatOp::FAdd => Some(Kind::Float),
            FloatOp::FSub => Some(Kind::Float),
            FloatOp::FMul => Some(Kind::Float),
            FloatOp::FDiv => Some(Kind::Float),
            FloatOp::FRem => Some(Kind::Float),
            FloatOp::DAdd => Some(Kind::Double),
            FloatOp::DSub => Some(Kind::Double),
            FloatOp::DMul => Some(Kind::Double),
            FloatOp::DDiv => Some(Kind::Double),
            FloatOp::DRem => Some(Kind::Double),
            FloatOp::FCmpL => Some(Kind::Float),
            FloatOp::FCmpG => Some(Kind::Float),
            FloatOp::DCmpL => Some(Kind::Double),
            FloatOp::DCmpG => Some(Kind::Double),
            _ => None,
        }
    }

    /// Computes `result`.
    pub fn result_kind(self) -> (r: Kind)
        ensures
            r == self.result(),
    {
        match self {
            FloatOp::FAdd => Kind::Float,
            FloatOp::FSub => Kind::Float,
            FloatOp::FMul => Kind::Float,
            FloatOp::FDiv => Kind::Float,
            FloatOp::FRem => Kind::Float,
            FloatOp::FNeg => Kind::Float,
            FloatOp::DAdd => Kind::Double,
            FloatOp::DSub => Kind::Double,
            FloatOp::DMul => Kind::Double,
            FloatOp::DDiv => Kind::Double,
            FloatOp::DRem => Kind::Double,
            FloatOp::DNeg => Kind::Double,
            FloatOp::I2F => Kind::Float,
            FloatOp::I2D => Kind::Double,
            FloatOp::L2F => Kind::Float,
            FloatOp::L2D => Kind::Double,
            FloatOp::F2I => Kind::Int,
            FloatOp::F2L => Kind::Long,
            FloatOp::F2D => Kind::Double,
            FloatOp::D2I => Kind::Int,
            FloatOp::D2L => Kind::Long,
            FloatOp::D2F => Kind::Float,
            FloatOp::FCmpL => Kind::Int,
            FloatOp::FCmpG => Kind::Int,
            FloatOp::DCmpL => Kind::Int,
            FloatOp::DCmpG => Kind::Int,
        }
    }

    /// Computes `pushed`.
    pub fn value_for(self, answer: FloatAnswer) -> (r: Option<JValue>)
        ensures
            r == self.pushed(answer),
    {
        let greater_when_unordered = match self {
            FloatOp::FCmpG => Some(true),
            FloatOp::DCmpG => Some(true),
            FloatOp::FCmpL => Some(false),
            FloatOp::DCmpL => Some(false),
            _ => None,
        };
        match greater_when_unordered {
            Some(greater) => match answer {
                FloatAnswer::Less => Some(JValue::Int(-1)),
                FloatAnswer::Equal => Some(JValue::Int(0)),
                FloatAnswer::Greater => Some(JValue::Int(1)),
                FloatAnswer::Unordered => if greater {
                    Some(JValue::Int(1))
                } else {
                    Some(JValue::Int(-1))
                },
                FloatAnswer::Value(_) => None,
            },
            None => match answer {
                FloatAnswer::Value(v) => if self.result_kind().accepts(v) {
                    Some(v)
                } else {
                    None
                },
                _ => None,
            },
        }
    }
}

/// The request that the instruction `op` makes on the frame `f`: its
/// operands, which must be on the stack (`InterpreterBug`) and of the kinds
/// that the instruction takes (`TypeMismatch`).
pub open spec fn float_request(f: FrameState, op: FloatOp) -> Result<FloatRequest, JVMError> {
    match op.second() {
        Some(kind) => if f.stack.len() < 2 {
            Err(JVMError::InterpreterBug)
        } else if !op.first().admits(top(f.stack, 1)) || !kind.admits(top(f.stack, 0)) {
            Err(JVMError::TypeMismatch)
        } else {
            Ok(FloatRequest { op, x: top(f.stack, 1), y: top(f.stack, 0) })
        },
        None => if f.stack.len() < 1 {
            Err(JVMError::InterpreterBug)
        } else if !op.first().admits(top(f.stack, 0)) {
            Err(JVMError::TypeMismatch)
        } else {
            Ok(FloatRequest { op, x: top(f.stack, 0), y: JValue::Null })
        },
    }
}

/// What the instruction `op` makes of the frame `f` when the answer to its
/// request is `answer`: the operands are replaced by the value that the
/// answer stands for.  An answer that does not fit the instruction is an
/// `InterpreterBug`.
pub open spec fn float_result(f: FrameState, op: FloatOp, answer: FloatAnswer) -> Result<
    Outcome,
    JVMError,
> {
    match float_request(f, op) {
        Err(e) => Err(e),
        Ok(_) => match op.pushed(answer) {
            None => Err(JVMError::InterpreterBug),
            Some(v) => Ok(
                Outcome {
                    stack: below(
                        f.stack,
                        if op.second() is Some {
                            2
                        } else {
                            1
                        },
                    ).push(v),
                    locals: f.locals,
                    jump: None,
                },
            ),
        },
    }
}

impl JVM {
    /// The request that the floating-point instruction `op` makes on the
    /// frame.  The frame is not changed.
    pub fn request_float(frame: &StackFrame, op: FloatOp) -> (r: Result<FloatRequest, JVMError>)
        ensures
            r == float_request(frame.state(), op),
    {
        let n = frame.operand_stack.len();
        match op.second_kind() {
            Some(kind) => {
                if n < 2 {
                    return Err(JVMError::InterpreterBug);
                }
                let x = frame.operand_stack[n - 2];
                let y = frame.operand_stack[n - 1];
                if !op.first_kind().accepts(x) || !kind.accepts(y) {
                    return Err(JVMError::TypeMismatch);
                }
                Ok(FloatRequest { op, x, y })
            },
            None => {
                if n < 1 {
                    return Err(JVMError::InterpreterBug);
                }
                let x = frame.operand_stack[n - 1];
                if !op.first_kind().accepts(x) {
                    return Err(JVMError::TypeMismatch);
                }
                Ok(FloatRequest { op, x, y: JValue::Null })
            },
        }
    }

    /// Completes the floating-point instruction `op` with the answer to its
    /// request: the operands are replaced by the result.
    pub fn apply_float(frame: &mut StackFrame, op: FloatOp, answer: FloatAnswer) -> (r: JVMResult)
        ensures
            follows(*old(frame), *final(frame), r, float_result(old(frame).state(), op, answer)),
    {
        let _ = Self::request_float(frame, op)?;
        let v = match op.value_for(answer) {
            Some(v) => v,
            None => {
                return Err(JVMError::InterpreterBug);
            },
        };
        let n = frame.operand_stack.len();
        let k: usize = match op.second_kind() {
            Some(_) => 2,
            None => 1,
        };
        frame.operand_stack.truncate(n - k);
        frame.operand_stack.push(v);
        assert(frame.operand_stack@ =~= below(old(frame).operand_stack@, k as int).push(v));
        Ok(())
    }

    /// `fadd`: the request for the sum of two floats.
    pub fn fadd(frame: &StackFrame) -> (r: Result<FloatRequest, JVMError>)
        ensures
            r == float_request(frame.state(), FloatOp::FAdd),
    {
        Self::request_float(frame, FloatOp::FAdd)
    }

    /// `fsub`: the request for the difference of two floats.
    pub fn fsub(frame: &StackFrame) -> (r: Result<FloatRequest, JVMError>)
        ensures
            r == float_request(frame.state(), FloatOp::FSub),
    {
        Self::request_float(frame, FloatOp::FSub)
    }

    /// `fmul`: the request for the product of two floats.
    pub fn fmul(frame: &StackFrame) -> (r: Result<FloatRequest, JVMError>)
        ensures
            r == float_request(frame.state(), FloatOp::FMul),
    {
        Self::request_float(frame, FloatOp::FMul)
    }

    /// `fdiv`: the request for the quotient of two floats.
    pub fn fdiv(frame: &StackFrame) -> (r: Result<FloatRequest, JVMError>)
        ensures
            r == float_request(frame.state(), FloatOp::FDiv),
    {
        Self::request_float(frame, FloatOp::FDiv)
    }

    /// `frem`: the request for the remainder of two floats.
    pub fn frem(frame: &StackFrame) -> (r: Result<FloatRequest, JVMError>)
        ensures
            r == float_request(frame.state(), FloatOp::FRem),
    {
        Self::request_float(frame, FloatOp::FRem)
    }

    /// `fneg`: the request for the negation of a float.
    pub fn fneg(frame: &StackFrame) -> (r: Result<FloatRequest, JVMError>)
        ensures
            r == float_request(frame.state(), FloatOp::FNeg),
    {
        Self::request_float(frame, FloatOp::FNeg)
    }

    /// `dadd`: the request for the sum of two doubles.
    pub fn dadd(frame: &StackFrame) -> (r: Result<FloatRequest, JVMError>)
        ensures
            r == float_request(frame.state(), FloatOp::DAdd),
    {
        Self::request_float(frame, FloatOp::DAdd)
    }

    /// `dsub`: the request for the difference of two doubles.
    pub fn dsub(frame: &StackFrame) -> (r: Result<FloatRequest, JVMError>)
        ensures
            r == float_request(frame.state(), FloatOp::DSub),
    {
        Self::request_float(frame, FloatOp::DSub)
    }

    /// `dmul`: the request for the product of two doubles.
    pub fn dmul(frame: &StackFrame) -> (r: Result<FloatRequest, JVMError>)
        ensures
            r == float_request(frame.state(), FloatOp::DMul),
    {
        Self::request_float(frame, FloatOp::DMul)
    }

    /// `ddiv`: the request for the quotient of two doubles.
    pub fn ddiv(frame: &StackFrame) -> (r: Result<FloatRequest, JVMError>)
        ensures
            r == float_request(frame.state(), FloatOp::DDiv),
    {
        Self::request_float(frame, FloatOp::DDiv)
    }

    /// `drem`: the request for the remainder of two doubles.
    pub fn drem(frame: &StackFrame) -> (r: Result<FloatRequest, JVMError>)
        ensures
            r == float_request(frame.state(), FloatOp::DRem),
    {
        Self::request_float(frame, FloatOp::DRem)
    }

    /// `dneg`: the request for the negation of a double.
    pub fn dneg(frame: &StackFrame) -> (r: Result<FloatRequest, JVMError>)
        ensures
            r == float_request(frame.state(), FloatOp::DNeg),
    {
        Self::request_float(frame, FloatOp::DNeg)
    }

    /// `i2f`: the request for an integer as a float.
    pub fn i2f(frame: &StackFrame) -> (r: Result<FloatRequest, JVMError>)
        ensures
            r == float_request(frame.state(), FloatOp::I2F),
    {
        Self::request_float(frame, FloatOp::I2F)
    }

    /// `i2d`: the request for an integer as a double.
    pub fn i2d(frame: &StackFrame) -> (r: Result<FloatRequest, JVMError>)
        ensures
            r == float_request(frame.state(), FloatOp::I2D),
    {
        Self::request_float(frame, FloatOp::I2D)
    }

    /// `l2f`: the request for a long as a float.
    pub fn l2f(frame: &StackFrame) -> (r: Result<FloatRequest, JVMError>)
        ensures
            r == float_request(frame.state(), FloatOp::L2F),
    {
        Self::request_float(frame, FloatOp::L2F)
    }

    /// `l2d`: the request for a long as a double.
    pub fn l2d(frame: &StackFrame) -> (r: Result<FloatRequest, JVMError>)
        ensures
            r == float_request(frame.state(), FloatOp::L2D),
    {
        Self::request_float(frame, FloatOp::L2D)
    }

    /// `f2i`: the request for a float as an integer.
    pub fn f2i(frame: &StackFrame) -> (r: Result<FloatRequest, JVMError>)
        ensures
            r == float_request(frame.state(), FloatOp::F2I),
    {
        Self::request_float(frame, FloatOp::F2I)
    }

    /// `f2l`: the request for a float as a long.
    pub fn f2l(frame: &StackFrame) -> (r: Result<FloatRequest, JVMError>)
        ensures
            r == float_request(frame.state(), FloatOp::F2L),
    {
        Self::request_float(frame, FloatOp::F2L)
    }

    /// `f2d`: the request for a float as a double.
    pub fn f2d(frame: &StackFrame) -> (r: Result<FloatRequest, JVMError>)
        ensures
            r == float_request(frame.state(), FloatOp::F2D),
    {
        Self::request_float(frame, FloatOp::F2D)
    }

    /// `d2i`: the request for a double as an integer.
    pub fn d2i(frame: &StackFrame) -> (r: Result<FloatRequest, JVMError>)
        ensures
            r == float_request(frame.state(), FloatOp::D2I),
    {
        Self::request_float(frame, FloatOp::D2I)
    }

    /// `d2l`: the request for a double as a long.
    pub fn d2l(frame: &StackFrame) -> (r: Result<FloatRequest, JVMError>)
        ensures
            r == float_request(frame.state(), FloatOp::D2L),
    {
        Self::request_float(frame, FloatOp::D2L)
    }

    /// `d2f`: the request for a double as a float.
    pub fn d2f(frame: &StackFrame) -> (r: Result<FloatRequest, JVMError>)
        ensures
            r == float_request(frame.state(), FloatOp::D2F),
    {
        Self::request_float(frame, FloatOp::D2F)
    }

    /// `fcmpl`: the request for the comparison of two floats, where an unordered pair counts as less.
    pub fn fcmpl(frame: &StackFrame) -> (r: Result<FloatRequest, JVMError>)
        ensures
            r == float_request(frame.state(), FloatOp::FCmpL),
    {
        Self::request_float(frame, FloatOp::FCmpL)
    }

    /// `fcmpg`: the request for the comparison of two floats, where an unordered pair counts as greater.
    pub fn fcmpg(frame: &StackFrame) -> (r: Result<FloatRequest, JVMError>)
        ensures
            r == float_request(frame.state(), FloatOp::FCmpG),
    {
        Self::request_float(frame, FloatOp::FCmpG)
    }

    /// `dcmpl`: the request for the comparison of two doubles, where an unordered pair counts as less.
    pub fn dcmpl(frame: &StackFrame) -> (r: Result<FloatRequest, JVMError>)
        ensures
            r == float_request(frame.state(), FloatOp::DCmpL),
    {
        Self::request_float(frame, FloatOp::DCmpL)
    }

    /// `dcmpg`: the request for the comparison of two doubles, where an unordered pair counts as greater.
    pub fn dcmpg(frame: &StackFrame) -> (r: Result<FloatRequest, JVMError>)
        ensures
            r == float_request(frame.state(), FloatOp::DCmpG),
    {
        Self::request_float(frame, FloatOp::DCmpG)
    }

}

} // verus!
