//! What executing one instruction does to the machine and to a thread.
use crate::error::JVMError;
use crate::reader::ConstantPoolInfo;
use crate::vm::class_loader::ClassLoader;
use crate::vm::constant_pool::{class_name_at, utf8_at};
use crate::vm::dispatch_effect::{
    array_load_op, array_store_op, effect, float_op, is_unsupported, return_kind,
};
use crate::vm::effect::Outcome;
use crate::vm::floats::{float_request, FloatRequest};
use crate::vm::frame_return::returned;
use crate::vm::heap_effect::{array_length_of, array_load};
use crate::vm::invoke::invokes;
use crate::vm::jthread::JThread;
use crate::vm::jvm::{JVMResult, JVM};
use crate::vm::ldc::{ldc2_outcome, loads_constant};
use crate::vm::object_effect::{getfield_outcome, linked_in};
use crate::vm::opcode::Opcode;
use crate::vm::stack_frame::{follows, StackFrame};
use vstd::prelude::*;

verus! {

/// How far a thread has come.
#[derive(Debug, PartialEq, Eq)]
pub enum Progress {
    /// The thread can go on.
    Running,
    /// The thread has no frames left.
    Finished,
    /// The instruction at hand needs the class of this name, which is not
    /// loaded.  Nothing was changed: once the class is loaded, the
    /// instruction can be executed.
    NeedClass(String),
    /// The instruction at hand needs floating-point arithmetic on these
    /// operands.  Nothing was changed: the instruction is completed by
    /// handing in the answer.
    NeedFloat(FloatRequest),
}

/// The result of an instruction as its handler returned it.
pub open spec fn handled(r: Result<Progress, JVMError>) -> JVMResult {
    match r {
        Ok(_) => Ok(()),
        Err(e) => Err(e),
    }
}

/// What the machine reports for an instruction whose handler returned `r`:
/// the thread goes on after a success, and a class that is missing is
/// asked for by name where the name `needed` is known.
pub open spec fn asked(r: JVMResult, needed: Option<String>) -> Result<Progress, JVMError> {
    match r {
        Ok(()) => Ok(Progress::Running),
        Err(JVMError::ClassNotFound) => match needed {
            Some(name) => Ok(Progress::NeedClass(name)),
            None => Err(JVMError::ClassNotFound),
        },
        Err(e) => Err(e),
    }
}

/// The name of the class at the Class entry `index`, if there is one.
pub open spec fn class_at(cp: Seq<ConstantPoolInfo>, index: u16) -> Option<String> {
    match class_name_at(cp, index) {
        Ok(name) => Some(name),
        Err(_) => None,
    }
}

/// The name of the class that the member reference or class constant at
/// `index` names, if the entry is one of these.
pub open spec fn class_behind(cp: Seq<ConstantPoolInfo>, index: u16) -> Option<String> {
    if index >= cp.len() {
        None
    } else {
        match cp[index as int] {
            ConstantPoolInfo::FieldRef { class_index, name_and_type_index } => class_at(
                cp,
                class_index,
            ),
            ConstantPoolInfo::MethodRef { class_index, name_and_type_index } => class_at(
                cp,
                class_index,
            ),
            ConstantPoolInfo::Class { name_index } => class_at(cp, index),
            _ => None,
        }
    }
}

/// The name of the class that the instruction `op` of a method of the
/// class `class` needs loaded.
pub open spec fn needed_class(loader: ClassLoader, class: usize, op: Opcode) -> Option<String> {
    if class >= loader.classes@.len() {
        None
    } else {
        let cp = loader.classes@[class as int].constant_pool.cp@;
        match op {
            Opcode::New(index) => class_at(cp, index),
            Opcode::GetField(index) => class_behind(cp, index),
            Opcode::PutField(index) => class_behind(cp, index),
            Opcode::InvokeSpecial(index) => class_behind(cp, index),
            Opcode::Ldc(index) => class_behind(cp, index as u16),
            Opcode::LdcW(index) => class_behind(cp, index),
            _ => None,
        }
    }
}

/// The frames below the top frame are the same in `before` and `after`.
pub open spec fn on_top(before: JThread, after: JThread) -> bool {
    &&& after.stack@.len() == before.stack@.len()
    &&& forall|i: int|
        0 <= i < before.stack@.len() - 1 ==> #[trigger] after.stack@[i] == before.stack@[i]
}

/// `after` is the frame `mid` behind an instruction of `len` bytes whose
/// handler returned `r`: after a success the position has moved on by
/// `len`, and after a fault the frame is as it was.
pub open spec fn then_advances(mid: StackFrame, after: StackFrame, r: JVMResult, len: int) -> bool {
    moves_on(mid, after, r is Ok, len)
}

/// `after` is the frame `mid` with its position moved on by `len` when
/// `moved`, and else the frame `mid` as it is.
pub open spec fn moves_on(mid: StackFrame, after: StackFrame, moved: bool, len: int) -> bool {
    if moved {
        after == (StackFrame { pc: (mid.pc + len) as usize, ..mid })
    } else {
        after == mid
    }
}

/// `after` is the frame `before` behind an instruction of `len` bytes with
/// the outcome `expected`, whose handler returned `r`: the frame holds the
/// stack and the locals of the outcome and stands at the branch target, or
/// behind the instruction if it did not branch.  After a fault the frame
/// is as it was.
pub open spec fn steps_frame(
    before: StackFrame,
    after: StackFrame,
    r: JVMResult,
    expected: Result<Outcome, JVMError>,
    len: int,
) -> bool {
    &&& before.wf() ==> after.wf()
    &&& match expected {
        Err(e) => r == Err::<(), JVMError>(e) && after == before,
        Ok(o) => {
            &&& r is Ok
            &&& after.operand_stack@ == o.stack
            &&& after.locals@ == o.locals
            &&& after.class == before.class
            &&& after.method == before.method
            &&& after.pc == (match o.jump {
                Some(t) => t,
                None => before.pc + len,
            })
        },
    }
}

/// A handler ran on the frame `before` and left a frame and a result of
/// which `ran` holds; then the frame moved behind the instruction of `len`
/// bytes if the handler succeeded, which gave `after`, and the machine
/// reported `r`, asking for the class `needed` if the handler missed a
/// class.
pub open spec fn handled_then(
    after: StackFrame,
    r: Result<Progress, JVMError>,
    len: int,
    needed: Option<String>,
    ran: spec_fn(StackFrame, JVMResult) -> bool,
) -> bool {
    exists|mid: StackFrame, rr: JVMResult|
        #![trigger ran(mid, rr)]
        ran(mid, rr) && then_advances(mid, after, rr, len) && r == asked(rr, needed)
}

/// What the instruction `op` of `len` bytes does when it works on the top
/// frame `before` of a thread and on the machine, and `r` is what the
/// machine reports.  Instructions that work on the whole thread are not
/// covered.
#[verifier::opaque]
pub open spec fn executes_on_frame(
    pre: JVM,
    post: JVM,
    before: StackFrame,
    after: StackFrame,
    op: Opcode,
    len: int,
    r: Result<Progress, JVMError>,
) -> bool {
    let f = before.state();
    let class = before.class;
    let needed = needed_class(pre.class_loader, class, op);
    if effect(op, f) is Some {
        &&& post == pre
        &&& r is Ok ==> r->Ok_0 is Running
        &&& steps_frame(before, after, handled(r), effect(op, f)->0, len)
    } else if array_load_op(op) is Some {
        &&& post == pre
        &&& r is Ok ==> r->Ok_0 is Running
        &&& steps_frame(before, after, handled(r), array_load(f, pre.heap@, array_load_op(op)->0), len)
    } else if array_store_op(op) is Some {
        handled_then(
            after,
            r,
            len,
            None,
            |mid: StackFrame, rr: JVMResult|
                JVM::stores(pre, post, before, mid, rr, array_store_op(op)->0),
        )
    } else if float_op(op) is Some {
        &&& post == pre
        &&& after == before
        &&& match float_request(f, float_op(op)->0) {
            Ok(request) => r == Ok::<Progress, JVMError>(Progress::NeedFloat(request)),
            Err(e) => r == Err::<Progress, JVMError>(e),
        }
    } else {
        match op {
            Opcode::ArrayLength => {
                &&& post == pre
                &&& r is Ok ==> r->Ok_0 is Running
                &&& steps_frame(before, after, handled(r), array_length_of(f, pre.heap@), len)
            },
            Opcode::Ldc2W(index) => {
                &&& post == pre
                &&& r is Ok ==> r->Ok_0 is Running
                &&& steps_frame(
                    before,
                    after,
                    handled(r),
                    ldc2_outcome(pre.class_loader, f, class, index),
                    len,
                )
            },
            Opcode::GetField(index) => handled_then(
                after,
                r,
                len,
                needed,
                |mid: StackFrame, rr: JVMResult|
                    follows(before, mid, rr, getfield_outcome(pre, f, class, index)) && linked_in(
                        pre,
                        post,
                        class,
                        index,
                    ),
            ),
            Opcode::PutField(index) => handled_then(
                after,
                r,
                len,
                needed,
                |mid: StackFrame, rr: JVMResult| JVM::puts(pre, post, before, mid, rr, index),
            ),
            Opcode::New(index) => handled_then(
                after,
                r,
                len,
                needed,
                |mid: StackFrame, rr: JVMResult| JVM::creates(pre, post, before, mid, rr, index),
            ),
            Opcode::NewArray(ty) => handled_then(
                after,
                r,
                len,
                None,
                |mid: StackFrame, rr: JVMResult| JVM::creates_array(pre, post, before, mid, rr, ty),
            ),
            Opcode::ANewArray(index) => handled_then(
                after,
                r,
                len,
                None,
                |mid: StackFrame, rr: JVMResult|
                    JVM::creates_reference_array(pre, post, before, mid, rr, index),
            ),
            Opcode::Ldc(index) => handled_then(
                after,
                r,
                len,
                needed,
                |mid: StackFrame, rr: JVMResult|
                    loads_constant(pre, post, before, mid, rr, index as u16),
            ),
            Opcode::LdcW(index) => handled_then(
                after,
                r,
                len,
                needed,
                |mid: StackFrame, rr: JVMResult| loads_constant(pre, post, before, mid, rr, index),
            ),
            _ => r == Err::<Progress, JVMError>(JVMError::UnsupportedInstruction) && post == pre
                && after == before,
        }
    }
}

/// The call `op` ran and the machine reported `r`, asking for the class
/// that the call needs if it is not loaded.
pub open spec fn invoked(
    pre: JVM,
    post: JVM,
    before: JThread,
    after: JThread,
    op: Opcode,
    len: int,
    r: Result<Progress, JVMError>,
) -> bool {
    exists|rr: JVMResult|
        #![trigger invokes(pre, post, before, after, rr, op->InvokeSpecial_0, len)]
        invokes(pre, post, before, after, rr, op->InvokeSpecial_0, len) && r == asked(
            rr,
            needed_class(pre.class_loader, before.stack@.last().class, op),
        )
}

/// What executing the instruction `op` of `len` bytes does, where `r` is
/// what the machine reports.
///
/// A thread without frames is finished.  The instruction must lie within
/// the code of the top frame (`InterpreterBug`).  A return and a call work
/// on the thread; every other instruction works on the top frame, and the
/// frames below it stay as they are.  An instruction that the machine does
/// not execute is reported as `UnsupportedInstruction`.
#[verifier::opaque]
pub open spec fn executes(
    pre: JVM,
    post: JVM,
    before: JThread,
    after: JThread,
    op: Opcode,
    len: int,
    r: Result<Progress, JVMError>,
) -> bool {
    &&& pre.wf() ==> post.wf()
    &&& before.wf() ==> after.wf()
    &&& if before.stack@.len() == 0 {
        r == Ok::<Progress, JVMError>(Progress::Finished) && post == pre && after == before
    } else if len < 1 || before.stack@.last().pc + len > before.stack@.last().method.code@.len() {
        r == Err::<Progress, JVMError>(JVMError::InterpreterBug) && post == pre && after == before
    } else if return_kind(op) is Some {
        &&& post == pre
        &&& r is Ok ==> r->Ok_0 is Running
        &&& returned(before, after, handled(r), return_kind(op)->0)
    } else if is_unsupported(op) {
        r == Err::<Progress, JVMError>(JVMError::UnsupportedInstruction) && post == pre && after
            == before
    } else if op is InvokeSpecial {
        invoked(pre, post, before, after, op, len, r)
    } else {
        &&& on_top(before, after)
        &&& executes_on_frame(pre, post, before.stack@.last(), after.stack@.last(), op, len, r)
    }
}

} // verus!
