//! Execution of one decoded instruction.
use crate::arith::u8_to_u16;
use crate::error::JVMError;
use crate::reader::ConstantPoolInfo;
use crate::vm::constant_pool::lookup_class_name;
use crate::vm::dispatch_effect::is_unsupported;
use crate::vm::jthread::JThread;
use crate::vm::jvm::{JVMResult, JVM};
use crate::vm::machine_effect::{
    asked, class_at, class_behind, executes, executes_on_frame, handled, moves_on, needed_class,
    then_advances, Progress,
};
use crate::vm::opcode::Opcode;
use crate::vm::stack_frame::StackFrame;
use vstd::prelude::*;

verus! {

/// The name of the class at the Class entry of `cp` at `index`, if there is
/// one.
pub fn class_name_if_any(cp: &Vec<ConstantPoolInfo>, index: u16) -> (r: Option<String>)
    ensures
        r == class_at(cp@, index),
{
    match lookup_class_name(cp, index) {
        Ok(name) => Some(name),
        Err(_) => None,
    }
}

/// The name of the class that the member reference or class constant of
/// `cp` at `index` names, if the entry is one of these.
pub fn class_name_behind(cp: &Vec<ConstantPoolInfo>, index: u16) -> (r: Option<String>)
    ensures
        r == class_behind(cp@, index),
{
    let i = index as usize;
    if i >= cp.len() {
        return None;
    }
    match &cp[i] {
        ConstantPoolInfo::FieldRef { class_index, name_and_type_index } => class_name_if_any(
            cp,
            *class_index,
        ),
        ConstantPoolInfo::MethodRef { class_index, name_and_type_index } => class_name_if_any(
            cp,
            *class_index,
        ),
        ConstantPoolInfo::Class { name_index } => class_name_if_any(cp, index),
        _ => None,
    }
}

impl JVM {
    /// The name of the class that the instruction `op` of a method of the
    /// class `class` needs loaded.
    pub fn class_needed(&self, class: usize, op: &Opcode) -> (r: Option<String>)
        ensures
            r == needed_class(self.class_loader, class, *op),
    {
        if class >= self.class_loader.classes.len() {
            return None;
        }
        let cp = &self.class_loader.classes[class].constant_pool.cp;
        match op {
            Opcode::New(index) => class_name_if_any(cp, *index),
            Opcode::GetField(index) => class_name_behind(cp, *index),
            Opcode::PutField(index) => class_name_behind(cp, *index),
            Opcode::InvokeSpecial(index) => class_name_behind(cp, *index),
            Opcode::Ldc(index) => class_name_behind(cp, u8_to_u16(*index)),
            Opcode::LdcW(index) => class_name_behind(cp, *index),
            _ => None,
        }
    }

    /// What the machine reports for an instruction whose handler returned
    /// `r`.
    pub fn report(r: JVMResult, needed: Option<String>) -> (p: Result<Progress, JVMError>)
        ensures
            p == asked(r, needed),
    {
        match r {
            Ok(()) => Ok(Progress::Running),
            Err(JVMError::ClassNotFound) => match needed {
                Some(name) => Ok(Progress::NeedClass(name)),
                None => Err(JVMError::ClassNotFound),
            },
            Err(e) => Err(e),
        }
    }

    /// Moves `frame` behind an instruction of `len` bytes whose handler
    /// returned `r`, and reports.
    pub(crate) fn advance(frame: &mut StackFrame, r: JVMResult, len: usize, needed: Option<String>) -> (p:
        Result<Progress, JVMError>)
        requires
            old(frame).pc + len <= usize::MAX,
        ensures
            then_advances(*old(frame), *final(frame), r, len as int),
            p == asked(r, needed),
    {
        if r.is_ok() {
            frame.pc = frame.pc + len;
        }
        Self::report(r, needed)
    }

    /// Moves `frame` behind an instruction of `len` bytes that did not
    /// branch, and reports.
    pub(crate) fn advance_unless_branched(frame: &mut StackFrame, r: Result<bool, JVMError>, len: usize) -> (p:
        Result<Progress, JVMError>)
        requires
            r == Ok::<bool, JVMError>(false) ==> old(frame).pc + len <= usize::MAX,
        ensures
            moves_on(*old(frame), *final(frame), r == Ok::<bool, JVMError>(false), len as int),
            r is Ok ==> p == Ok::<Progress, JVMError>(Progress::Running),
            r is Err ==> p == Err::<Progress, JVMError>(r->Err_0),
    {
        match r {
            Ok(false) => {
                frame.pc = frame.pc + len;
                Ok(Progress::Running)
            },
            Ok(true) => Ok(Progress::Running),
            Err(e) => Err(e),
        }
    }

    /// Executes on `frame` an instruction that works on one frame.
    pub(crate) fn execute_on_frame(&mut self, frame: &mut StackFrame, op: &Opcode, len: usize) -> (r: Result<
        Progress,
        JVMError,
    >)
        requires
            old(self).wf(),
            1 <= len,
            old(frame).pc + len <= old(frame).method.code@.len(),
        ensures
            executes_on_frame(*old(self), *final(self), *old(frame), *final(frame), *op, len as int, r),
            final(self).wf(),
            old(frame).wf() ==> final(frame).wf(),
    {
        reveal(executes_on_frame);
        let _ = frame.method.code.len();
        if let Some(branched) = Self::execute_local(frame, op) {
            return Self::advance_unless_branched(frame, branched, len);
        }
        if let Some(r) = self.execute_array_load(frame, op) {
            return Self::advance(frame, r, len, None);
        }
        if let Some(r) = self.execute_array_store(frame, op) {
            let ghost mid = *frame;
            let ghost ran = |mid: StackFrame, rr: JVMResult|
                JVM::stores(
                    *old(self),
                    *self,
                    *old(frame),
                    mid,
                    rr,
                    crate::vm::dispatch_effect::array_store_op(*op)->0,
                );
            assert(ran(mid, r));
            return Self::advance(frame, r, len, None);
        }
        if let Some(request) = Self::execute_float(frame, op) {
            return match request {
                Ok(request) => Ok(Progress::NeedFloat(request)),
                Err(e) => Err(e),
            };
        }
        let ghost pre = *old(self);
        let ghost before = *old(frame);
        let ghost f = before.state();
        let ghost class = before.class;
        match op {
            Opcode::ArrayLength => {
                let r = self.arraylength(frame);
                Self::advance(frame, r, len, None)
            },
            Opcode::Ldc2W(index) => {
                let r = self.ldc2_w(frame, *index);
                Self::advance(frame, r, len, None)
            },
            Opcode::GetField(index) => {
                let needed = self.class_needed(frame.class, op);
                let r = self.getfield(frame, *index);
                let ghost mid = *frame;
                let ghost post = *self;
                let ghost ran = |mid: StackFrame, rr: JVMResult|
                    crate::vm::stack_frame::follows(
                        before,
                        mid,
                        rr,
                        crate::vm::object_effect::getfield_outcome(pre, f, class, *index),
                    ) && crate::vm::object_effect::linked_in(pre, post, class, *index);
                assert(ran(mid, r));
                Self::advance(frame, r, len, needed)
            },
            Opcode::PutField(index) => {
                let needed = self.class_needed(frame.class, op);
                let r = self.putfield(frame, *index);
                let ghost mid = *frame;
                let ghost post = *self;
                let ghost ran = |mid: StackFrame, rr: JVMResult|
                    JVM::puts(pre, post, before, mid, rr, *index);
                assert(ran(mid, r));
                Self::advance(frame, r, len, needed)
            },
            Opcode::New(index) => {
                let needed = self.class_needed(frame.class, op);
                let r = self.new_op(frame, *index);
                let ghost mid = *frame;
                let ghost post = *self;
                let ghost ran = |mid: StackFrame, rr: JVMResult|
                    JVM::creates(pre, post, before, mid, rr, *index);
                assert(ran(mid, r));
                Self::advance(frame, r, len, needed)
            },
            Opcode::NewArray(ty) => {
                let r = self.newarray(frame, *ty);
                let ghost mid = *frame;
                let ghost post = *self;
                let ghost ran = |mid: StackFrame, rr: JVMResult|
                    JVM::creates_array(pre, post, before, mid, rr, *ty);
                assert(ran(mid, r));
                Self::advance(frame, r, len, None)
            },
            Opcode::ANewArray(index) => {
                let r = self.anewarray(frame, *index);
                let ghost mid = *frame;
                let ghost post = *self;
                let ghost ran = |mid: StackFrame, rr: JVMResult|
                    JVM::creates_reference_array(pre, post, before, mid, rr, *index);
                assert(ran(mid, r));
                Self::advance(frame, r, len, None)
            },
            Opcode::Ldc(index) => {
                let needed = self.class_needed(frame.class, op);
                let r = self.ldc(frame, u8_to_u16(*index));
                let ghost mid = *frame;
                let ghost post = *self;
                let ghost ran = |mid: StackFrame, rr: JVMResult|
                    crate::vm::ldc::loads_constant(pre, post, before, mid, rr, *index as u16);
                assert(ran(mid, r));
                Self::advance(frame, r, len, needed)
            },
            Opcode::LdcW(index) => {
                let needed = self.class_needed(frame.class, op);
                let r = self.ldc(frame, *index);
                let ghost mid = *frame;
                let ghost post = *self;
                let ghost ran = |mid: StackFrame, rr: JVMResult|
                    crate::vm::ldc::loads_constant(pre, post, before, mid, rr, *index);
                assert(ran(mid, r));
                Self::advance(frame, r, len, needed)
            },
            _ => Err(JVMError::UnsupportedInstruction),
        }
    }

    /// Executes the instruction `opcode`, which was decoded at the position
    /// of the top frame of `thread` and is `len` bytes long.
    ///
    /// An instruction that does not branch leaves the frame behind itself;
    /// one that branches leaves it at its target; a call leaves the caller
    /// behind the instruction and the callee at its start; a return leaves
    /// the caller where it stood.  The report is `Running` when the thread
    /// can go on, `NeedClass` when a class must be loaded first, and
    /// `NeedFloat` when the instruction waits for floating-point
    /// arithmetic; in the last two cases nothing was changed.
    pub fn execute_opcode(&mut self, thread: &mut JThread, opcode: &Opcode, len: usize) -> (r: Result<
        Progress,
        JVMError,
    >)
        requires
            old(self).wf(),
        ensures
            executes(*old(self), *final(self), *old(thread), *final(thread), *opcode, len as int, r),
            final(self).wf(),
            old(thread).wf() ==> final(thread).wf(),
    {
        reveal(executes);
        let depth = thread.stack.len();
        if depth == 0 {
            return Ok(Progress::Finished);
        }
        let pc = thread.stack[depth - 1].pc;
        let code_len = thread.stack[depth - 1].method.code.len();
        if len < 1 || pc > code_len || len > code_len - pc {
            return Err(JVMError::InterpreterBug);
        }
        if let Some(r) = Self::execute_return(thread, opcode) {
            return Self::report(r, None);
        }
        if Self::unsupported(opcode) {
            return Err(JVMError::UnsupportedInstruction);
        }
        match opcode {
            Opcode::InvokeSpecial(index) => {
                let needed = self.class_needed(thread.stack[depth - 1].class, opcode);
                let r = self.invokespecial(thread, *index, len);
                assert(crate::vm::invoke::invokes(
                    *old(self),
                    *self,
                    *old(thread),
                    *thread,
                    r,
                    *index,
                    len as int,
                ));
                Self::report(r, needed)
            },
            _ => self.execute_on_frame(&mut thread.stack[depth - 1], opcode, len),
        }
    }
}

} // verus!
