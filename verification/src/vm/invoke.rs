//! The instruction that invokes a method.
use crate::error::{link_error, link_fault, DecodeErrorKind, JVMError};
use crate::vm::constant_pool::ResolvedConstant;
use crate::vm::effect::{below, top};
use crate::vm::jthread::JThread;
use crate::vm::jvalue::{DescriptorType, JValue};
use crate::vm::jvm::{JVMResult, JVM};
use crate::vm::method::{describes, is_method_descriptor, Method};
use crate::vm::object_effect::{linked_in, resolved};
use crate::vm::stack_frame::StackFrame;
use std::rc::Rc;
use vstd::prelude::*;

verus! {

/// The local slot of the argument `i` of a method whose arguments have the
/// types `args`: slot 0 holds the receiver, and a long or a double takes
/// two slots.
pub open spec fn slot_of(args: Seq<DescriptorType>, i: int) -> int
    decreases i,
{
    if i <= 0 {
        1
    } else {
        slot_of(args, i - 1) + args[i - 1].spec_slots()
    }
}

/// The locals of a new frame of `max_locals` slots after the receiver and
/// the first `n` arguments are in place: each argument stands in its slot,
/// and every other slot is null.
pub open spec fn placed(
    args: Seq<DescriptorType>,
    values: Seq<JValue>,
    receiver: JValue,
    max_locals: nat,
    n: int,
) -> Seq<JValue>
    decreases n,
{
    if n <= 0 {
        Seq::new(max_locals, |k: int| JValue::Null).update(0, receiver)
    } else {
        placed(args, values, receiver, max_locals, n - 1).update(slot_of(args, n - 1), values[n - 1])
    }
}

/// The receiver of a call with `n` arguments: the reference below the
/// arguments, which must be there (`InterpreterBug`), a reference
/// (`TypeMismatch`) and not null (`NullDereference`).  The locals of the
/// callee must have room for the receiver and the arguments, and the
/// caller's code for the position behind the instruction
/// (`InterpreterBug`).
pub open spec fn call_receiver(
    caller: StackFrame,
    method: Method,
    args: Seq<DescriptorType>,
    len: int,
) -> Result<JValue, JVMError> {
    let n = args.len() as int;
    if caller.operand_stack@.len() < n + 1 {
        Err(JVMError::InterpreterBug)
    } else {
        match top(caller.operand_stack@, n) {
            JValue::Reference(h) => if slot_of(args, n) > method.max_locals {
                Err(JVMError::InterpreterBug)
            } else if caller.pc + len > caller.method.code@.len() {
                Err(JVMError::InterpreterBug)
            } else {
                Ok(JValue::Reference(h))
            },
            JValue::Null => Err(JVMError::NullDereference),
            _ => Err(JVMError::TypeMismatch),
        }
    }
}

/// What a call of `method` of the class `class` with arguments of the
/// types `args` does to a thread whose top frame is the caller: the caller
/// loses the receiver and the arguments and continues behind the
/// instruction of `len` bytes; a new frame for the method is on top, at
/// position 0, with an empty stack and the receiver and the arguments in
/// its locals.  A fault changes nothing.
pub open spec fn calls(
    pre: JThread,
    post: JThread,
    r: JVMResult,
    method: Rc<Method>,
    class: usize,
    args: Seq<DescriptorType>,
    len: int,
) -> bool {
    let caller = pre.stack@.last();
    let n = args.len() as int;
    match call_receiver(caller, *method, args, len) {
        Err(e) => r == Err::<(), JVMError>(e) && post == pre,
        Ok(receiver) => {
            let depth = pre.stack@.len() as int;
            &&& r is Ok
            &&& post.stack@.len() == depth + 1
            &&& forall|i: int| 0 <= i < depth - 1 ==> #[trigger] post.stack@[i] == pre.stack@[i]
            &&& post.stack@[depth - 1].operand_stack@ == below(caller.operand_stack@, n + 1)
            &&& post.stack@[depth - 1].locals == caller.locals
            &&& post.stack@[depth - 1].class == caller.class
            &&& post.stack@[depth - 1].method == caller.method
            &&& post.stack@[depth - 1].pc == caller.pc + len
            &&& post.stack@[depth].class == class
            &&& post.stack@[depth].method == method
            &&& post.stack@[depth].pc == 0
            &&& post.stack@[depth].operand_stack@.len() == 0
            &&& post.stack@[depth].locals@ == placed(
                args,
                caller.operand_stack@.subrange(
                    caller.operand_stack@.len() - n,
                    caller.operand_stack@.len() as int,
                ),
                receiver,
                method.max_locals as nat,
                n,
            )
        },
    }
}

/// What `invokespecial` does once the method reference is resolved to
/// `constant`: the constant must be a method (a decode failure otherwise)
/// whose descriptor is a method descriptor (`InvalidDescriptor`), and the
/// method is called with as many arguments as the descriptor names.
pub open spec fn invokes_resolved(
    pre: JThread,
    post: JThread,
    r: JVMResult,
    constant: ResolvedConstant,
    index: u16,
    len: int,
) -> bool {
    match constant {
        ResolvedConstant::MethodRef { method, class } => if !is_method_descriptor(
            method.descriptor@,
        ) {
            r == Err::<(), JVMError>(JVMError::InvalidDescriptor) && post == pre
        } else {
            exists|args: Seq<DescriptorType>, ret: DescriptorType| #[trigger]
                describes(method.descriptor@, args, ret) && calls(
                    pre,
                    post,
                    r,
                    method,
                    class,
                    args,
                    len,
                )
        },
        _ => r == Err::<(), JVMError>(link_fault(DecodeErrorKind::UnexpectedPoolEntry, index))
            && post == pre,
    }
}

/// What `invokespecial` of `len` bytes does: the method reference `index`
/// of the class of the top frame is resolved, which the class remembers,
/// and the method is called.  A thread without frames is an
/// `InterpreterBug`.
pub open spec fn invokes(
    pre: JVM,
    post: JVM,
    before: JThread,
    after: JThread,
    r: JVMResult,
    index: u16,
    len: int,
) -> bool {
    &&& before.wf() ==> after.wf()
    &&& if before.stack@.len() == 0 {
        r == Err::<(), JVMError>(JVMError::InterpreterBug) && post == pre && after == before
    } else {
        &&& linked_in(pre, post, before.stack@.last().class, index)
        &&& match resolved(pre.class_loader, before.stack@.last().class, index) {
            Err(e) => r == Err::<(), JVMError>(e) && after == before,
            Ok(constant) => invokes_resolved(before, after, r, constant, index, len),
        }
    }
}

impl JVM {
    /// Calls `method` of the class `class` from the top frame of `thread`,
    /// with arguments of the types `args`.
    pub(crate) fn call(
        thread: &mut JThread,
        method: Rc<Method>,
        class: usize,
        args: &Vec<DescriptorType>,
        len: usize,
    ) -> (r: JVMResult)
        requires
            old(thread).stack@.len() > 0,
            forall|k: int| 0 <= k < args@.len() ==> args@[k] != DescriptorType::Void,
        ensures
            calls(*old(thread), *final(thread), r, method, class, args@, len as int),
            old(thread).wf() ==> final(thread).wf(),
    {
        let depth = thread.stack.len();
        let n = args.len();
        let available = thread.stack[depth - 1].operand_stack.len();
        if available <= n {
            return Err(JVMError::InterpreterBug);
        }
        let receiver = match thread.stack[depth - 1].operand_stack[available - 1 - n] {
            JValue::Reference(h) => JValue::Reference(h),
            JValue::Null => {
                return Err(JVMError::NullDereference);
            },
            _ => {
                return Err(JVMError::TypeMismatch);
            },
        };
        let max_locals = method.max_locals as usize;
        let mut needed: usize = 1;
        let mut i: usize = 0;
        while i < n
            invariant
                *thread == *old(thread),
                depth == thread.stack@.len(),
                depth > 0,
                available == thread.stack@[depth - 1].operand_stack@.len(),
                available > n,
                receiver == top(thread.stack@[depth - 1].operand_stack@, n as int),
                receiver is Reference,
                i <= n,
                n == args@.len(),
                needed == slot_of(args@, i as int),
                needed <= max_locals + 2,
                max_locals == method.max_locals,
            decreases n - i,
        {
            if needed > max_locals {
                proof {
                    lemma_slots_grow(args@, i as int, n as int);
                }
                return Err(JVMError::InterpreterBug);
            }
            needed = needed + args[i].slots();
            i = i + 1;
        }
        if needed > max_locals {
            return Err(JVMError::InterpreterBug);
        }
        proof {
            lemma_slots_grow(args@, 0, n as int);
        }
        let code_len = thread.stack[depth - 1].method.code.len();
        let pc = thread.stack[depth - 1].pc;
        if pc > code_len || len > code_len - pc {
            return Err(JVMError::InterpreterBug);
        }
        let mut frame = StackFrame::new(class, method);
        frame.locals[0] = receiver;
        let ghost values = thread.stack@[depth - 1].operand_stack@.subrange(
            available - n,
            available as int,
        );
        let mut slot: usize = 1;
        let mut k: usize = 0;
        while k < n
            invariant
                *thread == *old(thread),
                forall|j: int| 0 <= j < args@.len() ==> args@[j] != DescriptorType::Void,
                k <= n,
                n == args@.len(),
                depth == thread.stack@.len(),
                depth > 0,
                available == thread.stack@[depth - 1].operand_stack@.len(),
                available > n,
                receiver == top(thread.stack@[depth - 1].operand_stack@, n as int),
                receiver is Reference,
                pc == thread.stack@[depth - 1].pc,
                pc + len <= thread.stack@[depth - 1].method.code@.len(),
                values == thread.stack@[depth - 1].operand_stack@.subrange(
                    available - n,
                    available as int,
                ),
                slot == slot_of(args@, k as int),
                slot_of(args@, n as int) <= max_locals,
                max_locals == frame.method.max_locals,
                frame.locals@.len() == max_locals,
                frame.locals@ == placed(args@, values, receiver, max_locals as nat, k as int),
                frame.wf(),
                frame.class == class,
                frame.method == method,
                frame.pc == 0,
                frame.operand_stack@.len() == 0,
            decreases n - k,
        {
            proof {
                lemma_slots_grow(args@, k as int + 1, n as int);
            }
            let value = thread.stack[depth - 1].operand_stack[available - n + k];
            frame.locals[slot] = value;
            slot = slot + args[k].slots();
            k = k + 1;
        }
        thread.stack[depth - 1].operand_stack.truncate(available - 1 - n);
        thread.stack[depth - 1].pc = pc + len;
        thread.stack.push(frame);
        proof {
            assert(thread.stack@[depth - 1].operand_stack@ =~= below(
                old(thread).stack@[depth - 1].operand_stack@,
                n + 1,
            ));
        }
        Ok(())
    }

    /// `invokespecial`: calls the method that the constant `index` names,
    /// with the receiver and the arguments that lie on the stack.
    pub fn invokespecial(&mut self, thread: &mut JThread, index: u16, len: usize) -> (r: JVMResult)
        requires
            old(self).wf(),
        ensures
            invokes(*old(self), *final(self), *old(thread), *final(thread), r, index, len as int),
    {
        let depth = thread.stack.len();
        if depth == 0 {
            return Err(JVMError::InterpreterBug);
        }
        let constant = self.resolve(thread.stack[depth - 1].class, index)?;
        match constant {
            ResolvedConstant::MethodRef { method, class } => {
                let (args, ret) = Method::parse_method_descriptor(method.descriptor.as_str())?;
                assert(describes(method.descriptor@, args@, ret));
                Self::call(thread, method, class, &args, len)
            },
            _ => Err(link_error(DecodeErrorKind::UnexpectedPoolEntry, index)),
        }
    }
}

/// The slots of later arguments lie behind those of earlier ones, and all
/// of them behind the slot of the receiver.
pub proof fn lemma_slots_grow(args: Seq<DescriptorType>, i: int, n: int)
    requires
        0 <= i <= n,
    ensures
        1 <= slot_of(args, i) <= slot_of(args, n),
    decreases n,
{
    if i < n {
        lemma_slots_grow(args, i, n - 1);
    } else if n > 0 {
        lemma_slots_grow(args, n - 1, n - 1);
    }
}

} // verus!
