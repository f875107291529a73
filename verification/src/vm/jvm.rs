//! The virtual machine: its state, and the cycle of fetching, decoding and
//! executing instructions.
pub use crate::error::JVMError;
use crate::error::{decode_fault, DecodeErrorKind};
use crate::vm::class_loader::ClassLoader;
use crate::vm::decode::decodes_to;
use crate::vm::dispatch_effect::float_op;
use crate::vm::floats::{float_result, FloatAnswer};
use crate::vm::jobject::JObject;
use crate::vm::jthread::JThread;
use crate::vm::machine_effect::{executes, on_top, steps_frame, Progress};
use crate::vm::opcode::{encodes, instruction_len, Opcode};
use crate::vm::stack_frame::{share, StackFrame};
use crate::vm::table::NameTable;
use vstd::prelude::*;

verus! {

/// What a handler of one instruction returns.
pub type JVMResult = Result<(), JVMError>;

/// The virtual machine.
///
/// Objects live in `heap` and are never removed; the handle of an object
/// is its position there.
#[derive(Debug)]
pub struct JVM {
    pub class_loader: ClassLoader,
    /// The classes that were started, by name.
    pub classes: NameTable<usize>,
    /// The string objects that stand for string constants, by text.
    pub interned_strings: NameTable<usize>,
    pub threads: Vec<JThread>,
    pub heap: Vec<JObject>,
}

impl JVM {
    /// The tables of the machine hold no name twice, and its registry of
    /// classes is well formed.
    pub open spec fn wf(&self) -> bool {
        &&& self.class_loader.wf()
        &&& self.classes.wf()
        &&& self.interned_strings.wf()
        &&& forall|h: int| 0 <= h < self.heap@.len() ==> (#[trigger] self.heap@[h]).fields.wf()
    }

    /// `self` is `pre` but for the contents of the heap.
    pub open spec fn same_but_heap(&self, pre: JVM) -> bool {
        &&& self.class_loader == pre.class_loader
        &&& self.classes == pre.classes
        &&& self.interned_strings == pre.interned_strings
        &&& self.threads == pre.threads
    }

    /// `self` is `pre` but for the object with handle `h`, which has kept
    /// its class.
    pub open spec fn same_but_object(&self, pre: JVM, h: int) -> bool {
        &&& self.same_but_heap(pre)
        &&& self.heap@.len() == pre.heap@.len()
        &&& self.heap@[h].class == pre.heap@[h].class
        &&& forall|k: int|
            0 <= k < pre.heap@.len() && k != h ==> #[trigger] self.heap@[k] == pre.heap@[k]
    }

    /// True when the machine is well formed.
    pub fn check(&self) -> (r: bool)
        ensures
            r == self.wf(),
    {
        if !self.class_loader.check() || !self.classes.check() || !self.interned_strings.check() {
            return false;
        }
        let mut h: usize = 0;
        while h < self.heap.len()
            invariant
                h <= self.heap@.len(),
                forall|k: int| 0 <= k < h ==> (#[trigger] self.heap@[k]).fields.wf(),
            decreases self.heap@.len() - h,
        {
            if !self.heap[h].fields.check() {
                return false;
            }
            h = h + 1;
        }
        true
    }

    /// A machine without objects and threads, whose registry holds the
    /// classes that every registry starts with.
    pub fn new() -> (r: JVM)
        ensures
            r.wf(),
            r.class_loader.has_defaults(),
            r.class_loader.only_defaults(),
            r.class_loader.classes@.len() == 11,
            r.class_loader.loaded_classes.spec_len() == 11,
            r.heap@.len() == 0,
            r.threads@.len() == 0,
            r.interned_strings.spec_len() == 0,
            r.classes.spec_len() == 0,
    {
        JVM {
            class_loader: ClassLoader::new(),
            classes: NameTable::new(),
            interned_strings: NameTable::new(),
            threads: Vec::new(),
            heap: Vec::new(),
        }
    }
}

/// The instruction of `len` bytes at the position of the top frame of
/// `before` was executed.
pub open spec fn executes_at(
    pre: JVM,
    post: JVM,
    before: JThread,
    after: JThread,
    len: int,
    r: Result<Progress, JVMError>,
) -> bool {
    exists|op: Opcode|
        #![trigger encodes(before.stack@.last().method.code@, before.stack@.last().pc as int, op, len)]
        encodes(before.stack@.last().method.code@, before.stack@.last().pc as int, op, len)
            && executes(pre, post, before, after, op, len, r)
}

/// The floating-point instruction of `len` bytes at the position of the top
/// frame of `before` was completed with `answer`; an instruction that is
/// not floating-point is an `InterpreterBug`.
pub open spec fn answers_at(
    before: JThread,
    after: JThread,
    len: int,
    r: JVMResult,
    answer: FloatAnswer,
) -> bool {
    exists|op: Opcode|
        #![trigger encodes(before.stack@.last().method.code@, before.stack@.last().pc as int, op, len)]
        encodes(before.stack@.last().method.code@, before.stack@.last().pc as int, op, len)
            && match float_op(op) {
            None => r == Err::<(), JVMError>(JVMError::InterpreterBug) && after == before,
            Some(float) => on_top(before, after) && steps_frame(
                before.stack@.last(),
                after.stack@.last(),
                r,
                float_result(before.stack@.last().state(), float, answer),
                len,
            ),
        }
}

/// What one turn of the machine's cycle does, where `r` is what the
/// machine reports.
///
/// A thread without frames is finished.  A top frame that stands at the end
/// of its code is dropped.  Else the instruction at the position of the top
/// frame is decoded, which may fail with a decode error at that position,
/// and executed.  Frames that kept within their methods still do.
#[verifier::opaque]
pub open spec fn steps(
    pre: JVM,
    post: JVM,
    before: JThread,
    after: JThread,
    r: Result<Progress, JVMError>,
) -> bool {
    &&& pre.wf() ==> post.wf()
    &&& before.wf() ==> after.wf()
    &&& if before.stack@.len() == 0 {
        r == Ok::<Progress, JVMError>(Progress::Finished) && post == pre && after == before
    } else {
        let frame = before.stack@.last();
        let code = frame.method.code@;
        if frame.pc >= code.len() {
            &&& r == Ok::<Progress, JVMError>(Progress::Running)
            &&& post == pre
            &&& after.stack@ == before.stack@.drop_last()
        } else {
            match instruction_len(code, frame.pc as int) {
                Err(kind) => r == Err::<Progress, JVMError>(decode_fault(kind, frame.pc as int))
                    && post == pre && after == before,
                Ok(len) => executes_at(pre, post, before, after, len, r),
            }
        }
    }
}

/// `n` turns of the cycle lead from `pre` and `before` to `post` and
/// `after`, where every turn but the last reported `Running` and the last
/// reported `r`.  No turn at all reports `Running`.
pub open spec fn runs(
    pre: JVM,
    post: JVM,
    before: JThread,
    after: JThread,
    n: nat,
    r: Result<Progress, JVMError>,
) -> bool
    decreases n, 1int,
{
    if n == 0 {
        r == Ok::<Progress, JVMError>(Progress::Running) && post == pre && after == before
    } else {
        ends_with(pre, post, before, after, n, r)
    }
}

/// The number of a turn.
pub open spec fn turn(m: nat) -> nat {
    m
}

/// `n` turns lead from `pre` and `before` to `post` and `after`: the turns
/// before the last, which reported `Running`, lead to a machine and a
/// thread from which the last turn leads on and reports `r`.
pub open spec fn ends_with(
    pre: JVM,
    post: JVM,
    before: JThread,
    after: JThread,
    n: nat,
    r: Result<Progress, JVMError>,
) -> bool
    decreases n, 0int,
{
    exists|mid: JVM, thread: JThread, m: nat|
        #![trigger steps(mid, post, thread, after, r), turn(m)]
        turn(m) + 1 == n && runs(
            pre,
            mid,
            before,
            thread,
            m,
            Ok::<Progress, JVMError>(Progress::Running),
        ) && steps(mid, post, thread, after, r)
}

/// One more turn behind turns that reported `Running` makes a run that is
/// one turn longer.
pub proof fn lemma_one_more_turn(
    pre: JVM,
    mid: JVM,
    post: JVM,
    before: JThread,
    thread: JThread,
    after: JThread,
    m: nat,
    r: Result<Progress, JVMError>,
)
    requires
        runs(pre, mid, before, thread, m, Ok::<Progress, JVMError>(Progress::Running)),
        steps(mid, post, thread, after, r),
    ensures
        runs(pre, post, before, after, m + 1, r),
{
    assert(turn(m) == m);
    assert(ends_with(pre, post, before, after, m + 1, r));
}

/// A run of at least one turn ends with a turn: the machine and the thread
/// before the last turn.
pub proof fn lemma_last_turn(
    pre: JVM,
    post: JVM,
    before: JThread,
    after: JThread,
    n: nat,
    r: Result<Progress, JVMError>,
) -> (w: (JVM, JThread))
    requires
        n > 0,
        runs(pre, post, before, after, n, r),
    ensures
        runs(pre, w.0, before, w.1, (n - 1) as nat, Ok::<Progress, JVMError>(Progress::Running)),
        steps(w.0, post, w.1, after, r),
{
    assert(ends_with(pre, post, before, after, n, r));
    let (mid, thread, m) = choose|mid: JVM, thread: JThread, m: nat|
        #![trigger steps(mid, post, thread, after, r), turn(m)]
        turn(m) + 1 == n && runs(
            pre,
            mid,
            before,
            thread,
            m,
            Ok::<Progress, JVMError>(Progress::Running),
        ) && steps(mid, post, thread, after, r);
    (mid, thread)
}

/// What handing in the answer to a floating-point request does: the
/// instruction at the position of the top frame, which must be a
/// floating-point instruction (`InterpreterBug`), is completed with the
/// answer, and the frame moves behind it.
pub open spec fn answers(before: JThread, after: JThread, r: JVMResult, answer: FloatAnswer) -> bool {
    &&& before.wf() ==> after.wf()
    &&& if before.stack@.len() == 0 {
        r == Err::<(), JVMError>(JVMError::InterpreterBug) && after == before
    } else {
        let frame = before.stack@.last();
        let code = frame.method.code@;
        match instruction_len(code, frame.pc as int) {
            Err(kind) => r == Err::<(), JVMError>(decode_fault(kind, frame.pc as int)) && after
                == before,
            Ok(len) => answers_at(before, after, len, r, answer),
        }
    }
}

/// The key of the method at which a class starts.
pub open spec fn main_key() -> Seq<char> {
    "main:([Ljava/lang/String;)V"@
}

/// `thread` is a new thread at the start of `method` of the class with
/// handle `class`: one frame, with every local null and an empty operand
/// stack.
pub open spec fn at_start_of(thread: JThread, class: usize, method: std::rc::Rc<crate::vm::method::Method>) -> bool {
    &&& thread.stack@.len() == 1
    &&& thread.stack@[0].class == class
    &&& thread.stack@[0].method == method
    &&& thread.stack@[0].pc == 0
    &&& thread.stack@[0].operand_stack@ == Seq::<crate::vm::jvalue::JValue>::empty()
    &&& thread.stack@[0].locals@ == Seq::new(
        method.max_locals as nat,
        |i: int| crate::vm::jvalue::JValue::Null,
    )
    &&& thread.wf()
}

/// What starting the class `name` does.
///
/// A class that is not loaded is asked for, and nothing changes.  A class
/// that is loaded is noted among the started classes under its own name;
/// when it has the method `main:([Ljava/lang/String;)V`, a new thread at
/// the start of that method is added behind the threads of the machine, and
/// else the start fails with `MissingMember`.
pub open spec fn starts(pre: JVM, post: JVM, name: Seq<char>, r: Result<Progress, JVMError>) -> bool {
    &&& pre.wf() ==> post.wf()
    &&& match pre.class_loader.class_named(name) {
        None => r matches Ok(Progress::NeedClass(n)) && n@ == name && post == pre,
        Some(class) => {
            let c = pre.class_loader.classes@[class as int];
            &&& post.class_loader == pre.class_loader
            &&& post.heap == pre.heap
            &&& post.interned_strings == pre.interned_strings
            &&& post.classes.contains(c.name@)
            &&& post.classes.value(c.name@) == class
            &&& forall|other: Seq<char>|
                other != c.name@ ==> (#[trigger] post.classes.contains(other))
                    == pre.classes.contains(other)
            &&& forall|other: Seq<char>|
                other != c.name@ && pre.classes.contains(other) ==> #[trigger] post.classes.value(
                    other,
                ) == pre.classes.value(other)
            &&& if c.methods.contains(main_key()) {
                &&& r == Ok::<Progress, JVMError>(Progress::Running)
                &&& post.threads@.len() == pre.threads@.len() + 1
                &&& post.threads@.take(pre.threads@.len() as int) == pre.threads@
                &&& at_start_of(post.threads@.last(), class, c.methods.value(main_key()))
            } else {
                r == Err::<Progress, JVMError>(JVMError::MissingMember) && post.threads
                    == pre.threads
            }
        },
    }
}

/// `post` is `pre` but for its threads.
pub open spec fn same_but_threads(pre: JVM, post: JVM) -> bool {
    &&& post.class_loader == pre.class_loader
    &&& post.classes == pre.classes
    &&& post.interned_strings == pre.interned_strings
    &&& post.heap == pre.heap
}

/// A run of `n` turns that reported `r` used a supply of `fuel` turns as
/// far as it could: it did not take more turns than there were, and it
/// reports `Running` only when it has taken them all.  So a run stops
/// early only with another report: the thread is finished, waits for a
/// class or an answer, or has failed.
pub open spec fn spends(n: nat, fuel: u64, r: Result<Progress, JVMError>) -> bool {
    &&& n <= fuel
    &&& r == Ok::<Progress, JVMError>(Progress::Running) ==> n == fuel
}

/// The thread `before` ran on the machine `pre` until it reported
/// something other than `Running` or `fuel` turns were taken, which gave
/// `post`, `after` and the report `r`.
pub open spec fn runs_out(
    pre: JVM,
    post: JVM,
    before: JThread,
    after: JThread,
    fuel: u64,
    r: Result<Progress, JVMError>,
) -> bool {
    exists|n: nat| #[trigger] runs(pre, post, before, after, n, r) && spends(n, fuel, r)
}

/// The last thread of `pre` ran until it reported something other than
/// `Running` or `fuel` turns were taken, reported `r`, and stands behind
/// the threads of `post` again.
pub open spec fn resumes_last(pre: JVM, post: JVM, fuel: u64, r: Result<Progress, JVMError>) -> bool {
    exists|start: JVM, end: JVM, thread: JThread, n: nat|
        #![trigger runs(start, end, pre.threads@.last(), thread, n, r)]
        spends(n, fuel, r) && same_but_threads(pre, start) && start.threads@
            == pre.threads@.drop_last() && runs(start, end, pre.threads@.last(), thread, n, r)
            && same_but_threads(end, post) && post.threads@ == end.threads@.push(thread)
}

/// What resuming does: a machine without threads is finished, and else its
/// last thread runs until it reports something other than `Running` or
/// `fuel` turns are taken.
pub open spec fn resumes(pre: JVM, post: JVM, fuel: u64, r: Result<Progress, JVMError>) -> bool {
    &&& pre.wf() ==> post.wf()
    &&& if pre.threads@.len() == 0 {
        r == Ok::<Progress, JVMError>(Progress::Finished) && post == pre
    } else {
        resumes_last(pre, post, fuel, r)
    }
}

/// The class `name` was started, and when the start reported `Running`,
/// the machine was resumed and ran until it reported something other than
/// `Running` or `fuel` turns were taken; `r` is the last report.
pub open spec fn starts_and_runs(
    pre: JVM,
    post: JVM,
    name: Seq<char>,
    fuel: u64,
    r: Result<Progress, JVMError>,
) -> bool {
    exists|mid: JVM, started: Result<Progress, JVMError>|
        #![trigger starts(pre, mid, name, started)]
        starts(pre, mid, name, started) && if started == Ok::<Progress, JVMError>(
            Progress::Running,
        ) {
            resumes(mid, post, fuel, r)
        } else {
            r == started && post == mid
        }
}

impl JVM {
    /// Starts the class `name`: makes a thread that stands at the start of
    /// its method `main:([Ljava/lang/String;)V`.
    pub fn start(&mut self, name: &str) -> (r: Result<Progress, JVMError>)
        requires
            old(self).wf(),
        ensures
            starts(*old(self), *final(self), name@, r),
            final(self).wf(),
    {
        let class = match self.class_loader.find_class(name) {
            Some(class) => class,
            None => {
                return Ok(Progress::NeedClass(name.to_owned()));
            },
        };
        let class_name = self.class_loader.classes[class].name.clone();
        self.classes.insert(class_name, class);
        let method = match self.class_loader.classes[class].methods.get(
            "main:([Ljava/lang/String;)V",
        ) {
            Some(method) => share(method),
            None => {
                return Err(JVMError::MissingMember);
            },
        };
        let frame = StackFrame::new(class, method);
        let mut stack: Vec<StackFrame> = Vec::new();
        stack.push(frame);
        let thread = JThread { stack };
        self.threads.push(thread);
        proof {
            assert(self.threads@.take(old(self).threads@.len() as int) =~= old(self).threads@);
        }
        Ok(Progress::Running)
    }

    /// Runs the last thread of the machine until it reports something
    /// other than `Running` or `fuel` turns of the cycle are taken.
    pub fn resume(&mut self, fuel: u64) -> (r: Result<Progress, JVMError>)
        requires
            old(self).wf(),
        ensures
            resumes(*old(self), *final(self), fuel, r),
            final(self).wf(),
    {
        if self.threads.len() == 0 {
            return Ok(Progress::Finished);
        }
        let mut thread = self.threads.pop().unwrap();
        let ghost start = *self;
        let ghost first = thread;
        let r = self.run(&mut thread, fuel);
        let ghost end = *self;
        let ghost last = thread;
        self.threads.push(thread);
        proof {
            let n = choose|n: nat| #[trigger]
                runs(start, end, first, last, n, r) && spends(n, fuel, r);
            assert(runs(start, end, old(self).threads@.last(), last, n, r));
            assert(resumes_last(*old(self), *self, fuel, r));
        }
        r
    }

    /// Starts the class `name` and runs it until it reports something
    /// other than `Running` or `fuel` turns of the cycle are taken.  Reports `Finished` when the thread has run to its end,
    /// `Running` when the turns are used up, and `NeedClass` or
    /// `NeedFloat` when the machine waits for a class or for
    /// floating-point arithmetic.
    pub fn run_class(&mut self, name: &str, fuel: u64) -> (r: Result<Progress, JVMError>)
        requires
            old(self).wf(),
        ensures
            starts_and_runs(*old(self), *final(self), name@, fuel, r),
            final(self).wf(),
    {
        let started = self.start(name);
        let ghost mid = *self;
        let ghost report = started;
        assert(starts(*old(self), mid, name@, report));
        match started {
            Ok(Progress::Running) => {
                let r = self.resume(fuel);
                let ghost end = *self;
                assert(resumes(mid, end, fuel, r));
                r
            },
            other => other,
        }
    }

    /// One turn of the machine's cycle on `thread`: fetch, decode, execute.
    pub fn step(&mut self, thread: &mut JThread) -> (r: Result<Progress, JVMError>)
        requires
            old(self).wf(),
        ensures
            steps(*old(self), *final(self), *old(thread), *final(thread), r),
            final(self).wf(),
            old(thread).wf() ==> final(thread).wf(),
    {
        reveal(steps);
        let depth = thread.stack.len();
        if depth == 0 {
            return Ok(Progress::Finished);
        }
        let pc = thread.stack[depth - 1].pc;
        if pc >= thread.stack[depth - 1].method.code.len() {
            let _ = thread.stack.pop();
            proof {
                assert(thread.stack@ =~= old(thread).stack@.drop_last());
                assert forall|i: int| 0 <= i < thread.stack@.len() && old(thread).wf() implies (
                #[trigger] thread.stack@[i]).wf() by {
                    assert(thread.stack@[i] == old(thread).stack@[i]);
                }
            }
            assert(steps(*old(self), *self, *old(thread), *thread, Ok(Progress::Running)));
            return Ok(Progress::Running);
        }
        let decoded = Self::parse_opcode(thread.stack[depth - 1].method.code.as_slice(), pc);
        match decoded {
            Err(e) => {
                assert(steps(*old(self), *self, *old(thread), *thread, Err(e)));
                Err(e)
            },
            Ok((opcode, len)) => {
                let ghost op = opcode;
                let r = self.execute_opcode(thread, &opcode, len);
                let ghost machine = *self;
                let ghost after = *thread;
                proof {
                    let code = old(thread).stack@.last().method.code@;
                    assert(instruction_len(code, pc as int) == Ok::<int, DecodeErrorKind>(len as int));
                    assert(encodes(code, pc as int, op, len as int));
                    assert(executes(*old(self), machine, *old(thread), after, op, len as int, r));
                    assert(executes_at(*old(self), machine, *old(thread), after, len as int, r));
                    assert(steps(*old(self), machine, *old(thread), after, r));
                }
                r
            },
        }
    }

    /// Runs `thread` turn by turn until it is finished, needs a class or a
    /// floating-point answer, or fails, and for at most `fuel` turns.
    /// Reports `Running` only when all `fuel` turns are taken.
    pub fn run(&mut self, thread: &mut JThread, fuel: u64) -> (r: Result<Progress, JVMError>)
        requires
            old(self).wf(),
        ensures
            final(self).wf(),
            runs_out(*old(self), *final(self), *old(thread), *final(thread), fuel, r),
            old(thread).wf() ==> final(thread).wf(),
    {
        let mut left = fuel;
        let ghost n: nat = 0;
        while left > 0
            invariant
                self.wf(),
                n + left == fuel,
                runs(
                    *old(self),
                    *self,
                    *old(thread),
                    *thread,
                    n,
                    Ok::<Progress, JVMError>(Progress::Running),
                ),
                old(thread).wf() ==> thread.wf(),
            decreases left,
        {
            let ghost machine = *self;
            let ghost before = *thread;
            let r = self.step(thread);
            let ghost now = *self;
            let ghost after = *thread;
            proof {
                lemma_one_more_turn(*old(self), machine, now, *old(thread), before, after, n, r);
            }
            match r {
                Ok(Progress::Running) => {
                    left = left - 1;
                    proof {
                        n = n + 1;
                    }
                },
                other => {
                    proof {
                        assert(spends(n + 1, fuel, other));
                    }
                    return other;
                },
            }
        }
        proof {
            assert(spends(n, fuel, Ok::<Progress, JVMError>(Progress::Running)));
        }
        Ok(Progress::Running)
    }

    /// Completes the floating-point instruction at the position of the top
    /// frame of `thread` with the answer to its request.
    pub fn answer_float(thread: &mut JThread, answer: FloatAnswer) -> (r: JVMResult)
        ensures
            answers(*old(thread), *final(thread), r, answer),
    {
        let depth = thread.stack.len();
        if depth == 0 {
            return Err(JVMError::InterpreterBug);
        }
        let pc = thread.stack[depth - 1].pc;
        let code_len = thread.stack[depth - 1].method.code.len();
        let (opcode, len) = Self::parse_opcode(
            thread.stack[depth - 1].method.code.as_slice(),
            pc,
        )?;
        let ghost op = opcode;
        let ghost code = old(thread).stack@.last().method.code@;
        assert(instruction_len(code, pc as int) == Ok::<int, DecodeErrorKind>(len as int));
        assert(encodes(code, pc as int, op, len as int));
        match Self::as_float_op(&opcode) {
            None => Err(JVMError::InterpreterBug),
            Some(float) => {
                let r = Self::apply_float(&mut thread.stack[depth - 1], float, answer);
                if r.is_ok() {
                    thread.stack[depth - 1].pc = pc + len;
                }
                proof {
                    assert forall|i: int| 0 <= i < thread.stack@.len() && old(thread).wf() implies (
                    #[trigger] thread.stack@[i]).wf() by {
                        if i < depth - 1 {
                            assert(thread.stack@[i] == old(thread).stack@[i]);
                        }
                    }
                }
                r
            },
        }
    }
}

} // verus!
