//! Laws that relate the functions of the library to each other.
use crate::arith::{wrap32, wrap64};
use crate::class_reader::decodes;
use crate::error::JVMError;
use crate::format::class_bytes;
use crate::reader::{ClassFile, ConstantPoolInfo};
use crate::vm::class_loader::ClassLoader;
use crate::vm::constant_pool::{cache_after, resolution, ResolvedConstant};
use crate::vm::effect::{below, dup_two, pop_two, top, FrameState};
use crate::vm::heap_effect::{array_slot, ArrayOp};
use crate::vm::jobject::JObject;
use crate::vm::jthread::JThread;
use crate::vm::jvalue::JValue;
use crate::vm::jvm::{runs, steps, JVM};
use crate::vm::machine_effect::Progress;
use crate::vm::stack_frame::StackFrame;
use vstd::prelude::*;

verus! {

/// A class file that was decoded from the bytes between `start` and `end`
/// of an input is those bytes again when its records are laid out in the
/// order of the format.
pub proof fn law_decoding_is_undone_by_serialising(
    s: Seq<u8>,
    start: int,
    end: int,
    kept: Seq<ConstantPoolInfo>,
    cf: ClassFile,
)
    requires
        0 <= start <= end <= s.len(),
        decodes(s, start, end, kept, Ok(cf)),
    ensures
        class_bytes(cf) == s.subrange(start, end),
{
    let head = crate::format::head_end(s, start)->Ok_0;
    assert(s.subrange(start, end) =~= s.subrange(start, head) + s.subrange(head, end));
}

/// A class file that was decoded can be serialised: no text of its pool is
/// longer than its length field can say.
pub proof fn law_what_was_decoded_can_be_serialised(
    s: Seq<u8>,
    start: int,
    end: int,
    kept: Seq<ConstantPoolInfo>,
    cf: ClassFile,
)
    requires
        decodes(s, start, end, kept, Ok(cf)),
    ensures
        crate::format::pool_fits(cf.constant_pool@),
{
}

/// A class file that was decoded from the whole of an input is the input
/// again when it is serialised.
pub proof fn law_whole_file_round_trip(s: Seq<u8>, kept: Seq<ConstantPoolInfo>, cf: ClassFile)
    requires
        decodes(s, 0, s.len() as int, kept, Ok(cf)),
    ensures
        class_bytes(cf) == s,
{
    law_decoding_is_undone_by_serialising(s, 0, s.len() as int, kept, cf);
    assert(s.subrange(0, s.len() as int) =~= s);
}

/// Resolution is idempotent: once a constant has been resolved, resolving
/// it again returns the same constant and leaves the cache as it is,
/// whatever has been loaded in between.
pub proof fn law_resolution_is_idempotent(
    cache: Map<u16, ResolvedConstant>,
    cp: Seq<ConstantPoolInfo>,
    index: u16,
    loader: ClassLoader,
    later: ClassLoader,
)
    requires
        resolution(cache, cp, index, loader) is Ok,
    ensures
        resolution(cache_after(cache, cp, index, loader), cp, index, later) == resolution(
            cache,
            cp,
            index,
            loader,
        ),
        cache_after(cache_after(cache, cp, index, loader), cp, index, later) == cache_after(
            cache,
            cp,
            index,
            loader,
        ),
{
}

/// One turn of the cycle keeps every frame within its method: the operand
/// stack holds no more values than the method allows, there are as many
/// locals as the method declares, and the position lies inside the code
/// or at its end.
pub proof fn law_a_turn_keeps_frames_within_methods(
    pre: JVM,
    post: JVM,
    before: JThread,
    after: JThread,
    r: Result<Progress, JVMError>,
)
    requires
        steps(pre, post, before, after, r),
        before.wf(),
    ensures
        forall|i: int|
            0 <= i < after.stack@.len() ==> within_method(#[trigger] after.stack@[i]),
{
    reveal(steps);
    assert(after.wf());
    assert forall|i: int| 0 <= i < after.stack@.len() implies within_method(
        #[trigger] after.stack@[i],
    ) by {
        assert(after.stack@[i].wf());
    }
}

/// The frame keeps within its method: the operand stack holds no more
/// values than the method's limit, a long or a double counting as one
/// value; no local index reaches the method's number of locals; and the
/// position lies in `[0, code length]`.
pub open spec fn within_method(frame: StackFrame) -> bool {
    &&& frame.operand_stack@.len() <= frame.method.max_stack
    &&& frame.locals@.len() == frame.method.max_locals
    &&& 0 <= frame.pc <= frame.method.code@.len()
}

/// Any number of turns keeps every frame within its method.
pub proof fn law_a_run_keeps_frames_within_methods(
    pre: JVM,
    post: JVM,
    before: JThread,
    after: JThread,
    n: nat,
    r: Result<Progress, JVMError>,
)
    requires
        runs(pre, post, before, after, n, r),
        before.wf(),
    ensures
        after.wf(),
        forall|i: int|
            0 <= i < after.stack@.len() ==> within_method(#[trigger] after.stack@[i]),
    decreases n,
{
    if n > 0 {
        let (mid, thread) = crate::vm::jvm::lemma_last_turn(pre, post, before, after, n, r);
        law_a_run_keeps_frames_within_methods(
            pre,
            mid,
            before,
            thread,
            (n - 1) as nat,
            Ok(Progress::Running),
        );
        reveal(steps);
    }
    assert forall|i: int| 0 <= i < after.stack@.len() implies within_method(
        #[trigger] after.stack@[i],
    ) by {
        assert(after.stack@[i].wf());
    }
}

/// Wrapping is two's-complement wrap-around: the wrapped number is a
/// 32-bit integer and differs from the mathematical result by a multiple
/// of 2^32.
pub proof fn law_wrapping_is_congruent(x: int)
    ensures
        -0x8000_0000 <= wrap32(x) <= 0x7FFF_FFFF,
        (wrap32(x) - x) % 0x1_0000_0000 == 0,
{
    let m = x % 0x1_0000_0000;
    assert(x == 0x1_0000_0000 * (x / 0x1_0000_0000) + m) by (nonlinear_arith)
        requires
            m == x % 0x1_0000_0000,
    ;
    if m >= 0x8000_0000 {
        assert((m - 0x1_0000_0000 - x) == 0x1_0000_0000 * (-(x / 0x1_0000_0000) - 1))
            by (nonlinear_arith)
            requires
                x == 0x1_0000_0000 * (x / 0x1_0000_0000) + m,
        ;
        assert((0x1_0000_0000 * (-(x / 0x1_0000_0000) - 1)) % 0x1_0000_0000 == 0)
            by (nonlinear_arith);
    } else {
        assert((m - x) == 0x1_0000_0000 * (-(x / 0x1_0000_0000))) by (nonlinear_arith)
            requires
                x == 0x1_0000_0000 * (x / 0x1_0000_0000) + m,
        ;
        assert((0x1_0000_0000 * (-(x / 0x1_0000_0000))) % 0x1_0000_0000 == 0) by (nonlinear_arith);
    }
}

/// Wrapping of a long is two's-complement wrap-around as well: the wrapped
/// number is a 64-bit integer and differs from the mathematical result by a
/// multiple of 2^64.
pub proof fn law_long_wrapping_is_congruent(x: int)
    ensures
        -0x8000_0000_0000_0000 <= wrap64(x) <= 0x7FFF_FFFF_FFFF_FFFF,
        (wrap64(x) - x) % 0x1_0000_0000_0000_0000 == 0,
{
    let m = x % 0x1_0000_0000_0000_0000;
    assert(x == 0x1_0000_0000_0000_0000 * (x / 0x1_0000_0000_0000_0000) + m) by (nonlinear_arith)
        requires
            m == x % 0x1_0000_0000_0000_0000,
    ;
    if m >= 0x8000_0000_0000_0000 {
        assert((m - 0x1_0000_0000_0000_0000 - x) == 0x1_0000_0000_0000_0000 * (-(x
            / 0x1_0000_0000_0000_0000) - 1)) by (nonlinear_arith)
            requires
                x == 0x1_0000_0000_0000_0000 * (x / 0x1_0000_0000_0000_0000) + m,
        ;
        assert((0x1_0000_0000_0000_0000 * (-(x / 0x1_0000_0000_0000_0000) - 1))
            % 0x1_0000_0000_0000_0000 == 0) by (nonlinear_arith);
    } else {
        assert((m - x) == 0x1_0000_0000_0000_0000 * (-(x / 0x1_0000_0000_0000_0000)))
            by (nonlinear_arith)
            requires
                x == 0x1_0000_0000_0000_0000 * (x / 0x1_0000_0000_0000_0000) + m,
        ;
        assert((0x1_0000_0000_0000_0000 * (-(x / 0x1_0000_0000_0000_0000)))
            % 0x1_0000_0000_0000_0000 == 0) by (nonlinear_arith);
    }
}

/// Of an array of length `L`, every index in `[0, L)` is accessible and
/// every other index faults: where the reference leads to an array of the
/// family of the instruction, the instruction reaches the element exactly
/// for the indices in that range, and faults with `ArrayIndexOutOfBounds`
/// for all others.
pub proof fn law_array_indices(
    stack: Seq<JValue>,
    heap: Seq<JObject>,
    op: ArrayOp,
    depth: int,
    h: usize,
    i: i32,
)
    requires
        1 <= depth < stack.len(),
        top(stack, depth) == JValue::Reference(h),
        top(stack, depth - 1) == JValue::Int(i),
        h < heap.len(),
        op.fits(heap[h as int].kind),
    ensures
        0 <= i < heap[h as int].kind.length()->0 ==> array_slot(stack, heap, op, depth) == Ok::<
            (usize, int),
            JVMError,
        >((h, i as int)),
        !(0 <= i < heap[h as int].kind.length()->0) ==> array_slot(stack, heap, op, depth) == Err::<
            (usize, int),
            JVMError,
        >(JVMError::ArrayIndexOutOfBounds),
{
}

/// After `dup2` on a stack whose top is a long, the two topmost values are
/// that long, above the stack as it was below it.
pub proof fn law_dup2_of_a_long(f: FrameState, v: i64)
    requires
        f.stack.len() >= 1,
        top(f.stack, 0) == JValue::Long(v),
        f.stack.len() < f.max_stack,
    ensures
        dup_two(f) is Ok,
        dup_two(f)->Ok_0.stack.len() == f.stack.len() + 1,
        top(dup_two(f)->Ok_0.stack, 0) == JValue::Long(v),
        top(dup_two(f)->Ok_0.stack, 1) == JValue::Long(v),
        below(dup_two(f)->Ok_0.stack, 2) == below(f.stack, 1),
{
    let s = below(f.stack, 1) + seq![JValue::Long(v), JValue::Long(v)];
    assert(below(s, 2) =~= below(f.stack, 1));
}

/// After `pop2` on a stack whose two topmost values are integers, both are
/// gone.
pub proof fn law_pop2_of_two_ints(f: FrameState, a: i32, b: i32)
    requires
        f.stack.len() >= 2,
        top(f.stack, 1) == JValue::Int(a),
        top(f.stack, 0) == JValue::Int(b),
        f.stack.len() <= f.max_stack,
    ensures
        pop_two(f) is Ok,
        pop_two(f)->Ok_0.stack == below(f.stack, 2),
{
}

} // verus!
