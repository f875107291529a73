//! What the instructions that create objects and read and write their
//! fields do, as mathematics.
use crate::error::{link_fault, DecodeErrorKind, JVMError};
use crate::text::member_key;
use crate::vm::class::{primitive_array_name, reference_array_name};
use crate::vm::class_loader::ClassLoader;
use crate::vm::constant_pool::{cache_after, class_name_at, resolution, ResolvedConstant};
use crate::vm::effect::{below, top, FrameState, Outcome};
use crate::vm::jobject::{default_value, defaults_of, JObject};
use crate::vm::jvalue::JValue;
use crate::vm::jvm::JVM;
use crate::vm::opcode::AType;
use vstd::prelude::*;

verus! {

/// What resolving the constant `index` of the class `class` returns;
/// `InterpreterBug` when `class` is no handle of a class.
pub open spec fn resolved(loader: ClassLoader, class: usize, index: u16) -> Result<
    ResolvedConstant,
    JVMError,
> {
    if class >= loader.classes@.len() {
        Err(JVMError::InterpreterBug)
    } else {
        resolution(
            loader.classes@[class as int].constant_pool.resolved_constants@,
            loader.classes@[class as int].constant_pool.cp@,
            index,
            loader,
        )
    }
}

/// The key of the field that the constant `index` of the class `class`
/// names.
pub open spec fn field_key(loader: ClassLoader, class: usize, index: u16) -> Result<
    Seq<char>,
    JVMError,
> {
    match resolved(loader, class, index) {
        Ok(ResolvedConstant::FieldRef { field }) => Ok(member_key(field.name@, field.descriptor@)),
        Ok(_) => Err(link_fault(DecodeErrorKind::UnexpectedPoolEntry, index)),
        Err(e) => Err(e),
    }
}

/// The handle of the object that a reference `depth` places below the top
/// of the stack leads to: `NullDereference` for null, `TypeMismatch` for
/// what is no reference, `InterpreterBug` for a handle of no object.
pub open spec fn object_at(stack: Seq<JValue>, heap: Seq<JObject>, depth: int) -> Result<
    usize,
    JVMError,
> {
    match top(stack, depth) {
        JValue::Reference(h) => if h >= heap.len() {
            Err(JVMError::InterpreterBug)
        } else {
            Ok(h)
        },
        JValue::Null => Err(JVMError::NullDereference),
        _ => Err(JVMError::TypeMismatch),
    }
}

/// `getfield` for the field of key `key`: pops a reference to an object
/// and pushes the value of the field; `MissingMember` when the object has
/// no such field.
pub open spec fn get_field(f: FrameState, heap: Seq<JObject>, key: Seq<char>) -> Result<
    Outcome,
    JVMError,
> {
    if f.stack.len() < 1 {
        Err(JVMError::InterpreterBug)
    } else {
        match object_at(f.stack, heap, 0) {
            Err(e) => Err(e),
            Ok(h) => if heap[h as int].fields.contains(key) {
                Ok(
                    Outcome {
                        stack: below(f.stack, 1).push(heap[h as int].fields.value(key)),
                        locals: f.locals,
                        jump: None,
                    },
                )
            } else {
                Err(JVMError::MissingMember)
            },
        }
    }
}

/// `getfield`: resolves the field reference `index` of the class `class`
/// and reads that field.
pub open spec fn getfield_outcome(jvm: JVM, f: FrameState, class: usize, index: u16) -> Result<
    Outcome,
    JVMError,
> {
    match field_key(jvm.class_loader, class, index) {
        Err(e) => Err(e),
        Ok(key) => get_field(f, jvm.heap@, key),
    }
}

/// The object and the value of a `putfield`, which pops a value and, below
/// it, a reference to an object.
pub open spec fn put_field(f: FrameState, heap: Seq<JObject>) -> Result<(usize, JValue), JVMError> {
    if f.stack.len() < 2 {
        Err(JVMError::InterpreterBug)
    } else {
        match object_at(f.stack, heap, 1) {
            Err(e) => Err(e),
            Ok(h) => Ok((h, top(f.stack, 0))),
        }
    }
}

/// `post` is `pre` with the field of key `key` set to `v`.
pub open spec fn field_set(pre: JObject, post: JObject, key: Seq<char>, v: JValue) -> bool {
    &&& post.class == pre.class
    &&& post.kind == pre.kind
    &&& post.fields.wf()
    &&& post.fields.contains(key)
    &&& post.fields.value(key) == v
    &&& forall|other: Seq<char>|
        other != key ==> (#[trigger] post.fields.contains(other)) == pre.fields.contains(other)
    &&& forall|other: Seq<char>|
        other != key && pre.fields.contains(other) ==> #[trigger] post.fields.value(other)
            == pre.fields.value(other)
}

/// The registry `post` is `pre` after the class `class` has resolved its
/// constant `index`: the resolution is remembered in the class, and nothing
/// else has changed.
pub open spec fn remembered(pre: ClassLoader, post: ClassLoader, class: usize, index: u16) -> bool {
    &&& pre.wf() ==> post.wf()
    &&& if class < pre.classes@.len() {
        &&& post.same_but_cache(pre, class as int)
        &&& post.classes@[class as int].constant_pool.resolved_constants@ == cache_after(
            pre.classes@[class as int].constant_pool.resolved_constants@,
            pre.classes@[class as int].constant_pool.cp@,
            index,
            pre,
        )
    } else {
        post == pre
    }
}

/// The machine `post` is `pre` after the class `class` has resolved its
/// constant `index`.
pub open spec fn linked_in(pre: JVM, post: JVM, class: usize, index: u16) -> bool {
    &&& post.heap == pre.heap
    &&& post.classes == pre.classes
    &&& post.interned_strings == pre.interned_strings
    &&& post.threads == pre.threads
    &&& pre.wf() ==> post.wf()
    &&& remembered(pre.class_loader, post.class_loader, class, index)
}

/// The text of a key that was computed, or the failure to compute it.
pub open spec fn keyed(r: Result<String, JVMError>) -> Result<Seq<char>, JVMError> {
    match r {
        Ok(key) => Ok(key@),
        Err(e) => Err(e),
    }
}

/// The handle of the class that the Class entry `index` of the class
/// `class` names: `ClassNotFound` when no class of that name is loaded.
pub open spec fn named_class(loader: ClassLoader, class: usize, index: u16) -> Result<
    usize,
    JVMError,
> {
    if class >= loader.classes@.len() {
        Err(JVMError::InterpreterBug)
    } else {
        match class_name_at(loader.classes@[class as int].constant_pool.cp@, index) {
            Err(e) => Err(e),
            Ok(name) => match loader.class_named(name@) {
                Some(c) => Ok(c),
                None => Err(JVMError::ClassNotFound),
            },
        }
    }
}

/// True when every field of the class `c` has a descriptor that starts
/// with a type letter.
pub open spec fn instantiable(loader: ClassLoader, c: usize) -> bool {
    forall|i: int|
        0 <= i < loader.classes@[c as int].fields.spec_len() ==> default_value(
            (#[trigger] loader.classes@[c as int].fields.values@[i]).descriptor@,
        ) is Some
}

/// The class of which `new` makes an object: the class that the entry
/// `index` names.  The operand stack must have room for the reference
/// (`InterpreterBug`) and the class must be instantiable
/// (`InvalidDescriptor`).
pub open spec fn new_target(jvm: JVM, f: FrameState, class: usize, index: u16) -> Result<
    usize,
    JVMError,
> {
    match named_class(jvm.class_loader, class, index) {
        Err(e) => Err(e),
        Ok(c) => if f.stack.len() >= f.max_stack {
            Err(JVMError::InterpreterBug)
        } else if !instantiable(jvm.class_loader, c) {
            Err(JVMError::InvalidDescriptor)
        } else {
            Ok(c)
        },
    }
}

/// `object` is a new plain object of the class with handle `c`: every
/// field of the class is there under its key, with the value that its
/// descriptor starts with.
pub open spec fn fresh_object(loader: ClassLoader, c: usize, object: JObject) -> bool {
    &&& object.class == c
    &&& object.kind is Object
    &&& object.fields.wf()
    &&& defaults_of(
        loader.classes@[c as int].fields,
        object.fields.names@,
        object.fields.values@,
        loader.classes@[c as int].fields.spec_len() as int,
    )
}

/// The length of the array that `newarray` and `anewarray` make: the
/// integer on top of the stack, which must not be negative
/// (`NegativeArraySize`).
pub open spec fn array_count(f: FrameState) -> Result<i32, JVMError> {
    if f.stack.len() < 1 {
        Err(JVMError::InterpreterBug)
    } else {
        match top(f.stack, 0) {
            JValue::Int(n) => if n < 0 {
                Err(JVMError::NegativeArraySize)
            } else {
                Ok(n)
            },
            _ => Err(JVMError::TypeMismatch),
        }
    }
}

/// The length and the class of the array that `newarray` makes for the
/// element type `ty`.
pub open spec fn new_array_target(jvm: JVM, f: FrameState, ty: AType) -> Result<
    (i32, usize),
    JVMError,
> {
    match array_count(f) {
        Err(e) => Err(e),
        Ok(n) => match jvm.class_loader.class_named(primitive_array_name(ty)) {
            Some(c) => Ok((n, c)),
            None => Err(JVMError::ClassNotFound),
        },
    }
}

/// The length of the array that `anewarray` makes and the name of its
/// class, where the entry `index` of the class `class` names the class of
/// the elements.
pub open spec fn new_reference_array_target(
    jvm: JVM,
    f: FrameState,
    class: usize,
    index: u16,
) -> Result<(i32, Seq<char>), JVMError> {
    match array_count(f) {
        Err(e) => Err(e),
        Ok(n) => if class >= jvm.class_loader.classes@.len() {
            Err(JVMError::InterpreterBug)
        } else {
            match class_name_at(jvm.class_loader.classes@[class as int].constant_pool.cp@, index) {
                Err(e) => Err(e),
                Ok(name) => Ok((n, reference_array_name(name@))),
            }
        },
    }
}

} // verus!
