//! Instructions that push a constant of the constant pool, and the table
//! of string objects that stand for string constants.
use crate::error::{link_error, link_fault, DecodeErrorKind, JVMError};
use crate::text::{encode_utf16, utf16_of};
use crate::vm::class_loader::ClassLoader;
use crate::vm::constant_pool::{constant_value_at, ResolvedConstant};
use crate::vm::effect::{push_value, FrameState};
use crate::vm::jobject::{defaults_of, JObject, JObjectKind};
use crate::vm::jvalue::JValue;
use crate::vm::jvm::{JVMResult, JVM};
use crate::vm::object_effect::{field_set, fresh_object, instantiable, remembered, resolved};
use crate::vm::stack_frame::{follows, StackFrame};
use vstd::prelude::*;

verus! {

/// The handles of the classes of which a string object is made:
/// `java/lang/String` and the class of arrays of characters.  Both must be
/// loaded (`ClassNotFound`) and instantiable (`InvalidDescriptor`).
pub open spec fn string_classes(loader: ClassLoader) -> Result<(usize, usize), JVMError> {
    match loader.class_named("java/lang/String"@) {
        None => Err(JVMError::ClassNotFound),
        Some(string_class) => match loader.class_named("[C"@) {
            None => Err(JVMError::ClassNotFound),
            Some(chars_class) => if !instantiable(loader, string_class) || !instantiable(
                loader,
                chars_class,
            ) {
                Err(JVMError::InvalidDescriptor)
            } else {
                Ok((string_class, chars_class))
            },
        },
    }
}

/// `chars` is a new array of the UTF-16 code units of `text`.
pub open spec fn holds_text(loader: ClassLoader, class: usize, chars: JObject, text: Seq<char>) -> bool {
    &&& chars.class == class
    &&& chars.kind matches JObjectKind::ArrayChar(v) && v@ == utf16_of(text)
    &&& chars.fields.wf()
}

/// `string` is a new string object whose field `value:[C` refers to the
/// object with handle `chars`.
pub open spec fn wraps(loader: ClassLoader, class: usize, string: JObject, chars: usize) -> bool {
    exists|fresh: JObject| #[trigger]
        fresh_object(loader, class, fresh) && field_set(
            fresh,
            string,
            "value:[C"@,
            JValue::Reference(chars),
        )
}

/// What interning `text` does.
///
/// A text that has a string object keeps it, and nothing changes.  For a
/// new text an array of its UTF-16 code units and a string object that
/// refers to the array are put on the heap, in this order, and the table
/// remembers the string object for the text.  A fault changes nothing.
pub open spec fn interns(pre: JVM, post: JVM, text: Seq<char>, r: Result<usize, JVMError>) -> bool {
    &&& pre.wf() ==> post.wf()
    &&& if pre.interned_strings.contains(text) {
        r == Ok::<usize, JVMError>(pre.interned_strings.value(text)) && post == pre
    } else {
        match string_classes(pre.class_loader) {
            Err(e) => r == Err::<usize, JVMError>(e) && post == pre,
            Ok((string_class, chars_class)) => {
                let n = pre.heap@.len() as int;
                &&& r == Ok::<usize, JVMError>((n + 1) as usize)
                &&& post.class_loader == pre.class_loader
                &&& post.classes == pre.classes
                &&& post.threads == pre.threads
                &&& post.heap@.len() == n + 2
                &&& post.heap@.take(n) == pre.heap@
                &&& holds_text(pre.class_loader, chars_class, post.heap@[n], text)
                &&& wraps(pre.class_loader, string_class, post.heap@[n + 1], n as usize)
                &&& post.interned_strings.contains(text)
                &&& post.interned_strings.value(text) == n + 1
                &&& forall|other: Seq<char>|
                    other != text ==> (#[trigger] post.interned_strings.contains(other))
                        == pre.interned_strings.contains(other)
                &&& forall|other: Seq<char>|
                    other != text && pre.interned_strings.contains(other)
                        ==> #[trigger] post.interned_strings.value(other)
                        == pre.interned_strings.value(other)
            },
        }
    }
}

/// The handle of the class of which mirrors are made: `java/lang/Class`,
/// which must be loaded (`ClassNotFound`) and instantiable
/// (`InvalidDescriptor`).
pub open spec fn mirror_class(loader: ClassLoader) -> Result<usize, JVMError> {
    match loader.class_named("java/lang/Class"@) {
        None => Err(JVMError::ClassNotFound),
        Some(class) => if !instantiable(loader, class) {
            Err(JVMError::InvalidDescriptor)
        } else {
            Ok(class)
        },
    }
}

/// `object` is a new mirror of the class with handle `c`: an object of the
/// class with handle `class` that stands for `c`, with every field at its
/// starting value.
pub open spec fn is_mirror(loader: ClassLoader, class: usize, object: JObject, c: usize) -> bool {
    &&& object.class == class
    &&& object.kind == JObjectKind::Mirror(c)
    &&& object.fields.wf()
    &&& defaults_of(
        loader.classes@[class as int].fields,
        object.fields.names@,
        object.fields.values@,
        loader.classes@[class as int].fields.spec_len() as int,
    )
}

/// What `ldc` does with a constant that is resolved to the class with
/// handle `c`: a new mirror of the class is put on the heap and a
/// reference to it is pushed.  A fault changes nothing.
pub open spec fn pushes_mirror(
    mid: JVM,
    post: JVM,
    before: StackFrame,
    after: StackFrame,
    r: JVMResult,
    c: usize,
) -> bool {
    match mirror_class(mid.class_loader) {
        Err(e) => r == Err::<(), JVMError>(e) && post == mid && after == before,
        Ok(class) => {
            &&& post.same_but_heap(mid)
            &&& post.heap@.len() == mid.heap@.len() + 1
            &&& post.heap@.take(mid.heap@.len() as int) == mid.heap@
            &&& is_mirror(mid.class_loader, class, post.heap@.last(), c)
            &&& follows(
                before,
                after,
                r,
                push_value(before.state(), JValue::Reference(mid.heap@.len() as usize)),
            )
        },
    }
}

/// What `ldc` does once the constant is resolved to `constant`, on the
/// machine `mid`: an integer or a float is pushed as it is, a string is
/// interned and a reference to its string object is pushed, and for a
/// class a reference to a new mirror of the class is pushed.  Any other
/// constant cannot be pushed.  The stack must have room
/// (`InterpreterBug`).  A fault changes nothing.
pub open spec fn pushes_constant(
    mid: JVM,
    post: JVM,
    before: StackFrame,
    after: StackFrame,
    r: JVMResult,
    constant: ResolvedConstant,
    index: u16,
) -> bool {
    if before.operand_stack@.len() >= before.method.max_stack {
        r == Err::<(), JVMError>(JVMError::InterpreterBug) && post == mid && after == before
    } else {
        match constant {
            ResolvedConstant::Integer(v) => post == mid && follows(
                before,
                after,
                r,
                push_value(before.state(), JValue::Int(v)),
            ),
            ResolvedConstant::Float(v) => post == mid && follows(
                before,
                after,
                r,
                push_value(before.state(), JValue::Float(v)),
            ),
            ResolvedConstant::String(text) => exists|h: Result<usize, JVMError>| #[trigger]
                interns(mid, post, text@, h) && match h {
                    Ok(handle) => follows(
                        before,
                        after,
                        r,
                        push_value(before.state(), JValue::Reference(handle)),
                    ),
                    Err(e) => r == Err::<(), JVMError>(e) && after == before,
                },
            ResolvedConstant::Class(c) => pushes_mirror(mid, post, before, after, r, c),
            _ => r == Err::<(), JVMError>(link_fault(DecodeErrorKind::UnexpectedPoolEntry, index))
                && post == mid && after == before,
        }
    }
}

/// What `ldc` and `ldc_w` do: the constant `index` of the frame's class is
/// resolved, which the class remembers, and pushed.
pub open spec fn loads_constant(
    pre: JVM,
    post: JVM,
    before: StackFrame,
    after: StackFrame,
    r: JVMResult,
    index: u16,
) -> bool {
    &&& before.wf() ==> after.wf()
    &&& pre.wf() ==> post.wf()
    &&& remembered(pre.class_loader, post.class_loader, before.class, index)
    &&& post.classes == pre.classes
    &&& post.threads == pre.threads
    &&& match resolved(pre.class_loader, before.class, index) {
        Err(e) => r == Err::<(), JVMError>(e) && post.heap == pre.heap && post.interned_strings
            == pre.interned_strings && after == before,
        Ok(constant) => pushes_constant(
            JVM { class_loader: post.class_loader, ..pre },
            post,
            before,
            after,
            r,
            constant,
            index,
        ),
    }
}

/// The long or double constant of the class `class` at `index`.
pub open spec fn wide_constant(loader: ClassLoader, class: usize, index: u16) -> Result<
    JValue,
    JVMError,
> {
    if class >= loader.classes@.len() {
        Err(JVMError::InterpreterBug)
    } else {
        match constant_value_at(loader.classes@[class as int].constant_pool.cp@, index) {
            Ok(JValue::Long(v)) => Ok(JValue::Long(v)),
            Ok(JValue::Double(v)) => Ok(JValue::Double(v)),
            Ok(_) => Err(link_fault(DecodeErrorKind::UnexpectedPoolEntry, index)),
            Err(e) => Err(e),
        }
    }
}

/// `ldc2_w`: pushes the long or double constant at `index`.
pub open spec fn ldc2_outcome(loader: ClassLoader, f: FrameState, class: usize, index: u16) -> Result<
    crate::vm::effect::Outcome,
    JVMError,
> {
    match wide_constant(loader, class, index) {
        Err(e) => Err(e),
        Ok(v) => push_value(f, v),
    }
}

impl JVM {
    /// The handle of the string object that stands for `s`, which is made
    /// when `s` is seen for the first time.
    pub fn make_java_string(&mut self, s: String) -> (r: Result<usize, JVMError>)
        requires
            old(self).wf(),
        ensures
            interns(*old(self), *final(self), s@, r),
    {
        if let Some(h) = self.interned_strings.get(s.as_str()) {
            return Ok(*h);
        }
        let string_class = match self.class_loader.find_class("java/lang/String") {
            Some(c) => c,
            None => {
                return Err(JVMError::ClassNotFound);
            },
        };
        let chars_class = match self.class_loader.find_class("[C") {
            Some(c) => c,
            None => {
                return Err(JVMError::ClassNotFound);
            },
        };
        let created = JObject::new(string_class, &self.class_loader.classes[string_class]);
        let chars = encode_utf16(s.as_str());
        let array = JObject::new_kind(
            chars_class,
            &self.class_loader.classes[chars_class],
            JObjectKind::ArrayChar(chars),
        );
        let (mut string_object, array_object) = match (created, array) {
            (Ok(string_object), Ok(array_object)) => (string_object, array_object),
            _ => {
                return Err(JVMError::InvalidDescriptor);
            },
        };
        let ghost fresh = string_object;
        let array_handle = self.allocate(array_object);
        string_object.set_field("value:[C", JValue::Reference(array_handle));
        let string_handle = self.allocate(string_object);
        self.interned_strings.insert(s, string_handle);
        proof {
            let n = old(self).heap@.len() as int;
            assert(self.heap@.take(n) =~= old(self).heap@);
            assert(fresh_object(old(self).class_loader, string_class, fresh));
            assert(field_set(fresh, self.heap@[n + 1], "value:[C"@, JValue::Reference(n as usize)));
        }
        Ok(string_handle)
    }

    /// `ldc` and `ldc_w`: pushes the constant `index` of the frame's class.
    pub fn ldc(&mut self, frame: &mut StackFrame, index: u16) -> (r: JVMResult)
        requires
            old(self).wf(),
        ensures
            loads_constant(*old(self), *final(self), *old(frame), *final(frame), r, index),
    {
        let constant = self.resolve(frame.class, index)?;
        let ghost mid = *self;
        if frame.operand_stack.len() >= frame.method.max_stack as usize {
            return Err(JVMError::InterpreterBug);
        }
        match constant {
            ResolvedConstant::Integer(v) => frame.push_int(v),
            ResolvedConstant::Float(v) => frame.push_float(v),
            ResolvedConstant::String(text) => {
                let interned = self.make_java_string(text);
                let ghost h = interned;
                assert(interns(mid, *self, text@, h));
                match interned {
                    Ok(handle) => frame.push_ref(handle),
                    Err(e) => Err(e),
                }
            },
            ResolvedConstant::Class(c) => {
                let class = match self.class_loader.find_class("java/lang/Class") {
                    Some(class) => class,
                    None => {
                        return Err(JVMError::ClassNotFound);
                    },
                };
                let mirror = match JObject::new_kind(
                    class,
                    &self.class_loader.classes[class],
                    JObjectKind::Mirror(c),
                ) {
                    Ok(mirror) => mirror,
                    Err(_) => {
                        return Err(JVMError::InvalidDescriptor);
                    },
                };
                let handle = self.allocate(mirror);
                proof {
                    assert(self.heap@.take(mid.heap@.len() as int) =~= mid.heap@);
                }
                frame.push_ref(handle)
            },
            _ => Err(link_error(DecodeErrorKind::UnexpectedPoolEntry, index)),
        }
    }

    /// `ldc2_w`: pushes the long or double constant `index` of the frame's
    /// class.
    pub fn ldc2_w(&self, frame: &mut StackFrame, index: u16) -> (r: JVMResult)
        ensures
            follows(
                *old(frame),
                *final(frame),
                r,
                ldc2_outcome(self.class_loader, old(frame).state(), old(frame).class, index),
            ),
    {
        if frame.class >= self.class_loader.classes.len() {
            return Err(JVMError::InterpreterBug);
        }
        let value = self.class_loader.classes[frame.class].constant_pool.resolve_constant_value(
            index,
        )?;
        match value {
            JValue::Long(v) => frame.push_long(v),
            JValue::Double(v) => frame.push_double(v),
            _ => Err(link_error(DecodeErrorKind::UnexpectedPoolEntry, index)),
        }
    }
}

} // verus!
