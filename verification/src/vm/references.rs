//! Instructions that create objects and read and write their fields.
use crate::error::{link_error, DecodeErrorKind, JVMError};
use crate::text::make_member_key;
use crate::vm::class::{primitive_array_name, Class};
use crate::vm::class_loader::ClassLoader;
use crate::vm::constant_pool::ResolvedConstant;
use crate::vm::effect::below;
use crate::vm::jobject::{JObject, JObjectKind};
use crate::vm::jvalue::JValue;
use crate::vm::jvm::{JVMResult, JVM};
use crate::vm::object_effect::{
    array_count, field_key, field_set, fresh_object, get_field, getfield_outcome, keyed,
    linked_in, named_class, new_array_target, new_reference_array_target, new_target, object_at,
    put_field, remembered, resolved,
};
use crate::vm::opcode::AType;
use crate::vm::stack_frame::{follows, StackFrame};
use vstd::prelude::*;

verus! {

impl JVM {
    /// Resolves the constant `index` of the class `class`.
    pub fn resolve(&mut self, class: usize, index: u16) -> (r: Result<ResolvedConstant, JVMError>)
        requires
            old(self).wf(),
        ensures
            r == resolved(old(self).class_loader, class, index),
            linked_in(*old(self), *final(self), class, index),
    {
        self.class_loader.resolve_constant(class, index)
    }

    /// The key of the field that the constant `index` of the class `class`
    /// names.
    pub fn resolve_field_key(&mut self, class: usize, index: u16) -> (r: Result<String, JVMError>)
        requires
            old(self).wf(),
        ensures
            keyed(r) == field_key(old(self).class_loader, class, index),
            linked_in(*old(self), *final(self), class, index),
    {
        match self.resolve(class, index)? {
            ResolvedConstant::FieldRef { field } => Ok(
                make_member_key(field.name.as_str(), field.descriptor.as_str()),
            ),
            _ => Err(link_error(DecodeErrorKind::UnexpectedPoolEntry, index)),
        }
    }

    /// The handle of the object that the reference `depth` places below the
    /// top of the stack leads to.
    pub(crate) fn object_handle(&self, frame: &StackFrame, depth: usize) -> (r: Result<usize, JVMError>)
        requires
            depth < frame.operand_stack@.len(),
        ensures
            r == object_at(frame.operand_stack@, self.heap@, depth as int),
    {
        let n = frame.operand_stack.len();
        match frame.operand_stack[n - 1 - depth] {
            JValue::Reference(h) => {
                if h >= self.heap.len() {
                    Err(JVMError::InterpreterBug)
                } else {
                    Ok(h)
                }
            },
            JValue::Null => Err(JVMError::NullDereference),
            _ => Err(JVMError::TypeMismatch),
        }
    }

    /// `getfield`: resolves the field reference `index` of the frame's
    /// class, pops a reference to an object and pushes the value of that
    /// field of the object.
    pub fn getfield(&mut self, frame: &mut StackFrame, index: u16) -> (r: JVMResult)
        requires
            old(self).wf(),
        ensures
            follows(
                *old(frame),
                *final(frame),
                r,
                getfield_outcome(*old(self), old(frame).state(), old(frame).class, index),
            ),
            linked_in(*old(self), *final(self), old(frame).class, index),
    {
        let key = self.resolve_field_key(frame.class, index)?;
        let n = frame.operand_stack.len();
        if n < 1 {
            return Err(JVMError::InterpreterBug);
        }
        let h = self.object_handle(frame, 0)?;
        match self.heap[h].get_field(key.as_str()) {
            Some(v) => {
                frame.operand_stack.truncate(n - 1);
                frame.operand_stack.push(v);
                assert(frame.operand_stack@ =~= below(old(frame).operand_stack@, 1).push(v));
                Ok(())
            },
            None => Err(JVMError::MissingMember),
        }
    }

    /// What `putfield` does: it resolves the field reference `index` of
    /// the frame's class, pops a value and a reference to an object, and
    /// sets that field of the object to the value.  A fault leaves the
    /// frame and the heap unchanged.
    pub open spec fn puts(
        pre: JVM,
        post: JVM,
        before: StackFrame,
        after: StackFrame,
        r: JVMResult,
        index: u16,
    ) -> bool {
        &&& before.wf() ==> after.wf()
        &&& pre.wf() ==> post.wf()
        &&& post.classes == pre.classes
        &&& post.interned_strings == pre.interned_strings
        &&& post.threads == pre.threads
        &&& remembered(pre.class_loader, post.class_loader, before.class, index)
        &&& match field_key(pre.class_loader, before.class, index) {
            Err(e) => r == Err::<(), JVMError>(e) && post.heap == pre.heap && after == before,
            Ok(key) => match put_field(before.state(), pre.heap@) {
                Err(e) => r == Err::<(), JVMError>(e) && post.heap == pre.heap && after == before,
                Ok((h, v)) => {
                    &&& r is Ok
                    &&& after.operand_stack@ == below(before.operand_stack@, 2)
                    &&& after.same_but_stack(before)
                    &&& post.heap@.len() == pre.heap@.len()
                    &&& forall|k: int|
                        0 <= k < pre.heap@.len() && k != h ==> #[trigger] post.heap@[k]
                            == pre.heap@[k]
                    &&& field_set(pre.heap@[h as int], post.heap@[h as int], key, v)
                },
            },
        }
    }

    /// `putfield`: sets a field of an object.
    pub fn putfield(&mut self, frame: &mut StackFrame, index: u16) -> (r: JVMResult)
        requires
            old(self).wf(),
        ensures
            Self::puts(*old(self), *final(self), *old(frame), *final(frame), r, index),
    {
        let key = self.resolve_field_key(frame.class, index)?;
        let n = frame.operand_stack.len();
        if n < 2 {
            return Err(JVMError::InterpreterBug);
        }
        let h = self.object_handle(frame, 1)?;
        let v = frame.operand_stack[n - 1];
        self.heap[h].set_field(key.as_str(), v);
        frame.operand_stack.truncate(n - 2);
        assert(frame.operand_stack@ =~= below(old(frame).operand_stack@, 2));
        Ok(())
    }

    /// Puts `object` on the heap and returns its handle.
    pub(crate) fn allocate(&mut self, object: JObject) -> (h: usize)
        requires
            object.fields.wf(),
        ensures
            h == old(self).heap@.len(),
            final(self).heap@ == old(self).heap@.push(object),
            final(self).same_but_heap(*old(self)),
            old(self).wf() ==> final(self).wf(),
    {
        let h = self.heap.len();
        self.heap.push(object);
        h
    }

    /// The handle of the class that the Class entry `index` of the class
    /// `class` names.
    pub fn class_named_by(&self, class: usize, index: u16) -> (r: Result<usize, JVMError>)
        requires
            self.wf(),
        ensures
            r == named_class(self.class_loader, class, index),
            r is Ok ==> r->Ok_0 < self.class_loader.classes@.len(),
    {
        if class >= self.class_loader.classes.len() {
            return Err(JVMError::InterpreterBug);
        }
        let name = self.class_loader.classes[class].constant_pool.get_class_name(index)?;
        match self.class_loader.find_class(name.as_str()) {
            Some(c) => Ok(c),
            None => Err(JVMError::ClassNotFound),
        }
    }

    /// What `new` does: it puts a new object of the class that the entry
    /// `index` names on the heap and pushes a reference to it.  A fault
    /// changes nothing.
    pub open spec fn creates(
        pre: JVM,
        post: JVM,
        before: StackFrame,
        after: StackFrame,
        r: JVMResult,
        index: u16,
    ) -> bool {
        &&& before.wf() ==> after.wf()
        &&& pre.wf() ==> post.wf()
        &&& match new_target(pre, before.state(), before.class, index) {
            Err(e) => r == Err::<(), JVMError>(e) && post == pre && after == before,
            Ok(c) => {
                &&& r is Ok
                &&& post.same_but_heap(pre)
                &&& post.heap@.len() == pre.heap@.len() + 1
                &&& post.heap@.take(pre.heap@.len() as int) == pre.heap@
                &&& fresh_object(pre.class_loader, c, post.heap@.last())
                &&& after.operand_stack@ == before.operand_stack@.push(
                    JValue::Reference(pre.heap@.len() as usize),
                )
                &&& after.same_but_stack(before)
            },
        }
    }

    /// `new`: creates an object.
    pub fn new_op(&mut self, frame: &mut StackFrame, index: u16) -> (r: JVMResult)
        requires
            old(self).wf(),
        ensures
            Self::creates(*old(self), *final(self), *old(frame), *final(frame), r, index),
    {
        let c = self.class_named_by(frame.class, index)?;
        if frame.operand_stack.len() >= frame.method.max_stack as usize {
            return Err(JVMError::InterpreterBug);
        }
        let object = JObject::new(c, &self.class_loader.classes[c])?;
        let reference = self.allocate(object);
        frame.operand_stack.push(JValue::Reference(reference));
        assert(self.heap@.take(old(self).heap@.len() as int) =~= old(self).heap@);
        Ok(())
    }

    /// The name of the class of arrays of the primitive type `ty`.
    pub fn primitive_array_class_name(ty: AType) -> (r: &'static str)
        ensures
            r@ == primitive_array_name(ty),
    {
        proof {
            reveal_strlit("[B");
            reveal_strlit("[C");
            reveal_strlit("[D");
            reveal_strlit("[F");
            reveal_strlit("[I");
            reveal_strlit("[J");
            reveal_strlit("[S");
            reveal_strlit("[Z");
        }
        let r = match ty {
            AType::Byte => "[B",
            AType::Char => "[C",
            AType::Double => "[D",
            AType::Float => "[F",
            AType::Int => "[I",
            AType::Long => "[J",
            AType::Short => "[S",
            AType::Boolean => "[Z",
        };
        assert(r@ =~= primitive_array_name(ty));
        r
    }

    /// The length of the array that `newarray` and `anewarray` make.
    pub fn count_on_top(frame: &StackFrame) -> (r: Result<i32, JVMError>)
        ensures
            r == array_count(frame.state()),
    {
        match frame.peek()? {
            JValue::Int(n) => {
                if n < 0 {
                    Err(JVMError::NegativeArraySize)
                } else {
                    Ok(n)
                }
            },
            _ => Err(JVMError::TypeMismatch),
        }
    }

    /// What `newarray` does: it pops the length, puts a new array of that
    /// many zero elements of the type `ty` on the heap and pushes a
    /// reference to it.  A fault changes nothing.
    pub open spec fn creates_array(
        pre: JVM,
        post: JVM,
        before: StackFrame,
        after: StackFrame,
        r: JVMResult,
        ty: AType,
    ) -> bool {
        &&& before.wf() ==> after.wf()
        &&& pre.wf() ==> post.wf()
        &&& match new_array_target(pre, before.state(), ty) {
            Err(e) => r == Err::<(), JVMError>(e) && post == pre && after == before,
            Ok((n, c)) => {
                &&& r is Ok
                &&& post.same_but_heap(pre)
                &&& post.heap@.len() == pre.heap@.len() + 1
                &&& post.heap@.take(pre.heap@.len() as int) == pre.heap@
                &&& post.heap@.last().class == c
                &&& post.heap@.last().kind.is_zeroed(ty, n as nat)
                &&& post.heap@.last().fields.spec_len() == 0
                &&& after.operand_stack@ == below(before.operand_stack@, 1).push(
                    JValue::Reference(pre.heap@.len() as usize),
                )
                &&& after.same_but_stack(before)
            },
        }
    }

    /// `newarray`: creates an array of a primitive type.
    pub fn newarray(&mut self, frame: &mut StackFrame, ty: AType) -> (r: JVMResult)
        requires
            old(self).wf(),
        ensures
            Self::creates_array(*old(self), *final(self), *old(frame), *final(frame), r, ty),
    {
        let count = Self::count_on_top(frame)?;
        let class = match self.class_loader.find_class(Self::primitive_array_class_name(ty)) {
            Some(class) => class,
            None => {
                return Err(JVMError::ClassNotFound);
            },
        };
        let reference = self.allocate(JObject::new_primitive_array(class, ty, count));
        let n = frame.operand_stack.len();
        frame.operand_stack.truncate(n - 1);
        frame.operand_stack.push(JValue::Reference(reference));
        proof {
            assert(self.heap@.take(old(self).heap@.len() as int) =~= old(self).heap@);
            assert(frame.operand_stack@ =~= below(old(frame).operand_stack@, 1).push(
                JValue::Reference(reference),
            ));
        }
        Ok(())
    }

    /// The registry `post` is `pre` with a class of arrays named `name`
    /// loaded: the one that `pre` holds, or a new bare class of that name.
    pub open spec fn array_class_ready(pre: ClassLoader, post: ClassLoader, name: Seq<char>) -> bool {
        &&& pre.wf() ==> post.wf()
        &&& post.class_named(name) is Some
        &&& post.class_named(name)->0 < post.classes@.len()
        &&& match pre.class_named(name) {
            Some(_) => post == pre,
            None => {
                &&& post.classes@.len() == pre.classes@.len() + 1
                &&& post.classes@.last().is_bare()
                &&& post.classes@.last().name@ == name
                &&& ClassLoader::extended(
                    pre,
                    post,
                    name,
                    post.classes@.last(),
                    pre.classes@.len() as usize,
                )
            },
        }
    }

    /// What `anewarray` does: it pops the length, makes sure that the class
    /// of arrays of the class that the entry `index` names is loaded, puts
    /// a new array of that many null references on the heap and pushes a
    /// reference to it.  A fault changes nothing.
    pub open spec fn creates_reference_array(
        pre: JVM,
        post: JVM,
        before: StackFrame,
        after: StackFrame,
        r: JVMResult,
        index: u16,
    ) -> bool {
        &&& before.wf() ==> after.wf()
        &&& pre.wf() ==> post.wf()
        &&& match new_reference_array_target(pre, before.state(), before.class, index) {
            Err(e) => r == Err::<(), JVMError>(e) && post == pre && after == before,
            Ok((n, name)) => {
                &&& r is Ok
                &&& Self::array_class_ready(pre.class_loader, post.class_loader, name)
                &&& post.classes == pre.classes
                &&& post.interned_strings == pre.interned_strings
                &&& post.threads == pre.threads
                &&& post.heap@.len() == pre.heap@.len() + 1
                &&& post.heap@.take(pre.heap@.len() as int) == pre.heap@
                &&& post.heap@.last().class == post.class_loader.class_named(name)->0
                &&& post.heap@.last().kind matches JObjectKind::ArrayRef(v) && v@ == Seq::new(
                    n as nat,
                    |i: int| None::<usize>,
                )
                &&& post.heap@.last().fields.spec_len() == 0
                &&& after.operand_stack@ == below(before.operand_stack@, 1).push(
                    JValue::Reference(pre.heap@.len() as usize),
                )
                &&& after.same_but_stack(before)
            },
        }
    }

    /// `anewarray`: creates an array of references.
    pub fn anewarray(&mut self, frame: &mut StackFrame, index: u16) -> (r: JVMResult)
        requires
            old(self).wf(),
        ensures
            Self::creates_reference_array(
                *old(self),
                *final(self),
                *old(frame),
                *final(frame),
                r,
                index,
            ),
    {
        let count = Self::count_on_top(frame)?;
        if frame.class >= self.class_loader.classes.len() {
            return Err(JVMError::InterpreterBug);
        }
        let element = self.class_loader.classes[frame.class].constant_pool.get_class_name(index)?;
        let array_class = Class::reference_array_class(element.as_str());
        let class = match self.class_loader.find_class(array_class.name.as_str()) {
            Some(class) => class,
            None => self.class_loader.add(array_class),
        };
        let reference = self.allocate(JObject::new_reference_array(class, count));
        let n = frame.operand_stack.len();
        frame.operand_stack.truncate(n - 1);
        frame.operand_stack.push(JValue::Reference(reference));
        proof {
            assert(self.heap@.take(old(self).heap@.len() as int) =~= old(self).heap@);
            assert(frame.operand_stack@ =~= below(old(frame).operand_stack@, 1).push(
                JValue::Reference(reference),
            ));
        }
        Ok(())
    }
}

} // verus!
