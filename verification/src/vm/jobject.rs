//! Heap objects: plain objects and typed arrays.
use crate::error::JVMError;
use crate::vm::class::Class;
use crate::vm::field::Field;
use crate::vm::jvalue::JValue;
use crate::vm::opcode::AType;
use crate::vm::table::NameTable;
use std::rc::Rc;
use vstd::prelude::*;

verus! {

/// What an object is: a plain object, the mirror of a class, or an array
/// with its elements.  Floats and doubles are kept as bit patterns,
/// references as handles, with `None` for the null reference.
#[derive(Debug)]
pub enum JObjectKind {
    Object,
    /// The object of class `java/lang/Class` that stands for the class
    /// with this handle.
    Mirror(usize),
    ArrayInt(Vec<i32>),
    ArrayLong(Vec<i64>),
    ArrayFloat(Vec<u32>),
    ArrayDouble(Vec<u64>),
    ArrayRef(Vec<Option<usize>>),
    ArrayChar(Vec<u16>),
    ArrayByte(Vec<i8>),
    ArrayShort(Vec<i16>),
    ArrayBoolean(Vec<bool>),
}

/// An object on the heap: the handle of its class, its kind, and the values
/// of its fields by key.
#[derive(Debug)]
pub struct JObject {
    pub class: usize,
    pub kind: JObjectKind,
    pub fields: NameTable<JValue>,
}

impl JObjectKind {
    /// The number of elements of an array; `None` for a plain object.
    pub open spec fn length(self) -> Option<nat> {
        match self {
            JObjectKind::Object => None,
            JObjectKind::Mirror(_) => None,
            JObjectKind::ArrayInt(v) => Some(v@.len()),
            JObjectKind::ArrayLong(v) => Some(v@.len()),
            JObjectKind::ArrayFloat(v) => Some(v@.len()),
            JObjectKind::ArrayDouble(v) => Some(v@.len()),
            JObjectKind::ArrayRef(v) => Some(v@.len()),
            JObjectKind::ArrayChar(v) => Some(v@.len()),
            JObjectKind::ArrayByte(v) => Some(v@.len()),
            JObjectKind::ArrayShort(v) => Some(v@.len()),
            JObjectKind::ArrayBoolean(v) => Some(v@.len()),
        }
    }

    /// An array of `n` elements of the primitive type `ty`, all zero.
    pub open spec fn is_zeroed(self, ty: AType, n: nat) -> bool {
        match (ty, self) {
            (AType::Boolean, JObjectKind::ArrayBoolean(v)) => v@ == Seq::new(n, |i: int| false),
            (AType::Char, JObjectKind::ArrayChar(v)) => v@ == Seq::new(n, |i: int| 0u16),
            (AType::Float, JObjectKind::ArrayFloat(v)) => v@ == Seq::new(n, |i: int| 0u32),
            (AType::Double, JObjectKind::ArrayDouble(v)) => v@ == Seq::new(n, |i: int| 0u64),
            (AType::Byte, JObjectKind::ArrayByte(v)) => v@ == Seq::new(n, |i: int| 0i8),
            (AType::Short, JObjectKind::ArrayShort(v)) => v@ == Seq::new(n, |i: int| 0i16),
            (AType::Int, JObjectKind::ArrayInt(v)) => v@ == Seq::new(n, |i: int| 0i32),
            (AType::Long, JObjectKind::ArrayLong(v)) => v@ == Seq::new(n, |i: int| 0i64),
            _ => false,
        }
    }
}

/// The value that a field of descriptor `descriptor` starts with: zero for
/// the integral types, a zero long, float or double, and null for a
/// reference or an array.  `None` when the descriptor starts with no type
/// letter.
pub open spec fn default_value(descriptor: Seq<char>) -> Option<JValue> {
    if descriptor.len() == 0 {
        None
    } else {
        let c = descriptor[0];
        if c == 'B' || c == 'S' || c == 'I' || c == 'C' || c == 'Z' {
            Some(JValue::Int(0))
        } else if c == 'J' {
            Some(JValue::Long(0))
        } else if c == 'F' {
            Some(JValue::Float(0))
        } else if c == 'D' {
            Some(JValue::Double(0))
        } else if c == 'L' || c == '[' {
            Some(JValue::Null)
        } else {
            None
        }
    }
}

/// Computes `default_value`.
pub fn default_for(descriptor: &str) -> (r: Option<JValue>)
    ensures
        r == default_value(descriptor@),
{
    if descriptor.unicode_len() == 0 {
        return None;
    }
    let c = descriptor.get_char(0);
    if c == 'B' || c == 'S' || c == 'I' || c == 'C' || c == 'Z' {
        Some(JValue::Int(0))
    } else if c == 'J' {
        Some(JValue::Long(0))
    } else if c == 'F' {
        Some(JValue::Float(0))
    } else if c == 'D' {
        Some(JValue::Double(0))
    } else if c == 'L' || c == '[' {
        Some(JValue::Null)
    } else {
        None
    }
}

/// `values` are the values that the first `n` of `fields` start with, and
/// `names` are their keys.
pub open spec fn defaults_of(
    fields: NameTable<Rc<Field>>,
    names: Seq<String>,
    values: Seq<JValue>,
    n: int,
) -> bool {
    &&& names.len() == n
    &&& values.len() == n
    &&& forall|i: int|
        #![trigger names[i]]
        #![trigger values[i]]
        0 <= i < n ==> names[i]@ == fields.names@[i]@ && Some(values[i]) == default_value(
            fields.values@[i].descriptor@,
        )
}

impl JObject {
    /// The fields of a new object of class `class`: one for each field of
    /// the class, under the same key, with the value that its descriptor
    /// starts with.  `InvalidDescriptor` when a descriptor starts with no
    /// type letter.
    pub fn default_fields(class: &Class) -> (r: Result<NameTable<JValue>, JVMError>)
        requires
            class.wf(),
        ensures
            r is Ok <==> forall|i: int|
                0 <= i < class.fields.spec_len() ==> default_value(
                    (#[trigger] class.fields.values@[i]).descriptor@,
                ) is Some,
            r is Ok ==> r->Ok_0.wf() && defaults_of(
                class.fields,
                r->Ok_0.names@,
                r->Ok_0.values@,
                class.fields.spec_len() as int,
            ),
            r is Err ==> r->Err_0 == JVMError::InvalidDescriptor,
    {
        let mut names: Vec<String> = Vec::new();
        let mut values: Vec<JValue> = Vec::new();
        let mut i: usize = 0;
        while i < class.fields.names.len()
            invariant
                class.wf(),
                i <= class.fields.spec_len(),
                defaults_of(class.fields, names@, values@, i as int),
                forall|k: int|
                    0 <= k < i ==> default_value(
                        (#[trigger] class.fields.values@[k]).descriptor@,
                    ) is Some,
            decreases class.fields.spec_len() - i,
        {
            let value = match default_for(class.fields.values[i].descriptor.as_str()) {
                Some(value) => value,
                None => {
                    return Err(JVMError::InvalidDescriptor);
                },
            };
            names.push(class.fields.names[i].clone());
            values.push(value);
            i = i + 1;
        }
        let table = NameTable { names, values };
        proof {
            assert forall|a: int, b: int|
                #![trigger table.names@[a], table.names@[b]]
                0 <= a < b < table.names@.len() implies table.names@[a]@ != table.names@[b]@ by {
                assert(class.fields.names@[a]@ != class.fields.names@[b]@);
            }
        }
        Ok(table)
    }

    /// A plain object of the class `class`, whose handle is `class_handle`,
    /// with every field at its starting value.
    pub fn new(class_handle: usize, class: &Class) -> (r: Result<JObject, JVMError>)
        requires
            class.wf(),
        ensures
            r is Ok <==> forall|i: int|
                0 <= i < class.fields.spec_len() ==> default_value(
                    (#[trigger] class.fields.values@[i]).descriptor@,
                ) is Some,
            r is Ok ==> r->Ok_0.class == class_handle && r->Ok_0.kind is Object
                && r->Ok_0.fields.wf() && defaults_of(
                class.fields,
                r->Ok_0.fields.names@,
                r->Ok_0.fields.values@,
                class.fields.spec_len() as int,
            ),
            r is Err ==> r->Err_0 == JVMError::InvalidDescriptor,
    {
        let fields = Self::default_fields(class)?;
        Ok(JObject { class: class_handle, kind: JObjectKind::Object, fields })
    }

    /// An object of kind `kind` of the class `class`, whose handle is
    /// `class_handle`, with every field at its starting value.
    pub fn new_kind(class_handle: usize, class: &Class, kind: JObjectKind) -> (r: Result<
        JObject,
        JVMError,
    >)
        requires
            class.wf(),
        ensures
            r is Ok <==> forall|i: int|
                0 <= i < class.fields.spec_len() ==> default_value(
                    (#[trigger] class.fields.values@[i]).descriptor@,
                ) is Some,
            r is Ok ==> r->Ok_0.class == class_handle && r->Ok_0.kind == kind
                && r->Ok_0.fields.wf() && defaults_of(
                class.fields,
                r->Ok_0.fields.names@,
                r->Ok_0.fields.values@,
                class.fields.spec_len() as int,
            ),
            r is Err ==> r->Err_0 == JVMError::InvalidDescriptor,
    {
        let fields = Self::default_fields(class)?;
        Ok(JObject { class: class_handle, kind, fields })
    }

    /// An array of `count` elements of the primitive type `ty`, all zero,
    /// of the class with handle `class_handle`.
    pub fn new_primitive_array(class_handle: usize, ty: AType, count: i32) -> (r: JObject)
        requires
            count >= 0,
        ensures
            r.class == class_handle,
            r.kind.is_zeroed(ty, count as nat),
            r.fields.wf(),
            r.fields.spec_len() == 0,
    {
        let n = count as usize;
        let kind = match ty {
            AType::Boolean => {
                let v = vec![false; n];
                assert(v@ =~= Seq::new(n as nat, |i: int| false));
                JObjectKind::ArrayBoolean(v)
            },
            AType::Char => {
                let v = vec![0u16; n];
                assert(v@ =~= Seq::new(n as nat, |i: int| 0u16));
                JObjectKind::ArrayChar(v)
            },
            AType::Float => {
                let v = vec![0u32; n];
                assert(v@ =~= Seq::new(n as nat, |i: int| 0u32));
                JObjectKind::ArrayFloat(v)
            },
            AType::Double => {
                let v = vec![0u64; n];
                assert(v@ =~= Seq::new(n as nat, |i: int| 0u64));
                JObjectKind::ArrayDouble(v)
            },
            AType::Byte => {
                let v = vec![0i8; n];
                assert(v@ =~= Seq::new(n as nat, |i: int| 0i8));
                JObjectKind::ArrayByte(v)
            },
            AType::Short => {
                let v = vec![0i16; n];
                assert(v@ =~= Seq::new(n as nat, |i: int| 0i16));
                JObjectKind::ArrayShort(v)
            },
            AType::Int => {
                let v = vec![0i32; n];
                assert(v@ =~= Seq::new(n as nat, |i: int| 0i32));
                JObjectKind::ArrayInt(v)
            },
            AType::Long => {
                let v = vec![0i64; n];
                assert(v@ =~= Seq::new(n as nat, |i: int| 0i64));
                JObjectKind::ArrayLong(v)
            },
        };
        JObject { class: class_handle, kind, fields: NameTable::new() }
    }

    /// An array of `count` null references, of the class with handle
    /// `class_handle`.
    pub fn new_reference_array(class_handle: usize, count: i32) -> (r: JObject)
        requires
            count >= 0,
        ensures
            r.class == class_handle,
            r.kind matches JObjectKind::ArrayRef(v) && v@ == Seq::new(
                count as nat,
                |i: int| None::<usize>,
            ),
            r.fields.wf(),
            r.fields.spec_len() == 0,
    {
        let v: Vec<Option<usize>> = vec![None; count as usize];
        assert(v@ =~= Seq::new(count as nat, |i: int| None::<usize>));
        JObject { class: class_handle, kind: JObjectKind::ArrayRef(v), fields: NameTable::new() }
    }

    /// What `array_length` returns: the number of elements of an array
    /// that has no more than `i32::MAX` of them.
    pub open spec fn spec_array_length(&self) -> Option<i32> {
        match self.kind.length() {
            Some(n) => if n <= i32::MAX {
                Some(n as i32)
            } else {
                None
            },
            None => None,
        }
    }

    /// The number of elements of the array; `None` for an object that is
    /// no array.
    pub fn array_length(&self) -> (r: Option<i32>)
        ensures
            r == self.spec_array_length(),
    {
        let n = match &self.kind {
            JObjectKind::ArrayInt(v) => v.len(),
            JObjectKind::ArrayLong(v) => v.len(),
            JObjectKind::ArrayFloat(v) => v.len(),
            JObjectKind::ArrayDouble(v) => v.len(),
            JObjectKind::ArrayRef(v) => v.len(),
            JObjectKind::ArrayChar(v) => v.len(),
            JObjectKind::ArrayByte(v) => v.len(),
            JObjectKind::ArrayShort(v) => v.len(),
            JObjectKind::ArrayBoolean(v) => v.len(),
            JObjectKind::Object => {
                return None;
            },
            JObjectKind::Mirror(_) => {
                return None;
            },
        };
        if n <= i32::MAX as usize {
            Some(n as i32)
        } else {
            None
        }
    }

    /// Sets the field under the key `name` to `value`.  The other fields,
    /// the class and the kind stay.
    pub fn set_field(&mut self, name: &str, value: JValue)
        requires
            old(self).fields.wf(),
        ensures
            final(self).fields.wf(),
            final(self).class == old(self).class,
            final(self).kind == old(self).kind,
            final(self).fields.contains(name@),
            final(self).fields.value(name@) == value,
            forall|other: Seq<char>|
                other != name@ ==> (final(self).fields.contains(other) == old(
                    self,
                ).fields.contains(other)),
            forall|other: Seq<char>|
                other != name@ && old(self).fields.contains(other) ==> final(self).fields.value(
                    other,
                ) == old(self).fields.value(other),
    {
        self.fields.insert(name.to_owned(), value);
    }

    /// The value of the field under the key `name`, if the object has one.
    pub fn get_field(&self, name: &str) -> (r: Option<JValue>)
        requires
            self.fields.wf(),
        ensures
            r is Some <==> self.fields.contains(name@),
            r is Some ==> r->0 == self.fields.value(name@),
    {
        match self.fields.get(name) {
            Some(v) => Some(*v),
            None => None,
        }
    }
}

} // verus!
