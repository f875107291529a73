//! Fields of a class.
use crate::error::JVMError;
use crate::reader::{Attribute, AttributeInfo, FieldAccessFlags, FieldInfo};
use crate::vm::constant_pool::{constant_value_at, utf8_at, VMConstantPool};
use crate::vm::jvalue::JValue;
use crate::reader::ConstantPoolInfo;
use vstd::prelude::*;

verus! {

/// A field of a class: its name, its descriptor, its access flags and, for
/// a constant, its value.
#[derive(Debug)]
pub struct Field {
    pub name: String,
    pub descriptor: String,
    pub access_flags: FieldAccessFlags,
    pub constant_value: Option<JValue>,
}

/// The position of the first `ConstantValue` attribute among `attributes`
/// from `from` on.
pub open spec fn first_constant_value(attributes: Seq<AttributeInfo>, from: int) -> Option<int>
    decreases attributes.len() - from,
{
    if from < 0 || from >= attributes.len() {
        None
    } else if attributes[from].info is ConstantValue {
        Some(from)
    } else {
        first_constant_value(attributes, from + 1)
    }
}

/// The constant value that the attributes of a field give it.
pub open spec fn field_constant(cp: Seq<ConstantPoolInfo>, attributes: Seq<AttributeInfo>) -> Result<
    Option<JValue>,
    JVMError,
> {
    match first_constant_value(attributes, 0) {
        None => Ok(None),
        Some(i) => match constant_value_at(cp, attributes[i].info->constantvalue_index) {
            Ok(v) => Ok(Some(v)),
            Err(e) => Err(e),
        },
    }
}

/// The name, the descriptor and the constant value of the field that a
/// class file declares with `info`, or why there is no such field: an index
/// cannot be followed.
pub open spec fn field_parts(cp: Seq<ConstantPoolInfo>, info: FieldInfo) -> Result<
    (String, String, Option<JValue>),
    JVMError,
> {
    match utf8_at(cp, info.name_index) {
        Err(e) => Err(e),
        Ok(name) => match utf8_at(cp, info.descriptor_index) {
            Err(e) => Err(e),
            Ok(descriptor) => match field_constant(cp, info.attributes@) {
                Err(e) => Err(e),
                Ok(constant) => Ok((name, descriptor, constant)),
            },
        },
    }
}

impl Field {
    /// The name, the descriptor and the constant value of a field that was
    /// built, or the failure to build it.
    pub open spec fn parts(r: Result<Field, JVMError>) -> Result<
        (String, String, Option<JValue>),
        JVMError,
    > {
        match r {
            Ok(f) => Ok((f.name, f.descriptor, f.constant_value)),
            Err(e) => Err(e),
        }
    }

    /// The field that a class file declares with `info`, where `cp` is the
    /// file's constant pool.
    ///
    /// The name and the descriptor are the Utf8 entries that `info` points
    /// to; the constant value is that of the first `ConstantValue`
    /// attribute, if there is one.  Fails when an index cannot be followed.
    pub fn from_field_info(info: &FieldInfo, cp: &VMConstantPool) -> (r: Result<Field, JVMError>)
        ensures
            Self::parts(r) == field_parts(cp.cp@, *info),
            r is Ok ==> r->Ok_0.access_flags == info.access_flags,
    {
        let name = cp.find_utf8(info.name_index)?;
        let descriptor = cp.find_utf8(info.descriptor_index)?;
        let mut constant_value: Option<JValue> = None;
        let mut i: usize = 0;
        while i < info.attributes.len()
            invariant
                utf8_at(cp.cp@, info.name_index) == Ok::<String, JVMError>(name),
                utf8_at(cp.cp@, info.descriptor_index) == Ok::<String, JVMError>(descriptor),
                i <= info.attributes@.len(),
                constant_value is None,
                first_constant_value(info.attributes@, 0) == first_constant_value(
                    info.attributes@,
                    i as int,
                ),
            ensures
                utf8_at(cp.cp@, info.name_index) == Ok::<String, JVMError>(name),
                utf8_at(cp.cp@, info.descriptor_index) == Ok::<String, JVMError>(descriptor),
                i <= info.attributes@.len(),
                constant_value is None,
                i < info.attributes@.len() ==> first_constant_value(info.attributes@, 0) == Some(
                    i as int,
                ) && info.attributes@[i as int].info is ConstantValue,
                i >= info.attributes@.len() ==> first_constant_value(info.attributes@, 0) is None,
            decreases info.attributes@.len() - i,
        {
            match &info.attributes[i].info {
                Attribute::ConstantValue { constantvalue_index } => {
                    break ;
                },
                _ => {},
            }
            i = i + 1;
        }
        if i < info.attributes.len() {
            match &info.attributes[i].info {
                Attribute::ConstantValue { constantvalue_index } => {
                    constant_value = Some(cp.resolve_constant_value(*constantvalue_index)?);
                },
                _ => {},
            }
        }
        Ok(Field { name, descriptor, access_flags: info.access_flags, constant_value })
    }

    /// A field without a constant value.
    pub fn new(name: &str, descriptor: &str, access_flags: FieldAccessFlags) -> (f: Field)
        ensures
            f.name@ == name@,
            f.descriptor@ == descriptor@,
            f.access_flags == access_flags,
            f.constant_value is None,
    {
        Field {
            name: name.to_owned(),
            descriptor: descriptor.to_owned(),
            access_flags,
            constant_value: None,
        }
    }
}

} // verus!
