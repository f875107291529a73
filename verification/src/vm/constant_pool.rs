//! The constant pool of a loaded class: lookups by index, and lazy
//! resolution of symbolic references with a cache.
use crate::error::{link_error, link_fault, DecodeErrorKind, JVMError};
use crate::reader::ConstantPoolInfo;
use crate::text::member_key;
use crate::vm::class_loader::ClassLoader;
use crate::vm::field::Field;
use crate::vm::jvalue::JValue;
use crate::vm::method::Method;
use crate::vm::stack_frame::share;
use std::collections::HashMap;
use std::rc::Rc;
use vstd::prelude::*;

verus! {

/// A constant after resolution.
#[derive(Debug)]
pub enum ResolvedConstant {
    Integer(i32),
    /// A float, as its bit pattern.
    Float(u32),
    /// The text of a string constant.
    String(String),
    /// The handle of a loaded class.
    Class(usize),
    FieldRef { field: Rc<Field> },
    /// A method and the handle of the class that declares it.
    MethodRef { method: Rc<Method>, class: usize },
}

impl ResolvedConstant {
    /// A second handle to the same constant.
    pub fn duplicate(&self) -> (r: ResolvedConstant)
        ensures
            r == *self,
    {
        match self {
            ResolvedConstant::Integer(v) => ResolvedConstant::Integer(*v),
            ResolvedConstant::Float(v) => ResolvedConstant::Float(*v),
            ResolvedConstant::String(s) => ResolvedConstant::String(s.clone()),
            ResolvedConstant::Class(c) => ResolvedConstant::Class(*c),
            ResolvedConstant::FieldRef { field } => ResolvedConstant::FieldRef {
                field: share(field),
            },
            ResolvedConstant::MethodRef { method, class } => ResolvedConstant::MethodRef {
                method: share(method),
                class: *class,
            },
        }
    }
}

/// The constant pool of a loaded class, with the constants resolved so far.
#[derive(Debug)]
pub struct VMConstantPool {
    pub cp: Vec<ConstantPoolInfo>,
    pub resolved_constants: HashMap<u16, ResolvedConstant>,
}

/// The text of the Utf8 entry at `index`.
pub open spec fn utf8_at(cp: Seq<ConstantPoolInfo>, index: u16) -> Result<String, JVMError> {
    if index >= cp.len() {
        Err(link_fault(DecodeErrorKind::InvalidPoolIndex, index))
    } else {
        match cp[index as int] {
            ConstantPoolInfo::Utf8 { string } => Ok(string),
            _ => Err(link_fault(DecodeErrorKind::UnexpectedPoolEntry, index)),
        }
    }
}

/// The name of the class that the Class entry at `index` names.
pub open spec fn class_name_at(cp: Seq<ConstantPoolInfo>, index: u16) -> Result<String, JVMError> {
    if index >= cp.len() {
        Err(link_fault(DecodeErrorKind::InvalidPoolIndex, index))
    } else {
        match cp[index as int] {
            ConstantPoolInfo::Class { name_index } => utf8_at(cp, name_index),
            _ => Err(link_fault(DecodeErrorKind::UnexpectedPoolEntry, index)),
        }
    }
}

/// The name and the descriptor that the NameAndType entry at `index` names.
pub open spec fn name_and_type_at(cp: Seq<ConstantPoolInfo>, index: u16) -> Result<
    (String, String),
    JVMError,
> {
    if index >= cp.len() {
        Err(link_fault(DecodeErrorKind::InvalidPoolIndex, index))
    } else {
        match cp[index as int] {
            ConstantPoolInfo::NameAndType { name_index, descriptor_index } => match utf8_at(
                cp,
                name_index,
            ) {
                Ok(name) => match utf8_at(cp, descriptor_index) {
                    Ok(descriptor) => Ok((name, descriptor)),
                    Err(e) => Err(e),
                },
                Err(e) => Err(e),
            },
            _ => Err(link_fault(DecodeErrorKind::UnexpectedPoolEntry, index)),
        }
    }
}

/// The value of the numeric constant at `index`.
pub open spec fn constant_value_at(cp: Seq<ConstantPoolInfo>, index: u16) -> Result<
    JValue,
    JVMError,
> {
    if index >= cp.len() {
        Err(link_fault(DecodeErrorKind::InvalidPoolIndex, index))
    } else {
        match cp[index as int] {
            ConstantPoolInfo::Integer { bytes } => Ok(JValue::Int(bytes)),
            ConstantPoolInfo::Float { bytes } => Ok(JValue::Float(bytes)),
            ConstantPoolInfo::Long { bytes } => Ok(JValue::Long(bytes)),
            ConstantPoolInfo::Double { bytes } => Ok(JValue::Double(bytes)),
            _ => Err(link_fault(DecodeErrorKind::UnexpectedPoolEntry, index)),
        }
    }
}

/// The member of `table` that a reference to the class `class_index` and
/// the name and type `name_and_type_index` names: the handle of the class
/// and the key of the member.  `ClassNotFound` when the class is not
/// loaded.
pub open spec fn member_at(
    cp: Seq<ConstantPoolInfo>,
    class_index: u16,
    name_and_type_index: u16,
    loader: ClassLoader,
) -> Result<(usize, Seq<char>), JVMError> {
    match class_name_at(cp, class_index) {
        Err(e) => Err(e),
        Ok(class_name) => match loader.class_named(class_name@) {
            None => Err(JVMError::ClassNotFound),
            Some(class) => match name_and_type_at(cp, name_and_type_index) {
                Err(e) => Err(e),
                Ok((name, descriptor)) => Ok((class, member_key(name@, descriptor@))),
            },
        },
    }
}

/// What the constant at `index` resolves to against the classes that
/// `loader` holds.
///
/// An integer or float is itself; a string is its text; a class is the
/// handle of the loaded class of that name; a field or method is the
/// member of that key in the loaded class that declares it.
/// `ClassNotFound` when a class is not loaded, `MissingMember` when the
/// class lacks the member, and a decode failure when an index cannot be
/// followed or the entry is of a kind that does not resolve.
pub open spec fn linked(cp: Seq<ConstantPoolInfo>, index: u16, loader: ClassLoader) -> Result<
    ResolvedConstant,
    JVMError,
> {
    if index >= cp.len() {
        Err(link_fault(DecodeErrorKind::InvalidPoolIndex, index))
    } else {
        match cp[index as int] {
            ConstantPoolInfo::Integer { bytes } => Ok(ResolvedConstant::Integer(bytes)),
            ConstantPoolInfo::Float { bytes } => Ok(ResolvedConstant::Float(bytes)),
            ConstantPoolInfo::String { string_index } => match utf8_at(cp, string_index) {
                Ok(text) => Ok(ResolvedConstant::String(text)),
                Err(e) => Err(e),
            },
            ConstantPoolInfo::Class { name_index } => match utf8_at(cp, name_index) {
                Ok(name) => match loader.class_named(name@) {
                    Some(class) => Ok(ResolvedConstant::Class(class)),
                    None => Err(JVMError::ClassNotFound),
                },
                Err(e) => Err(e),
            },
            ConstantPoolInfo::FieldRef { class_index, name_and_type_index } => match member_at(
                cp,
                class_index,
                name_and_type_index,
                loader,
            ) {
                Err(e) => Err(e),
                Ok((class, key)) => if loader.classes@[class as int].fields.contains(key) {
                    Ok(
                        ResolvedConstant::FieldRef {
                            field: loader.classes@[class as int].fields.value(key),
                        },
                    )
                } else {
                    Err(JVMError::MissingMember)
                },
            },
            ConstantPoolInfo::MethodRef { class_index, name_and_type_index } => match member_at(
                cp,
                class_index,
                name_and_type_index,
                loader,
            ) {
                Err(e) => Err(e),
                Ok((class, key)) => if loader.classes@[class as int].methods.contains(key) {
                    Ok(
                        ResolvedConstant::MethodRef {
                            method: loader.classes@[class as int].methods.value(key),
                            class,
                        },
                    )
                } else {
                    Err(JVMError::MissingMember)
                },
            },
            _ => Err(link_fault(DecodeErrorKind::UnexpectedPoolEntry, index)),
        }
    }
}

/// What resolving the constant at `index` returns when `cache` holds the
/// constants resolved so far: the cached constant where there is one, and
/// else what the constant resolves to.
pub open spec fn resolution(
    cache: Map<u16, ResolvedConstant>,
    cp: Seq<ConstantPoolInfo>,
    index: u16,
    loader: ClassLoader,
) -> Result<ResolvedConstant, JVMError> {
    if cache.contains_key(index) {
        Ok(cache[index])
    } else {
        linked(cp, index, loader)
    }
}

/// The cache after resolving the constant at `index`: a constant that was
/// resolved for the first time is added.
pub open spec fn cache_after(
    cache: Map<u16, ResolvedConstant>,
    cp: Seq<ConstantPoolInfo>,
    index: u16,
    loader: ClassLoader,
) -> Map<u16, ResolvedConstant> {
    if cache.contains_key(index) {
        cache
    } else {
        match linked(cp, index, loader) {
            Ok(c) => cache.insert(index, c),
            Err(_) => cache,
        }
    }
}

/// The text of the Utf8 entry of `cp` at `index`, or why there is none.
pub fn lookup_utf8(cp: &Vec<ConstantPoolInfo>, index: u16) -> (r: Result<String, JVMError>)
    ensures
        r == utf8_at(cp@, index),
{
    let i = index as usize;
    if i >= cp.len() {
        return Err(link_error(DecodeErrorKind::InvalidPoolIndex, index));
    }
    match &cp[i] {
        ConstantPoolInfo::Utf8 { string } => Ok(string.clone()),
        _ => Err(link_error(DecodeErrorKind::UnexpectedPoolEntry, index)),
    }
}

/// The name of the class that the Class entry of `cp` at `index` names.
pub fn lookup_class_name(cp: &Vec<ConstantPoolInfo>, index: u16) -> (r: Result<String, JVMError>)
    ensures
        r == class_name_at(cp@, index),
{
    let i = index as usize;
    if i >= cp.len() {
        return Err(link_error(DecodeErrorKind::InvalidPoolIndex, index));
    }
    match &cp[i] {
        ConstantPoolInfo::Class { name_index } => lookup_utf8(cp, *name_index),
        _ => Err(link_error(DecodeErrorKind::UnexpectedPoolEntry, index)),
    }
}

/// The name and the descriptor that the NameAndType entry of `cp` at
/// `index` names.
pub fn lookup_name_and_type(cp: &Vec<ConstantPoolInfo>, index: u16) -> (r: Result<
    (String, String),
    JVMError,
>)
    ensures
        r == name_and_type_at(cp@, index),
{
    let i = index as usize;
    if i >= cp.len() {
        return Err(link_error(DecodeErrorKind::InvalidPoolIndex, index));
    }
    match &cp[i] {
        ConstantPoolInfo::NameAndType { name_index, descriptor_index } => {
            let name = lookup_utf8(cp, *name_index)?;
            let descriptor = lookup_utf8(cp, *descriptor_index)?;
            Ok((name, descriptor))
        },
        _ => Err(link_error(DecodeErrorKind::UnexpectedPoolEntry, index)),
    }
}

impl VMConstantPool {
    /// A pool without entries.
    pub fn empty() -> (r: VMConstantPool)
        ensures
            r.cp@ == Seq::<ConstantPoolInfo>::empty(),
            r.resolved_constants@ == Map::<u16, ResolvedConstant>::empty(),
    {
        VMConstantPool { cp: Vec::new(), resolved_constants: HashMap::new() }
    }

    /// The pool with the entries `cp`, none of them resolved.
    pub fn new(cp: Vec<ConstantPoolInfo>) -> (r: VMConstantPool)
        ensures
            r.cp == cp,
            r.resolved_constants@ == Map::<u16, ResolvedConstant>::empty(),
    {
        VMConstantPool { cp, resolved_constants: HashMap::new() }
    }

    /// The text of the Utf8 entry at `index`, or why there is none.
    pub fn find_utf8(&self, index: u16) -> (r: Result<String, JVMError>)
        ensures
            r == utf8_at(self.cp@, index),
    {
        lookup_utf8(&self.cp, index)
    }

    /// The text of the Utf8 entry at `index`.
    pub fn get_utf8(&self, index: u16) -> (r: String)
        requires
            utf8_at(self.cp@, index) is Ok,
        ensures
            Ok::<String, JVMError>(r) == utf8_at(self.cp@, index),
    {
        match &self.cp[index as usize] {
            ConstantPoolInfo::Utf8 { string } => string.clone(),
            _ => String::new(),
        }
    }

    /// The name of the class that the Class entry at `index` names.
    pub fn get_class_name(&self, index: u16) -> (r: Result<String, JVMError>)
        ensures
            r == class_name_at(self.cp@, index),
    {
        lookup_class_name(&self.cp, index)
    }

    /// The name and the descriptor that the NameAndType entry at `index`
    /// names.
    pub fn get_name_and_type(&self, index: u16) -> (r: Result<(String, String), JVMError>)
        ensures
            r == name_and_type_at(self.cp@, index),
    {
        lookup_name_and_type(&self.cp, index)
    }

    /// The value of the numeric constant at `index`: an `Int`, `Float`,
    /// `Long` or `Double`.
    pub fn resolve_constant_value(&self, index: u16) -> (r: Result<JValue, JVMError>)
        ensures
            r == constant_value_at(self.cp@, index),
    {
        let i = index as usize;
        if i >= self.cp.len() {
            return Err(link_error(DecodeErrorKind::InvalidPoolIndex, index));
        }
        match &self.cp[i] {
            ConstantPoolInfo::Integer { bytes } => Ok(JValue::Int(*bytes)),
            ConstantPoolInfo::Float { bytes } => Ok(JValue::Float(*bytes)),
            ConstantPoolInfo::Long { bytes } => Ok(JValue::Long(*bytes)),
            ConstantPoolInfo::Double { bytes } => Ok(JValue::Double(*bytes)),
            _ => Err(link_error(DecodeErrorKind::UnexpectedPoolEntry, index)),
        }
    }

    /// The constant at `index`, if it has been resolved.
    pub fn cached(&self, index: u16) -> (r: Option<ResolvedConstant>)
        ensures
            r is Some <==> self.resolved_constants@.contains_key(index),
            r is Some ==> r->0 == self.resolved_constants@[index],
    {
        match self.resolved_constants.get(&index) {
            Some(c) => Some(c.duplicate()),
            None => None,
        }
    }

    /// Resolves the constant at `index` against the classes that `loader`
    /// holds.  The first resolution of an index is remembered; later ones
    /// return what was remembered.
    pub fn resolve_constant(&mut self, index: u16, loader: &ClassLoader) -> (r: Result<
        ResolvedConstant,
        JVMError,
    >)
        requires
            loader.wf(),
        ensures
            final(self).cp == old(self).cp,
            r == resolution(old(self).resolved_constants@, old(self).cp@, index, *loader),
            final(self).resolved_constants@ == cache_after(
                old(self).resolved_constants@,
                old(self).cp@,
                index,
                *loader,
            ),
    {
        match self.cached(index) {
            Some(c) => Ok(c),
            None => {
                let c = loader.link(&self.cp, index)?;
                self.resolved_constants.insert(index, c.duplicate());
                Ok(c)
            },
        }
    }
}

} // verus!
