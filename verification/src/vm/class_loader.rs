//! The registry of loaded classes.
use crate::class_reader::{decodes, ClassFileReader};
use crate::error::{link_error, DecodeError, DecodeErrorKind, JVMError};
use crate::reader::{ClassAccessFlags, ClassFile, ConstantPoolInfo, FieldAccessFlags};
use crate::text::{make_member_key, replace_dots, slashed};
use crate::vm::class::{built_from, primitive_array_name, Class};
use crate::vm::constant_pool::{
    linked, lookup_class_name, lookup_name_and_type, lookup_utf8, member_at, ResolvedConstant,
    VMConstantPool,
};
use crate::vm::object_effect::{remembered, resolved};
use crate::vm::field::Field;
use crate::vm::method::Method;
use crate::vm::opcode::AType;
use crate::vm::stack_frame::share;
use crate::vm::table::NameTable;
use std::rc::Rc;
use vstd::prelude::*;

verus! {

/// The constant pool as the class file holds it.
pub type ConstantPool = Vec<ConstantPoolInfo>;

/// The loaded classes: an arena of classes, and the handle of each class by
/// name.  A handle is the position of the class in the arena; classes are
/// never removed, so a handle stays good.
#[derive(Debug)]
pub struct ClassLoader {
    pub loaded_classes: NameTable<usize>,
    pub classes: Vec<Class>,
}

/// `name` is the name of one of the eight classes of primitive arrays.
pub open spec fn is_primitive_array_name(name: Seq<char>) -> bool {
    ||| name == primitive_array_name(AType::Boolean)
    ||| name == primitive_array_name(AType::Byte)
    ||| name == primitive_array_name(AType::Char)
    ||| name == primitive_array_name(AType::Double)
    ||| name == primitive_array_name(AType::Float)
    ||| name == primitive_array_name(AType::Int)
    ||| name == primitive_array_name(AType::Long)
    ||| name == primitive_array_name(AType::Short)
}

/// `name` is the name of one of the eleven classes that every registry
/// starts with.
pub open spec fn is_default_name(name: Seq<char>) -> bool {
    ||| is_primitive_array_name(name)
    ||| name == "java/lang/Object"@
    ||| name == "java/lang/String"@
    ||| name == "java/lang/Class"@
}

impl ClassLoader {
    /// Every name leads to a class of the arena, and every class is well
    /// formed.
    pub open spec fn wf(&self) -> bool {
        &&& self.loaded_classes.wf()
        &&& forall|i: int|
            0 <= i < self.loaded_classes.values@.len() ==> (
            #[trigger] self.loaded_classes.values@[i]) < self.classes@.len()
        &&& forall|c: int| 0 <= c < self.classes@.len() ==> (#[trigger] self.classes@[c]).wf()
    }

    /// True when the registry is well formed.
    pub fn check(&self) -> (r: bool)
        ensures
            r == self.wf(),
    {
        if !self.loaded_classes.check() {
            return false;
        }
        let mut i: usize = 0;
        while i < self.loaded_classes.values.len()
            invariant
                i <= self.loaded_classes.values@.len(),
                forall|k: int|
                    0 <= k < i ==> (#[trigger] self.loaded_classes.values@[k])
                        < self.classes@.len(),
            decreases self.loaded_classes.values@.len() - i,
        {
            if self.loaded_classes.values[i] >= self.classes.len() {
                return false;
            }
            i = i + 1;
        }
        let mut c: usize = 0;
        while c < self.classes.len()
            invariant
                c <= self.classes@.len(),
                forall|k: int| 0 <= k < c ==> (#[trigger] self.classes@[k]).wf(),
            decreases self.classes@.len() - c,
        {
            if !self.classes[c].check() {
                return false;
            }
            c = c + 1;
        }
        true
    }

    /// The handle of the class loaded under `name`.
    pub open spec fn class_named(&self, name: Seq<char>) -> Option<usize> {
        if self.loaded_classes.contains(name) {
            Some(self.loaded_classes.value(name))
        } else {
            None
        }
    }

    /// The handle of the class loaded under `name`, if there is one.
    pub fn find_class(&self, name: &str) -> (r: Option<usize>)
        requires
            self.wf(),
        ensures
            r == self.class_named(name@),
            r is Some ==> r->0 < self.classes@.len(),
    {
        match self.loaded_classes.find(name) {
            Some(i) => Some(self.loaded_classes.values[i]),
            None => None,
        }
    }

    /// Adds `class` to the arena and makes `name` lead to it.  Returns the
    /// handle of the class.  The classes that were loaded keep their
    /// handles and stay as they are.
    pub fn register(&mut self, name: String, class: Class) -> (handle: usize)
        requires
            old(self).wf(),
            class.wf(),
        ensures
            final(self).wf(),
            handle == old(self).classes@.len(),
            final(self).classes@ == old(self).classes@.push(class),
            final(self).class_named(name@) == Some(handle),
            forall|other: Seq<char>|
                other != name@ ==> final(self).class_named(other) == old(self).class_named(other),
            final(self).loaded_classes.spec_len() == (if old(self).class_named(name@) is Some {
                old(self).loaded_classes.spec_len()
            } else {
                old(self).loaded_classes.spec_len() + 1
            }),
    {
        let handle = self.classes.len();
        self.classes.push(class);
        let ghost before = self.loaded_classes;
        let at = self.loaded_classes.insert(name, handle);
        proof {
            assert forall|i: int| 0 <= i < self.loaded_classes.values@.len() implies (
            #[trigger] self.loaded_classes.values@[i]) < self.classes@.len() by {
                if i != at && i < before.values@.len() {
                    assert(self.loaded_classes.values@[i] == before.values@[i]);
                } else {
                    self.loaded_classes.lemma_position(at as int);
                }
            }
        }
        handle
    }

    /// The class with handle `handle`.
    pub fn class(&self, handle: usize) -> (r: Option<&Class>)
        ensures
            r is Some <==> handle < self.classes@.len(),
            r is Some ==> *r->0 == self.classes@[handle as int],
    {
        if handle < self.classes.len() {
            Some(&self.classes[handle])
        } else {
            None
        }
    }

    /// The handle of the class and the key of the member that a field or
    /// method reference names.
    pub fn member(&self, cp: &Vec<ConstantPoolInfo>, class_index: u16, name_and_type_index: u16) -> (r:
        Result<(usize, String), JVMError>)
        requires
            self.wf(),
        ensures
            r is Ok ==> member_at(cp@, class_index, name_and_type_index, *self) == Ok::<
                (usize, Seq<char>),
                JVMError,
            >((r->Ok_0.0, r->Ok_0.1@)) && r->Ok_0.0 < self.classes@.len(),
            r is Err ==> member_at(cp@, class_index, name_and_type_index, *self) == Err::<
                (usize, Seq<char>),
                JVMError,
            >(r->Err_0),
    {
        let class_name = lookup_class_name(cp, class_index)?;
        let class = match self.find_class(class_name.as_str()) {
            Some(class) => class,
            None => {
                return Err(JVMError::ClassNotFound);
            },
        };
        let (name, descriptor) = lookup_name_and_type(cp, name_and_type_index)?;
        Ok((class, make_member_key(name.as_str(), descriptor.as_str())))
    }

    /// What the constant of `cp` at `index` resolves to against the loaded
    /// classes.
    pub fn link(&self, cp: &Vec<ConstantPoolInfo>, index: u16) -> (r: Result<
        ResolvedConstant,
        JVMError,
    >)
        requires
            self.wf(),
        ensures
            r == linked(cp@, index, *self),
    {
        let i = index as usize;
        if i >= cp.len() {
            return Err(link_error(DecodeErrorKind::InvalidPoolIndex, index));
        }
        match &cp[i] {
            ConstantPoolInfo::Integer { bytes } => Ok(ResolvedConstant::Integer(*bytes)),
            ConstantPoolInfo::Float { bytes } => Ok(ResolvedConstant::Float(*bytes)),
            ConstantPoolInfo::String { string_index } => {
                let text = lookup_utf8(cp, *string_index)?;
                Ok(ResolvedConstant::String(text))
            },
            ConstantPoolInfo::Class { name_index } => {
                let name = lookup_utf8(cp, *name_index)?;
                match self.find_class(name.as_str()) {
                    Some(class) => Ok(ResolvedConstant::Class(class)),
                    None => Err(JVMError::ClassNotFound),
                }
            },
            ConstantPoolInfo::FieldRef { class_index, name_and_type_index } => {
                let (class, key) = self.member(cp, *class_index, *name_and_type_index)?;
                match self.classes[class].fields.get(key.as_str()) {
                    Some(field) => Ok(ResolvedConstant::FieldRef { field: share(field) }),
                    None => Err(JVMError::MissingMember),
                }
            },
            ConstantPoolInfo::MethodRef { class_index, name_and_type_index } => {
                let (class, key) = self.member(cp, *class_index, *name_and_type_index)?;
                match self.classes[class].methods.get(key.as_str()) {
                    Some(method) => Ok(ResolvedConstant::MethodRef { method: share(method), class }),
                    None => Err(JVMError::MissingMember),
                }
            },
            _ => Err(link_error(DecodeErrorKind::UnexpectedPoolEntry, index)),
        }
    }

    /// `self` is `pre` but for the constants that the class `class` has
    /// resolved.
    pub open spec fn same_but_cache(&self, pre: ClassLoader, class: int) -> bool {
        &&& self.loaded_classes == pre.loaded_classes
        &&& self.classes@.len() == pre.classes@.len()
        &&& forall|c: int|
            0 <= c < pre.classes@.len() && c != class ==> #[trigger] self.classes@[c]
                == pre.classes@[c]
        &&& self.classes@[class].name == pre.classes@[class].name
        &&& self.classes@[class].super_name == pre.classes@[class].super_name
        &&& self.classes@[class].methods == pre.classes@[class].methods
        &&& self.classes@[class].fields == pre.classes@[class].fields
        &&& self.classes@[class].access_flags == pre.classes@[class].access_flags
        &&& self.classes@[class].constant_pool.cp == pre.classes@[class].constant_pool.cp
    }

    /// Resolves the constant at `index` of the pool of the class `class`.
    /// The first resolution of an index is remembered in the class; later
    /// ones return what was remembered.  `InterpreterBug` when `class` is
    /// no handle of a class.
    pub fn resolve_constant(&mut self, class: usize, index: u16) -> (r: Result<
        ResolvedConstant,
        JVMError,
    >)
        requires
            old(self).wf(),
        ensures
            final(self).wf(),
            r == resolved(*old(self), class, index),
            remembered(*old(self), *final(self), class, index),
    {
        if class >= self.classes.len() {
            return Err(JVMError::InterpreterBug);
        }
        match self.classes[class].constant_pool.cached(index) {
            Some(c) => Ok(c),
            None => {
                let c = self.link(&self.classes[class].constant_pool.cp, index)?;
                let copy = c.duplicate();
                self.classes[class].constant_pool.resolved_constants.insert(index, copy);
                Ok(c)
            },
        }
    }

    /// The path of the file that holds the class `name`: the name with
    /// slashes for dots, and `.class` behind it.
    pub fn class_path(name: &str) -> (r: String)
        ensures
            r@ == slashed(name@) + ".class"@,
    {
        let mut path = replace_dots(name);
        path.append(".class");
        path
    }

    /// The class loaded under `name` bears that name.
    pub open spec fn holds(&self, name: Seq<char>) -> bool {
        &&& self.class_named(name) is Some
        &&& self.class_named(name)->0 < self.classes@.len()
        &&& self.classes@[self.class_named(name)->0 as int].name@ == name
    }

    /// The class loaded under `name` bears that name and is bare.
    pub open spec fn holds_bare(&self, name: Seq<char>) -> bool {
        self.holds(name) && self.classes@[self.class_named(name)->0 as int].is_bare()
    }

    /// `java/lang/Object` is loaded.
    pub open spec fn holds_object(&self) -> bool {
        self.holds("java/lang/Object"@) && self.classes@[self.class_named(
            "java/lang/Object"@,
        )->0 as int].is_object_class()
    }

    /// `java/lang/String` is loaded.
    pub open spec fn holds_string(&self) -> bool {
        self.holds("java/lang/String"@) && self.classes@[self.class_named(
            "java/lang/String"@,
        )->0 as int].is_string_class()
    }

    /// The classes that every registry starts with are loaded: the eight
    /// classes of primitive arrays, `java/lang/Object`, `java/lang/String`
    /// and `java/lang/Class`.
    pub open spec fn has_defaults(&self) -> bool {
        &&& self.holds_bare(primitive_array_name(AType::Boolean))
        &&& self.holds_bare(primitive_array_name(AType::Byte))
        &&& self.holds_bare(primitive_array_name(AType::Char))
        &&& self.holds_bare(primitive_array_name(AType::Double))
        &&& self.holds_bare(primitive_array_name(AType::Float))
        &&& self.holds_bare(primitive_array_name(AType::Int))
        &&& self.holds_bare(primitive_array_name(AType::Long))
        &&& self.holds_bare(primitive_array_name(AType::Short))
        &&& self.holds_object()
        &&& self.holds_string()
        &&& self.holds_bare("java/lang/Class"@)
    }

    /// No class is loaded but those that every registry starts with.
    pub open spec fn only_defaults(&self) -> bool {
        forall|name: Seq<char>| self.class_named(name) is Some ==> is_default_name(name)
    }

    /// Loads `class` under its own name.  What was loaded under another
    /// name stays loaded as it is.
    pub fn add(&mut self, class: Class) -> (handle: usize)
        requires
            old(self).wf(),
            class.wf(),
        ensures
            final(self).wf(),
            handle == old(self).classes@.len(),
            final(self).classes@ == old(self).classes@.push(class),
            final(self).class_named(class.name@) == Some(handle),
            forall|other: Seq<char>|
                other != class.name@ ==> final(self).class_named(other) == old(self).class_named(
                    other,
                ),
            final(self).loaded_classes.spec_len() == (if old(self).class_named(class.name@)
                is Some {
                old(self).loaded_classes.spec_len()
            } else {
                old(self).loaded_classes.spec_len() + 1
            }),
    {
        let name = class.name.clone();
        self.register(name, class)
    }

    /// Loads the classes of primitive arrays.
    fn load_array_classes(&mut self)
        requires
            old(self).wf(),
            old(self).classes@.len() == 0,
            old(self).loaded_classes.spec_len() == 0,
            forall|name: Seq<char>| old(self).class_named(name) is None,
        ensures
            final(self).wf(),
            final(self).classes@.len() == 8,
            final(self).loaded_classes.spec_len() == 8,
            final(self).holds_bare(primitive_array_name(AType::Boolean)),
            final(self).holds_bare(primitive_array_name(AType::Byte)),
            final(self).holds_bare(primitive_array_name(AType::Char)),
            final(self).holds_bare(primitive_array_name(AType::Double)),
            final(self).holds_bare(primitive_array_name(AType::Float)),
            final(self).holds_bare(primitive_array_name(AType::Int)),
            final(self).holds_bare(primitive_array_name(AType::Long)),
            final(self).holds_bare(primitive_array_name(AType::Short)),
            forall|name: Seq<char>|
                final(self).class_named(name) is Some ==> is_primitive_array_name(name),
    {
        self.add(Class::primitive_array_class(AType::Boolean));
        self.add(Class::primitive_array_class(AType::Byte));
        self.add(Class::primitive_array_class(AType::Char));
        self.add(Class::primitive_array_class(AType::Double));
        self.add(Class::primitive_array_class(AType::Float));
        self.add(Class::primitive_array_class(AType::Int));
        self.add(Class::primitive_array_class(AType::Long));
        self.add(Class::primitive_array_class(AType::Short));
    }

    /// Loads the classes that every registry starts with.
    #[verifier::rlimit(40)]
    pub(crate) fn load_default_classes(&mut self)
        requires
            old(self).wf(),
            old(self).classes@.len() == 0,
            old(self).loaded_classes.spec_len() == 0,
            forall|name: Seq<char>| old(self).class_named(name) is None,
        ensures
            final(self).wf(),
            final(self).has_defaults(),
            final(self).only_defaults(),
            final(self).classes@.len() == 11,
            final(self).loaded_classes.spec_len() == 11,
    {
        self.load_array_classes();
        proof {
            reveal_strlit("java/lang/Object");
            reveal_strlit("java/lang/String");
            reveal_strlit("java/lang/Class");
            reveal_strlit("<init>");
            reveal_strlit("()V");
            reveal_strlit("value");
            reveal_strlit("[C");
        }
        let mut methods: NameTable<Rc<Method>> = NameTable::new();
        methods.insert(make_member_key("<init>", "()V"), Rc::new(Method::empty("<init>", "()V")));
        proof {
            reveal_strlit("<init>:()V");
            assert(crate::text::member_key("<init>"@, "()V"@) =~= "<init>:()V"@);
        }
        let object_class = Class {
            name: "java/lang/Object".to_owned(),
            super_name: None,
            fields: NameTable::new(),
            methods,
            constant_pool: VMConstantPool::empty(),
            access_flags: ClassAccessFlags { bits: ClassAccessFlags::PUBLIC },
        };
        let mut fields: NameTable<Rc<Field>> = NameTable::new();
        fields.insert(
            make_member_key("value", "[C"),
            Rc::new(
                Field::new(
                    "value",
                    "[C",
                    FieldAccessFlags { bits: FieldAccessFlags::FINAL | FieldAccessFlags::PRIVATE },
                ),
            ),
        );
        proof {
            reveal_strlit("value:[C");
            assert(crate::text::member_key("value"@, "[C"@) =~= "value:[C"@);
            assert(FieldAccessFlags::FINAL | FieldAccessFlags::PRIVATE == 0x0012u16) by (bit_vector)
                requires
                    FieldAccessFlags::FINAL == 0x0010u16,
                    FieldAccessFlags::PRIVATE == 0x0002u16,
            ;
        }
        let string_class = Class {
            name: "java/lang/String".to_owned(),
            super_name: Some("java/lang/Object".to_owned()),
            fields,
            methods: NameTable::new(),
            constant_pool: VMConstantPool::empty(),
            access_flags: ClassAccessFlags { bits: ClassAccessFlags::PUBLIC },
        };
        let class_class = Class {
            name: "java/lang/Class".to_owned(),
            super_name: Some("java/lang/Object".to_owned()),
            fields: NameTable::new(),
            methods: NameTable::new(),
            constant_pool: VMConstantPool::empty(),
            access_flags: ClassAccessFlags { bits: ClassAccessFlags::PUBLIC },
        };
        assert(object_class.is_object_class());
        assert(string_class.is_string_class());
        assert("java/lang/Object"@[10] != "java/lang/String"@[10]);
        assert("java/lang/Object"@[10] != "java/lang/Class"@[10]);
        assert("java/lang/String"@[10] != "java/lang/Class"@[10]);
        let ghost arrays = *self;
        assert(!is_primitive_array_name("java/lang/Object"@)) by {
            assert("java/lang/Object"@.len() == 16);
        }
        assert(!is_primitive_array_name("java/lang/String"@)) by {
            assert("java/lang/String"@.len() == 16);
        }
        assert(!is_primitive_array_name("java/lang/Class"@)) by {
            assert("java/lang/Class"@.len() == 15);
        }
        assert(arrays.class_named("java/lang/Object"@) is None);
        self.add(object_class);
        let ghost first = *self;
        assert(first.holds_object());
        assert(first.class_named("java/lang/String"@) is None);
        assert(first.loaded_classes.spec_len() == 9);
        self.add(string_class);
        let ghost second = *self;
        assert(second.holds_string());
        assert(second.holds_object());
        assert(second.class_named("java/lang/Class"@) is None);
        assert(second.loaded_classes.spec_len() == 10);
        self.add(class_class);
        let ghost third = *self;
        assert(third.holds_bare("java/lang/Class"@));
        assert(third.holds_string());
        assert(third.holds_object());
        assert(third.has_defaults());
        assert forall|name: Seq<char>| third.class_named(name) is Some implies is_default_name(
            name,
        ) by {
            if name != "java/lang/Class"@ && name != "java/lang/String"@ && name
                != "java/lang/Object"@ {
                assert(second.class_named(name) == third.class_named(name));
                assert(first.class_named(name) == second.class_named(name));
                assert(arrays.class_named(name) == first.class_named(name));
            }
        }
    }

    /// `post` is `pre` with `class` loaded under `name`, and `handle` is the
    /// handle of that class.
    pub open spec fn extended(
        pre: ClassLoader,
        post: ClassLoader,
        name: Seq<char>,
        class: Class,
        handle: usize,
    ) -> bool {
        &&& handle == pre.classes@.len()
        &&& post.classes@ == pre.classes@.push(class)
        &&& post.class_named(name) == Some(handle)
        &&& forall|other: Seq<char>|
            other != name ==> #[trigger] post.class_named(other) == pre.class_named(other)
    }

    /// Loading the class file `cf_r`, if it was decoded, into `pre` under
    /// `name` gave `post` and `r`: a decode failure and a failure to build
    /// the class leave the registry as it was.
    pub open spec fn defined(
        pre: ClassLoader,
        post: ClassLoader,
        name: Seq<char>,
        cf_r: Result<ClassFile, DecodeError>,
        r: Result<usize, JVMError>,
    ) -> bool {
        match cf_r {
            Err(d) => r == Err::<usize, JVMError>(JVMError::Decode(d)) && post == pre,
            Ok(cf) => exists|built: Result<Class, JVMError>| #[trigger]
                built_from(cf, built) && match built {
                    Err(e) => r == Err::<usize, JVMError>(e) && post == pre,
                    Ok(class) => r is Ok && Self::extended(pre, post, name, class, r->Ok_0),
                },
        }
    }

    /// What `load_class` does: a class that is loaded under `name` is
    /// returned as it is; else the class file at the start of `bytes` is
    /// decoded, the class is built from it and loaded under `name`.
    pub open spec fn loads(
        pre: ClassLoader,
        post: ClassLoader,
        name: Seq<char>,
        bytes: Seq<u8>,
        r: Result<usize, JVMError>,
    ) -> bool {
        match pre.class_named(name) {
            Some(handle) => r == Ok::<usize, JVMError>(handle) && post == pre,
            None => exists|end: int, kept: Seq<ConstantPoolInfo>, cf_r: Result<ClassFile, DecodeError>|
                #[trigger] decodes(bytes, 0, end, kept, cf_r) && Self::defined(
                    pre,
                    post,
                    name,
                    cf_r,
                    r,
                ),
        }
    }

    /// The handle of the class `name`.  A class that is loaded is returned
    /// as it is.  Else `bytes`, the contents of the file at
    /// `class_path(name)`, are decoded, and the class that they declare is
    /// loaded under `name`.
    pub fn load_class(&mut self, name: &str, bytes: Vec<u8>) -> (r: Result<usize, JVMError>)
        requires
            old(self).wf(),
        ensures
            final(self).wf(),
            Self::loads(*old(self), *final(self), name@, bytes@, r),
            r is Ok ==> r->Ok_0 < final(self).classes@.len(),
    {
        if let Some(class) = self.find_class(name) {
            return Ok(class);
        }
        let ghost input = bytes@;
        let mut reader = ClassFileReader::new(bytes);
        let decoded = reader.read();
        let ghost cf_r = decoded;
        let ghost end = reader.pos as int;
        let ghost kept = reader.constant_pool@;
        assert(decodes(input, 0, end, kept, cf_r));
        let classfile = match decoded {
            Ok(classfile) => classfile,
            Err(d) => {
                return Err(JVMError::Decode(d));
            },
        };
        let built = Class::from_classfile(classfile);
        let ghost built_r = built;
        assert(built_from(cf_r->Ok_0, built_r));
        let class = match built {
            Ok(class) => class,
            Err(e) => {
                return Err(e);
            },
        };
        let handle = self.register(name.to_owned(), class);
        Ok(handle)
    }

    /// A registry that holds the classes that every registry starts with.
    pub fn new() -> (r: ClassLoader)
        ensures
            r.wf(),
            r.has_defaults(),
            r.only_defaults(),
            r.classes@.len() == 11,
            r.loaded_classes.spec_len() == 11,
    {
        let mut loader = ClassLoader { loaded_classes: NameTable::new(), classes: Vec::new() };
        loader.load_default_classes();
        loader
    }
}

} // verus!
