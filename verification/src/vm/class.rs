//! Loaded classes.
use crate::error::JVMError;
use crate::reader::{ClassAccessFlags, ClassFile, ConstantPoolInfo, FieldInfo, MethodInfo};
use crate::text::{join, make_member_key, member_key};
use crate::vm::constant_pool::{class_name_at, ResolvedConstant, VMConstantPool};
use crate::vm::field::{field_parts, Field};
use crate::vm::method::{method_parts, Method};
use crate::vm::opcode::AType;
use crate::vm::table::NameTable;
use std::rc::Rc;
use vstd::prelude::*;

verus! {

/// A class as the machine runs it.
#[derive(Debug)]
pub struct Class {
    /// The binary name, with slashes.
    pub name: String,
    pub super_name: Option<String>,
    /// The methods by key: name, colon, descriptor.
    pub methods: NameTable<Rc<Method>>,
    /// The fields by key: name, colon, descriptor.
    pub fields: NameTable<Rc<Field>>,
    pub constant_pool: VMConstantPool,
    pub access_flags: ClassAccessFlags,
}

/// The name of the class that every class but itself extends.
pub open spec fn object_class_name() -> Seq<char> {
    "java/lang/Object"@
}

/// The name of the class of arrays of the primitive type `ty`.
pub open spec fn primitive_array_name(ty: AType) -> Seq<char> {
    seq!['[', ty.spec_letter()]
}

/// The name of the class of arrays of references to `class_name`.
pub open spec fn reference_array_name(class_name: Seq<char>) -> Seq<char> {
    seq!['[', 'L'] + class_name + seq![';']
}

/// The keys of the first `n` of `methods`, or the first failure to build
/// one of them.
pub open spec fn method_keys(cp: Seq<ConstantPoolInfo>, methods: Seq<MethodInfo>, n: int) -> Result<
    Set<Seq<char>>,
    JVMError,
>
    decreases n,
{
    if n <= 0 {
        Ok(Set::empty())
    } else {
        match method_keys(cp, methods, n - 1) {
            Err(e) => Err(e),
            Ok(keys) => match method_parts(cp, methods[n - 1]) {
                Err(e) => Err(e),
                Ok(parts) => Ok(keys.insert(member_key(parts.0@, parts.1@))),
            },
        }
    }
}

/// The keys of the first `n` of `fields`, or the first failure to build one
/// of them.
pub open spec fn field_keys(cp: Seq<ConstantPoolInfo>, fields: Seq<FieldInfo>, n: int) -> Result<
    Set<Seq<char>>,
    JVMError,
>
    decreases n,
{
    if n <= 0 {
        Ok(Set::empty())
    } else {
        match field_keys(cp, fields, n - 1) {
            Err(e) => Err(e),
            Ok(keys) => match field_parts(cp, fields[n - 1]) {
                Err(e) => Err(e),
                Ok(parts) => Ok(keys.insert(member_key(parts.0@, parts.1@))),
            },
        }
    }
}

/// The last of the first `n` of `methods` whose key is `key`.
pub open spec fn last_method(
    cp: Seq<ConstantPoolInfo>,
    methods: Seq<MethodInfo>,
    n: int,
    key: Seq<char>,
) -> int
    decreases n,
{
    if n <= 0 {
        -1
    } else {
        match method_parts(cp, methods[n - 1]) {
            Ok(parts) => if member_key(parts.0@, parts.1@) == key {
                n - 1
            } else {
                last_method(cp, methods, n - 1, key)
            },
            Err(_) => last_method(cp, methods, n - 1, key),
        }
    }
}

/// The last of the first `n` of `fields` whose key is `key`.
pub open spec fn last_field(
    cp: Seq<ConstantPoolInfo>,
    fields: Seq<FieldInfo>,
    n: int,
    key: Seq<char>,
) -> int
    decreases n,
{
    if n <= 0 {
        -1
    } else {
        match field_parts(cp, fields[n - 1]) {
            Ok(parts) => if member_key(parts.0@, parts.1@) == key {
                n - 1
            } else {
                last_field(cp, fields, n - 1, key)
            },
            Err(_) => last_field(cp, fields, n - 1, key),
        }
    }
}

/// `table` holds the first `n` of `methods`: under each of their keys, and
/// under no other, the method built from the last of them with that key.
pub open spec fn holds_methods(
    table: NameTable<Rc<Method>>,
    cp: Seq<ConstantPoolInfo>,
    methods: Seq<MethodInfo>,
    n: int,
) -> bool {
    &&& table.wf()
    &&& method_keys(cp, methods, n) is Ok
    &&& forall|key: Seq<char>|
        #![trigger table.contains(key)]
        table.contains(key) <==> method_keys(cp, methods, n)->Ok_0.contains(key)
    &&& forall|key: Seq<char>|
        #![trigger table.value(key)]
        table.contains(key) ==> 0 <= last_method(cp, methods, n, key) < n && Method::parts(
            Ok(*table.value(key)),
        ) == method_parts(cp, methods[last_method(cp, methods, n, key)])
}

/// `table` holds the first `n` of `fields`: under each of their keys, and
/// under no other, the field built from the last of them with that key.
pub open spec fn holds_fields(
    table: NameTable<Rc<Field>>,
    cp: Seq<ConstantPoolInfo>,
    fields: Seq<FieldInfo>,
    n: int,
) -> bool {
    &&& table.wf()
    &&& field_keys(cp, fields, n) is Ok
    &&& forall|key: Seq<char>|
        #![trigger table.contains(key)]
        table.contains(key) <==> field_keys(cp, fields, n)->Ok_0.contains(key)
    &&& forall|key: Seq<char>|
        #![trigger table.value(key)]
        table.contains(key) ==> 0 <= last_field(cp, fields, n, key) < n && Field::parts(
            Ok(*table.value(key)),
        ) == field_parts(cp, fields[last_field(cp, fields, n, key)]) && table.value(
            key,
        ).access_flags == fields[last_field(cp, fields, n, key)].access_flags
}

/// The name of the super-class that a class file names: none when the
/// index is zero.
pub open spec fn super_name_at(cp: Seq<ConstantPoolInfo>, index: u16) -> Result<
    Option<String>,
    JVMError,
> {
    if index == 0 {
        Ok(None)
    } else {
        match class_name_at(cp, index) {
            Ok(name) => Ok(Some(name)),
            Err(e) => Err(e),
        }
    }
}

/// Once a method cannot be built, the keys of a longer list cannot be had.
pub proof fn lemma_method_keys_fail(
    cp: Seq<ConstantPoolInfo>,
    methods: Seq<MethodInfo>,
    i: int,
    n: int,
)
    requires
        0 <= i < n,
        method_keys(cp, methods, i) is Ok,
        method_parts(cp, methods[i]) is Err,
    ensures
        method_keys(cp, methods, n) == Err::<Set<Seq<char>>, JVMError>(
            method_parts(cp, methods[i])->Err_0,
        ),
    decreases n,
{
    if n > i + 1 {
        lemma_method_keys_fail(cp, methods, i, n - 1);
    }
}

/// Once a field cannot be built, the keys of a longer list cannot be had.
pub proof fn lemma_field_keys_fail(cp: Seq<ConstantPoolInfo>, fields: Seq<FieldInfo>, i: int, n: int)
    requires
        0 <= i < n,
        field_keys(cp, fields, i) is Ok,
        field_parts(cp, fields[i]) is Err,
    ensures
        field_keys(cp, fields, n) == Err::<Set<Seq<char>>, JVMError>(
            field_parts(cp, fields[i])->Err_0,
        ),
    decreases n,
{
    if n > i + 1 {
        lemma_field_keys_fail(cp, fields, i, n - 1);
    }
}

/// What building a class from the class file `cf` returns.
///
/// The failure is the first that is met in this order: the name of the
/// class, the name of the super-class, the methods in order, the fields in
/// order.  On success the class has the names that the file gives, the
/// file's constant pool with nothing resolved, its access flags, and its
/// methods and fields under their keys.
pub open spec fn built_from(cf: ClassFile, r: Result<Class, JVMError>) -> bool {
    let cp = cf.constant_pool@;
    match class_name_at(cp, cf.this_class) {
        Err(e) => r == Err::<Class, JVMError>(e),
        Ok(name) => match super_name_at(cp, cf.super_class) {
            Err(e) => r == Err::<Class, JVMError>(e),
            Ok(super_name) => match method_keys(cp, cf.methods@, cf.methods@.len() as int) {
                Err(e) => r == Err::<Class, JVMError>(e),
                Ok(_) => match field_keys(cp, cf.fields@, cf.fields@.len() as int) {
                    Err(e) => r == Err::<Class, JVMError>(e),
                    Ok(_) => {
                        &&& r is Ok
                        &&& r->Ok_0.name == name
                        &&& r->Ok_0.super_name == super_name
                        &&& r->Ok_0.constant_pool.cp == cf.constant_pool
                        &&& r->Ok_0.constant_pool.resolved_constants@ == Map::<
                            u16,
                            ResolvedConstant,
                        >::empty()
                        &&& r->Ok_0.access_flags == cf.access_flags
                        &&& holds_methods(r->Ok_0.methods, cp, cf.methods@, cf.methods@.len() as int)
                        &&& holds_fields(r->Ok_0.fields, cp, cf.fields@, cf.fields@.len() as int)
                    },
                },
            },
        },
    }
}

impl Class {
    /// The member tables hold no name twice.
    pub open spec fn wf(&self) -> bool {
        self.methods.wf() && self.fields.wf()
    }

    /// A public class without members and without constants, whose
    /// super-class is `java/lang/Object`.
    pub open spec fn is_bare(&self) -> bool {
        &&& self.super_name is Some
        &&& self.super_name->0@ == object_class_name()
        &&& self.methods.spec_len() == 0
        &&& self.fields.spec_len() == 0
        &&& self.constant_pool.cp@.len() == 0
        &&& self.constant_pool.resolved_constants@ == Map::<u16, ResolvedConstant>::empty()
        &&& self.access_flags.bits == ClassAccessFlags::PUBLIC
        &&& self.wf()
    }

    /// True when the class is well formed.
    pub fn check(&self) -> (r: bool)
        ensures
            r == self.wf(),
    {
        self.methods.check() && self.fields.check()
    }

    /// The class is `java/lang/Object` as every registry holds it: without
    /// super-class and without fields, with the constructor `<init>:()V`
    /// without code as its one method.
    pub open spec fn is_object_class(&self) -> bool {
        let key = "<init>:()V"@;
        &&& self.wf()
        &&& self.super_name is None
        &&& self.fields.spec_len() == 0
        &&& self.methods.spec_len() == 1
        &&& self.methods.contains(key)
        &&& self.methods.value(key).name@ == "<init>"@
        &&& self.methods.value(key).descriptor@ == "()V"@
        &&& self.methods.value(key).code@.len() == 0
        &&& self.methods.value(key).max_locals == 1
        &&& self.methods.value(key).max_stack == 0
    }

    /// The class is `java/lang/String` as every registry holds it: without
    /// methods, with the private final `value:[C` as its one field.
    pub open spec fn is_string_class(&self) -> bool {
        let key = "value:[C"@;
        &&& self.wf()
        &&& self.super_name is Some
        &&& self.super_name->0@ == "java/lang/Object"@
        &&& self.methods.spec_len() == 0
        &&& self.fields.spec_len() == 1
        &&& self.fields.contains(key)
        &&& self.fields.value(key).name@ == "value"@
        &&& self.fields.value(key).descriptor@ == "[C"@
        &&& self.fields.value(key).access_flags.bits == 0x0012
        &&& self.fields.value(key).constant_value is None
    }

    /// The methods that `infos` declare, under their keys.
    pub fn methods_with(infos: &Vec<MethodInfo>, cp: &VMConstantPool) -> (r: Result<
        NameTable<Rc<Method>>,
        JVMError,
    >)
        ensures
            r is Ok ==> holds_methods(r->Ok_0, cp.cp@, infos@, infos@.len() as int),
            r is Err ==> method_keys(cp.cp@, infos@, infos@.len() as int) == Err::<
                Set<Seq<char>>,
                JVMError,
            >(r->Err_0),
    {
        let ghost pool = cp.cp@;
        let mut table: NameTable<Rc<Method>> = NameTable::new();
        let mut i: usize = 0;
        assert(method_keys(pool, infos@, 0) == Ok::<Set<Seq<char>>, JVMError>(Set::empty()));
        while i < infos.len()
            invariant
                pool == cp.cp@,
                i <= infos@.len(),
                holds_methods(table, pool, infos@, i as int),
            decreases infos@.len() - i,
        {
            let method = match Method::from_method_info(&infos[i], cp) {
                Ok(method) => method,
                Err(e) => {
                    proof {
                        lemma_method_keys_fail(pool, infos@, i as int, infos@.len() as int);
                    }
                    return Err(e);
                },
            };
            let key = make_member_key(method.name.as_str(), method.descriptor.as_str());
            let ghost before = table;
            let ghost k = key@;
            let shared = Rc::new(method);
            table.insert(key, shared);
            proof {
                let keys = method_keys(pool, infos@, i as int)->Ok_0;
                assert(method_keys(pool, infos@, i + 1) == Ok::<Set<Seq<char>>, JVMError>(
                    keys.insert(k),
                ));
                assert forall|key: Seq<char>| #![trigger table.contains(key)] table.contains(key)
                    <==> keys.insert(k).contains(key) by {
                    if key != k {
                        assert(table.contains(key) == before.contains(key));
                    }
                }
                assert forall|key: Seq<char>| #![trigger table.value(key)] table.contains(key)
                    implies 0 <= last_method(pool, infos@, i + 1, key) < i + 1 && Method::parts(
                    Ok(*table.value(key)),
                ) == method_parts(pool, infos@[last_method(pool, infos@, i + 1, key)]) by {
                    if key != k {
                        assert(before.contains(key));
                        assert(table.value(key) == before.value(key));
                    }
                }
            }
            i = i + 1;
        }
        Ok(table)
    }

    /// The fields that `infos` declare, under their keys.
    pub fn fields_with(infos: &Vec<FieldInfo>, cp: &VMConstantPool) -> (r: Result<
        NameTable<Rc<Field>>,
        JVMError,
    >)
        ensures
            r is Ok ==> holds_fields(r->Ok_0, cp.cp@, infos@, infos@.len() as int),
            r is Err ==> field_keys(cp.cp@, infos@, infos@.len() as int) == Err::<
                Set<Seq<char>>,
                JVMError,
            >(r->Err_0),
    {
        let ghost pool = cp.cp@;
        let mut table: NameTable<Rc<Field>> = NameTable::new();
        let mut i: usize = 0;
        assert(field_keys(pool, infos@, 0) == Ok::<Set<Seq<char>>, JVMError>(Set::empty()));
        while i < infos.len()
            invariant
                pool == cp.cp@,
                i <= infos@.len(),
                holds_fields(table, pool, infos@, i as int),
            decreases infos@.len() - i,
        {
            let field = match Field::from_field_info(&infos[i], cp) {
                Ok(field) => field,
                Err(e) => {
                    proof {
                        lemma_field_keys_fail(pool, infos@, i as int, infos@.len() as int);
                    }
                    return Err(e);
                },
            };
            let key = make_member_key(field.name.as_str(), field.descriptor.as_str());
            let ghost before = table;
            let ghost k = key@;
            let shared = Rc::new(field);
            table.insert(key, shared);
            proof {
                let keys = field_keys(pool, infos@, i as int)->Ok_0;
                assert(field_keys(pool, infos@, i + 1) == Ok::<Set<Seq<char>>, JVMError>(
                    keys.insert(k),
                ));
                assert forall|key: Seq<char>| #![trigger table.contains(key)] table.contains(key)
                    <==> keys.insert(k).contains(key) by {
                    if key != k {
                        assert(table.contains(key) == before.contains(key));
                    }
                }
                assert forall|key: Seq<char>| #![trigger table.value(key)] table.contains(key)
                    implies 0 <= last_field(pool, infos@, i + 1, key) < i + 1 && Field::parts(
                    Ok(*table.value(key)),
                ) == field_parts(pool, infos@[last_field(pool, infos@, i + 1, key)])
                    && table.value(key).access_flags == infos@[last_field(
                    pool,
                    infos@,
                    i + 1,
                    key,
                )].access_flags by {
                    if key != k {
                        assert(before.contains(key));
                        assert(table.value(key) == before.value(key));
                    }
                }
            }
            i = i + 1;
        }
        Ok(table)
    }

    /// Builds the class that the class file `cf` declares.
    pub fn from_classfile(cf: ClassFile) -> (r: Result<Class, JVMError>)
        ensures
            built_from(cf, r),
            r is Ok ==> r->Ok_0.wf(),
    {
        let ClassFile { constant_pool, access_flags, this_class, super_class, fields, methods, .. } =
            cf;
        let cp = VMConstantPool::new(constant_pool);
        let name = cp.get_class_name(this_class)?;
        let super_name = if super_class != 0 {
            Some(cp.get_class_name(super_class)?)
        } else {
            None
        };
        let methods = Self::methods_with(&methods, &cp)?;
        let fields = Self::fields_with(&fields, &cp)?;
        Ok(Class { name, super_name, methods, fields, constant_pool: cp, access_flags })
    }

    /// The class of arrays of the primitive type `ty`.
    pub fn primitive_array_class(ty: AType) -> (c: Class)
        ensures
            c.name@ == primitive_array_name(ty),
            c.is_bare(),
    {
        let letter = match ty {
            AType::Byte => "B",
            AType::Char => "C",
            AType::Double => "D",
            AType::Float => "F",
            AType::Int => "I",
            AType::Long => "J",
            AType::Short => "S",
            AType::Boolean => "Z",
        };
        proof {
            reveal_strlit("[");
            reveal_strlit("B");
            reveal_strlit("C");
            reveal_strlit("D");
            reveal_strlit("F");
            reveal_strlit("I");
            reveal_strlit("J");
            reveal_strlit("S");
            reveal_strlit("Z");
            assert("["@ + letter@ =~= primitive_array_name(ty));
        }
        Class {
            name: join("[", letter),
            super_name: Some("java/lang/Object".to_owned()),
            methods: NameTable::new(),
            fields: NameTable::new(),
            constant_pool: VMConstantPool::empty(),
            access_flags: ClassAccessFlags { bits: ClassAccessFlags::PUBLIC },
        }
    }

    /// The class of arrays of references to the class `class_name`.
    pub fn reference_array_class(class_name: &str) -> (c: Class)
        ensures
            c.name@ == reference_array_name(class_name@),
            c.is_bare(),
    {
        let mut name = join("[L", class_name);
        name.append(";");
        proof {
            reveal_strlit("[L");
            reveal_strlit(";");
            assert(name@ =~= reference_array_name(class_name@));
        }
        Class {
            name,
            super_name: Some("java/lang/Object".to_owned()),
            methods: NameTable::new(),
            fields: NameTable::new(),
            constant_pool: VMConstantPool::empty(),
            access_flags: ClassAccessFlags { bits: ClassAccessFlags::PUBLIC },
        }
    }
}

} // verus!
