use rjvm::class_reader::ClassFileReader;
use rjvm::error::{DecodeError, DecodeErrorKind};
use rjvm::reader::{
    Attribute, AttributeInfo, ClassAccessFlags, ConstantPoolInfo, FieldAccessFlags, FieldInfo,
    MethodAccessFlags, MethodInfo,
};
use rjvm::vm::class::Class;
use rjvm::vm::class_loader::ClassLoader;
use rjvm::vm::constant_pool::{ResolvedConstant, VMConstantPool};
use rjvm::vm::field::Field;
use rjvm::vm::jobject::{JObject, JObjectKind};
use rjvm::vm::jvalue::{DescriptorType, JValue};
use rjvm::vm::jvm::{JVMError, JVM};
use rjvm::vm::method::Method;
use rjvm::vm::opcode::AType;
use rjvm::vm::stack_frame::StackFrame;
use rjvm::vm::table::NameTable;
use std::rc::Rc;

fn link_fault(kind: DecodeErrorKind, index: usize) -> JVMError {
    JVMError::Decode(DecodeError { kind, offset: index })
}

fn utf8(text: &str) -> ConstantPoolInfo {
    ConstantPoolInfo::Utf8 { string: String::from(text) }
}

fn pool() -> Vec<ConstantPoolInfo> {
    vec![
        ConstantPoolInfo::Unusable,
        utf8("Point"),
        ConstantPoolInfo::Class { name_index: 1 },
        utf8("x"),
        utf8("I"),
        ConstantPoolInfo::NameAndType { name_index: 3, descriptor_index: 4 },
        ConstantPoolInfo::FieldRef { class_index: 2, name_and_type_index: 5 },
        utf8("<init>"),
        utf8("()V"),
        ConstantPoolInfo::NameAndType { name_index: 7, descriptor_index: 8 },
        utf8("java/lang/Object"),
        ConstantPoolInfo::Class { name_index: 10 },
        ConstantPoolInfo::MethodRef { class_index: 11, name_and_type_index: 9 },
        ConstantPoolInfo::Integer { bytes: -9 },
        ConstantPoolInfo::Float { bytes: 0x4049_0FDB },
        ConstantPoolInfo::Long { bytes: 1 << 40 },
        ConstantPoolInfo::Unusable,
        ConstantPoolInfo::String { string_index: 1 },
        utf8("Missing"),
        ConstantPoolInfo::Class { name_index: 18 },
        ConstantPoolInfo::FieldRef { class_index: 11, name_and_type_index: 5 },
        ConstantPoolInfo::Double { bytes: 0x3FF8_0000_0000_0000 },
        ConstantPoolInfo::Unusable,
    ]
}

fn code_attribute(code: Vec<u8>, max_stack: u16, max_locals: u16) -> AttributeInfo {
    AttributeInfo {
        attribute_name_index: 0,
        attribute_length: 0,
        info: Attribute::Code {
            max_stack,
            max_locals,
            code_length: code.len() as u32,
            code,
            exception_table_length: 0,
            exception_table: vec![],
            attributes_count: 0,
            attributes: vec![],
        },
    }
}

#[test]
fn method_descriptors_are_parsed() {
    let (args, ret) = Method::parse_method_descriptor("()V").unwrap();
    assert!(args.is_empty());
    assert_eq!(ret, DescriptorType::Void);
    let (args, ret) = Method::parse_method_descriptor("([Ljava/lang/String;)V").unwrap();
    assert_eq!(
        args,
        vec![DescriptorType::Array(Box::new(DescriptorType::Object(String::from(
            "java/lang/String"
        ))))]
    );
    assert_eq!(ret, DescriptorType::Void);
    let (args, ret) = Method::parse_method_descriptor("(BCDFIJSZ[[ILa;)[J").unwrap();
    assert_eq!(
        args,
        vec![
            DescriptorType::Byte,
            DescriptorType::Char,
            DescriptorType::Double,
            DescriptorType::Float,
            DescriptorType::Int,
            DescriptorType::Long,
            DescriptorType::Short,
            DescriptorType::Boolean,
            DescriptorType::Array(Box::new(DescriptorType::Array(Box::new(DescriptorType::Int)))),
            DescriptorType::Object(String::from("a")),
        ]
    );
    assert_eq!(ret, DescriptorType::Array(Box::new(DescriptorType::Long)));
    let (args, _) = Method::parse_method_descriptor("(L\u{e9}t\u{e9};I)I").unwrap();
    assert_eq!(args[0], DescriptorType::Object(String::from("\u{e9}t\u{e9}")));
    assert_eq!(args[1], DescriptorType::Int);
}

#[test]
fn malformed_descriptors_are_refused() {
    for text in ["", "I", "(", "(I", "(I)", "()", "(V)V", "()VV", "()IX", "(Lfoo)V", "(L", "([)V", "(Q)V", "()[V", "(I)Lx"] {
        assert_eq!(
            Method::parse_method_descriptor(text).err(),
            Some(JVMError::InvalidDescriptor),
            "{:?}",
            text
        );
    }
}

#[test]
fn field_and_return_types_are_parsed_at_a_position() {
    assert_eq!(Method::parse_field_type("xI", 1), Ok((DescriptorType::Int, 2)));
    assert_eq!(
        Method::parse_field_type("[[Lp/Q;Z", 0),
        Ok((
            DescriptorType::Array(Box::new(DescriptorType::Array(Box::new(DescriptorType::Object(
                String::from("p/Q")
            ))))),
            7
        ))
    );
    assert_eq!(Method::parse_field_type("V", 0), Err(JVMError::InvalidDescriptor));
    assert_eq!(Method::parse_field_type("I", 1), Err(JVMError::InvalidDescriptor));
    assert_eq!(Method::parse_return_type("V", 0), Ok((DescriptorType::Void, 1)));
    assert_eq!(Method::parse_return_type("J", 0), Ok((DescriptorType::Long, 1)));
    assert_eq!(DescriptorType::Long.slots(), 2);
    assert_eq!(DescriptorType::Double.slots(), 2);
    assert_eq!(DescriptorType::Int.slots(), 1);
    assert_eq!(DescriptorType::Void.slots(), 0);
}

#[test]
fn an_empty_method_has_one_local_and_no_code() {
    let m = Method::empty("<init>", "()V");
    assert_eq!(m.name, "<init>");
    assert_eq!(m.descriptor, "()V");
    assert!(m.code.is_empty());
    assert_eq!(m.max_locals, 1);
    assert_eq!(m.max_stack, 0);
}

#[test]
fn category_two_is_long_and_double() {
    assert!(JValue::Long(0).is_category2());
    assert!(JValue::Double(0).is_category2());
    for v in [
        JValue::Byte(0),
        JValue::Short(0),
        JValue::Int(0),
        JValue::Char(0),
        JValue::Float(0),
        JValue::Boolean(false),
        JValue::Reference(0),
        JValue::Null,
    ] {
        assert!(!v.is_category2());
    }
    assert!(JValue::Null.is_reference());
    assert!(JValue::Reference(4).is_reference());
    assert!(!JValue::Int(4).is_reference());
}

#[test]
fn name_tables_keep_positions() {
    let mut table: NameTable<i32> = NameTable::new();
    assert_eq!(table.len(), 0);
    assert_eq!(table.get("a"), None);
    assert_eq!(table.insert(String::from("a"), 1), 0);
    assert_eq!(table.insert(String::from("b"), 2), 1);
    assert_eq!(table.insert(String::from("a"), 3), 0);
    assert_eq!(table.len(), 2);
    assert_eq!(table.get("a"), Some(&3));
    assert_eq!(table.get("b"), Some(&2));
    assert_eq!(table.find("b"), Some(1));
    assert_eq!(table.find("c"), None);
    assert_eq!(table.find(""), None);
}

#[test]
fn pool_lookups_follow_indices() {
    let cp = VMConstantPool::new(pool());
    assert_eq!(cp.get_utf8(1), "Point");
    assert_eq!(cp.find_utf8(3), Ok(String::from("x")));
    assert_eq!(cp.find_utf8(2), Err(link_fault(DecodeErrorKind::UnexpectedPoolEntry, 2)));
    assert_eq!(cp.find_utf8(99), Err(link_fault(DecodeErrorKind::InvalidPoolIndex, 99)));
    assert_eq!(cp.get_class_name(2), Ok(String::from("Point")));
    assert_eq!(cp.get_class_name(1), Err(link_fault(DecodeErrorKind::UnexpectedPoolEntry, 1)));
    assert_eq!(cp.get_name_and_type(5), Ok((String::from("x"), String::from("I"))));
    assert_eq!(cp.get_name_and_type(2), Err(link_fault(DecodeErrorKind::UnexpectedPoolEntry, 2)));
    assert_eq!(cp.resolve_constant_value(13), Ok(JValue::Int(-9)));
    assert_eq!(cp.resolve_constant_value(14), Ok(JValue::Float(0x4049_0FDB)));
    assert_eq!(cp.resolve_constant_value(15), Ok(JValue::Long(1 << 40)));
    assert_eq!(cp.resolve_constant_value(21), Ok(JValue::Double(0x3FF8_0000_0000_0000)));
    assert_eq!(
        cp.resolve_constant_value(16),
        Err(link_fault(DecodeErrorKind::UnexpectedPoolEntry, 16))
    );
    let empty = VMConstantPool::empty();
    assert!(empty.cp.is_empty());
    assert_eq!(empty.find_utf8(0), Err(link_fault(DecodeErrorKind::InvalidPoolIndex, 0)));
}

fn point_class() -> Class {
    let mut fields: NameTable<Rc<Field>> = NameTable::new();
    fields.insert(
        String::from("x:I"),
        Rc::new(Field::new("x", "I", FieldAccessFlags { bits: FieldAccessFlags::PUBLIC })),
    );
    Class {
        name: String::from("Point"),
        super_name: Some(String::from("java/lang/Object")),
        methods: NameTable::new(),
        fields,
        constant_pool: VMConstantPool::new(pool()),
        access_flags: ClassAccessFlags { bits: ClassAccessFlags::PUBLIC },
    }
}

#[test]
fn resolution_returns_the_same_constant_twice() {
    let mut loader = ClassLoader::new();
    let point = loader.add(point_class());
    for index in [13u16, 14, 17, 2, 6, 12] {
        let first = loader.resolve_constant(point, index).unwrap();
        let second = loader.resolve_constant(point, index).unwrap();
        match (first, second) {
            (ResolvedConstant::Integer(a), ResolvedConstant::Integer(b)) => {
                assert_eq!((a, b), (-9, -9))
            },
            (ResolvedConstant::Float(a), ResolvedConstant::Float(b)) => assert_eq!(a, b),
            (ResolvedConstant::String(a), ResolvedConstant::String(b)) => {
                assert_eq!(a, "Point");
                assert_eq!(a, b);
            },
            (ResolvedConstant::Class(a), ResolvedConstant::Class(b)) => {
                assert_eq!(a, point);
                assert_eq!(a, b);
            },
            (ResolvedConstant::FieldRef { field: a }, ResolvedConstant::FieldRef { field: b }) => {
                assert!(Rc::ptr_eq(&a, &b));
                assert_eq!(a.name, "x");
                assert_eq!(a.descriptor, "I");
            },
            (
                ResolvedConstant::MethodRef { method: a, class: ca },
                ResolvedConstant::MethodRef { method: b, class: cb },
            ) => {
                assert!(Rc::ptr_eq(&a, &b));
                assert_eq!(a.name, "<init>");
                assert_eq!(ca, cb);
                assert_eq!(Some(ca), loader.find_class("java/lang/Object"));
            },
            other => panic!("{:?}", other),
        }
    }
    assert_eq!(loader.classes[point].constant_pool.resolved_constants.len(), 6);
}

#[test]
fn a_cached_constant_outlives_what_it_was_resolved_against() {
    let loader = ClassLoader::new();
    let mut cp = VMConstantPool::new(pool());
    let object = loader.find_class("java/lang/Object").unwrap();
    assert!(matches!(cp.resolve_constant(11, &loader), Ok(ResolvedConstant::Class(c)) if c == object));
    let empty = ClassLoader { loaded_classes: NameTable::new(), classes: vec![] };
    assert!(matches!(cp.resolve_constant(11, &empty), Ok(ResolvedConstant::Class(c)) if c == object));
    assert!(matches!(cp.cached(11), Some(ResolvedConstant::Class(_))));
    assert!(cp.cached(12).is_none());
}

#[test]
fn resolution_faults_are_told_apart() {
    let mut loader = ClassLoader::new();
    let point = loader.add(point_class());
    assert_eq!(loader.resolve_constant(point, 19).err(), Some(JVMError::ClassNotFound));
    assert_eq!(loader.resolve_constant(point, 20).err(), Some(JVMError::MissingMember));
    assert_eq!(
        loader.resolve_constant(point, 15).err(),
        Some(link_fault(DecodeErrorKind::UnexpectedPoolEntry, 15))
    );
    assert_eq!(
        loader.resolve_constant(point, 1).err(),
        Some(link_fault(DecodeErrorKind::UnexpectedPoolEntry, 1))
    );
    assert_eq!(
        loader.resolve_constant(point, 500).err(),
        Some(link_fault(DecodeErrorKind::InvalidPoolIndex, 500))
    );
    assert!(loader.classes[point].constant_pool.resolved_constants.is_empty());
}

#[test]
fn a_new_registry_holds_the_default_classes() {
    let loader = ClassLoader::new();
    assert_eq!(loader.classes.len(), 11);
    for name in ["[B", "[C", "[D", "[F", "[I", "[J", "[S", "[Z"] {
        let class = &loader.classes[loader.find_class(name).unwrap()];
        assert_eq!(class.name, name);
        assert_eq!(class.super_name.as_deref(), Some("java/lang/Object"));
        assert_eq!(class.methods.len(), 0);
        assert_eq!(class.fields.len(), 0);
        assert_eq!(class.access_flags.bits(), 0x0001);
    }
    let object = &loader.classes[loader.find_class("java/lang/Object").unwrap()];
    assert_eq!(object.super_name, None);
    let init = object.methods.get("<init>:()V").unwrap();
    assert_eq!(init.name, "<init>");
    assert_eq!(init.descriptor, "()V");
    assert!(init.code.is_empty());
    assert_eq!(object.methods.len(), 1);
    let string = &loader.classes[loader.find_class("java/lang/String").unwrap()];
    let value = string.fields.get("value:[C").unwrap();
    assert_eq!(value.name, "value");
    assert_eq!(value.descriptor, "[C");
    assert_eq!(value.access_flags.bits(), 0x0012);
    assert_eq!(value.constant_value, None);
    assert_eq!(string.fields.len(), 1);
    let class = &loader.classes[loader.find_class("java/lang/Class").unwrap()];
    assert_eq!(class.methods.len() + class.fields.len(), 0);
    assert_eq!(loader.find_class("java.lang.Object"), None);
    assert!(loader.class(11).is_none());
    assert_eq!(loader.class(0).map(|c| c.name.as_str()), Some("[Z"));
}

#[test]
fn class_paths_use_slashes() {
    assert_eq!(ClassLoader::class_path("a.b.C"), "a/b/C.class");
    assert_eq!(ClassLoader::class_path("Main"), "Main.class");
    assert_eq!(ClassLoader::class_path("a/b.C"), "a/b/C.class");
    assert_eq!(ClassLoader::class_path(""), ".class");
}

#[test]
fn array_classes_are_named_by_their_descriptor() {
    let names: Vec<String> = [
        AType::Boolean,
        AType::Char,
        AType::Float,
        AType::Double,
        AType::Byte,
        AType::Short,
        AType::Int,
        AType::Long,
    ]
    .iter()
    .map(|ty| Class::primitive_array_class(*ty).name)
    .collect();
    assert_eq!(names, vec!["[Z", "[C", "[F", "[D", "[B", "[S", "[I", "[J"]);
    let class = Class::reference_array_class("java/lang/String");
    assert_eq!(class.name, "[Ljava/lang/String;");
    assert_eq!(class.super_name.as_deref(), Some("java/lang/Object"));
    assert_eq!(class.methods.len(), 0);
    assert_eq!(JVM::primitive_array_class_name(AType::Long), "[J");
}

fn class_file_bytes() -> Vec<u8> {
    let mut out = vec![0xCA, 0xFE, 0xBA, 0xBE, 0, 0, 0, 52, 0, 10];
    let text = |s: &str| {
        let mut e = vec![1u8, 0, s.len() as u8];
        e.extend_from_slice(s.as_bytes());
        e
    };
    out.extend(text("p/Thing"));
    out.extend_from_slice(&[7, 0, 1]);
    out.extend(text("p/Base"));
    out.extend_from_slice(&[7, 0, 3]);
    out.extend(text("go"));
    out.extend(text("(I)I"));
    out.extend(text("Code"));
    out.extend(text("n"));
    out.extend(text("J"));
    out.extend_from_slice(&[0, 0x21, 0, 2, 0, 4, 0, 0]);
    out.extend_from_slice(&[0, 1, 0, 2, 0, 8, 0, 9, 0, 0]);
    out.extend_from_slice(&[0, 1, 0, 1, 0, 5, 0, 6, 0, 1]);
    out.extend_from_slice(&[0, 7, 0, 0, 0, 14, 0, 1, 0, 2, 0, 0, 0, 2, 0x1B, 0xAC, 0, 0, 0, 0]);
    out.extend_from_slice(&[0, 0]);
    out
}

#[test]
fn a_class_is_built_from_its_class_file() {
    let cf = ClassFileReader::new(class_file_bytes()).read().unwrap();
    let class = Class::from_classfile(cf).unwrap();
    assert_eq!(class.name, "p/Thing");
    assert_eq!(class.super_name.as_deref(), Some("p/Base"));
    assert_eq!(class.access_flags.bits(), 0x0021);
    assert_eq!(class.constant_pool.cp.len(), 10);
    assert!(class.constant_pool.resolved_constants.is_empty());
    assert_eq!(class.methods.len(), 1);
    let go = class.methods.get("go:(I)I").unwrap();
    assert_eq!(go.name, "go");
    assert_eq!(go.descriptor, "(I)I");
    assert_eq!(go.code, vec![0x1B, 0xAC]);
    assert_eq!((go.max_stack, go.max_locals), (1, 2));
    assert_eq!(class.fields.len(), 1);
    let n = class.fields.get("n:J").unwrap();
    assert_eq!(n.name, "n");
    assert_eq!(n.descriptor, "J");
    assert_eq!(n.access_flags.bits(), 0x0002);
}

#[test]
fn loading_a_class_twice_returns_the_first() {
    let mut loader = ClassLoader::new();
    let first = loader.load_class("p.Thing", class_file_bytes()).unwrap();
    assert_eq!(first, 11);
    assert_eq!(loader.find_class("p.Thing"), Some(11));
    assert_eq!(loader.find_class("p/Thing"), None);
    assert_eq!(loader.load_class("p.Thing", vec![]), Ok(11));
    assert_eq!(loader.classes.len(), 12);
    assert_eq!(
        loader.load_class("q.Other", vec![1, 2, 3]),
        Err(JVMError::Decode(DecodeError { kind: DecodeErrorKind::UnexpectedEof, offset: 3 }))
    );
    assert_eq!(loader.classes.len(), 12);
    assert_eq!(loader.find_class("q.Other"), None);
}

#[test]
fn a_class_whose_name_cannot_be_followed_is_refused() {
    let mut bytes = class_file_bytes();
    let at = bytes.len() - 48;
    assert_eq!(&bytes[at - 2..at + 4], &[0, 0x21, 0, 2, 0, 4]);
    bytes[at + 1] = 1;
    let cf = ClassFileReader::new(bytes.clone()).read().unwrap();
    assert_eq!(
        Class::from_classfile(cf).err(),
        Some(link_fault(DecodeErrorKind::UnexpectedPoolEntry, 1))
    );
    bytes[at + 1] = 2;
    bytes[at + 3] = 0;
    let cf = ClassFileReader::new(bytes).read().unwrap();
    assert_eq!(Class::from_classfile(cf).unwrap().super_name, None);
}

#[test]
fn a_method_needs_code() {
    let cp = VMConstantPool::new(pool());
    let info = MethodInfo {
        access_flags: MethodAccessFlags { bits: MethodAccessFlags::PUBLIC },
        name_index: 7,
        descriptor_index: 8,
        attributes_count: 0,
        attributes: vec![],
    };
    assert_eq!(
        Method::from_method_info(&info, &cp).err(),
        Some(link_fault(DecodeErrorKind::MissingCode, 7))
    );
    let info = MethodInfo {
        access_flags: MethodAccessFlags { bits: MethodAccessFlags::PUBLIC },
        name_index: 7,
        descriptor_index: 8,
        attributes_count: 2,
        attributes: vec![code_attribute(vec![0xB1], 3, 4), code_attribute(vec![0x00], 5, 6)],
    };
    let m = Method::from_method_info(&info, &cp).unwrap();
    assert_eq!(m.name, "<init>");
    assert_eq!(m.descriptor, "()V");
    assert_eq!(m.code, vec![0xB1]);
    assert_eq!((m.max_stack, m.max_locals), (3, 4));
    let info = MethodInfo {
        access_flags: MethodAccessFlags { bits: 0 },
        name_index: 2,
        descriptor_index: 8,
        attributes_count: 0,
        attributes: vec![],
    };
    assert_eq!(
        Method::from_method_info(&info, &cp).err(),
        Some(link_fault(DecodeErrorKind::UnexpectedPoolEntry, 2))
    );
}

#[test]
fn a_field_takes_its_first_constant_value() {
    let cp = VMConstantPool::new(pool());
    let constant = |index: u16| AttributeInfo {
        attribute_name_index: 0,
        attribute_length: 2,
        info: Attribute::ConstantValue { constantvalue_index: index },
    };
    let info = FieldInfo {
        access_flags: FieldAccessFlags { bits: FieldAccessFlags::STATIC | FieldAccessFlags::FINAL },
        name_index: 3,
        descriptor_index: 4,
        attributes_count: 3,
        attributes: vec![
            AttributeInfo {
                attribute_name_index: 0,
                attribute_length: 0,
                info: Attribute::Deprecated { info: vec![] },
            },
            constant(13),
            constant(15),
        ],
    };
    let f = Field::from_field_info(&info, &cp).unwrap();
    assert_eq!(f.name, "x");
    assert_eq!(f.descriptor, "I");
    assert_eq!(f.access_flags.bits(), 0x0018);
    assert_eq!(f.constant_value, Some(JValue::Int(-9)));
    let plain = FieldInfo {
        access_flags: FieldAccessFlags { bits: 0 },
        name_index: 3,
        descriptor_index: 4,
        attributes_count: 0,
        attributes: vec![],
    };
    assert_eq!(Field::from_field_info(&plain, &cp).unwrap().constant_value, None);
    let bad = FieldInfo {
        access_flags: FieldAccessFlags { bits: 0 },
        name_index: 3,
        descriptor_index: 4,
        attributes_count: 1,
        attributes: vec![constant(1)],
    };
    assert_eq!(
        Field::from_field_info(&bad, &cp).err(),
        Some(link_fault(DecodeErrorKind::UnexpectedPoolEntry, 1))
    );
    let made = Field::new("a", "[I", FieldAccessFlags { bits: FieldAccessFlags::PRIVATE });
    assert_eq!((made.name.as_str(), made.descriptor.as_str()), ("a", "[I"));
    assert_eq!(made.constant_value, None);
}

fn class_with_fields(descriptors: &[(&str, &str)]) -> Class {
    let mut fields: NameTable<Rc<Field>> = NameTable::new();
    for (name, descriptor) in descriptors {
        fields.insert(
            format!("{}:{}", name, descriptor),
            Rc::new(Field::new(name, descriptor, FieldAccessFlags { bits: 0 })),
        );
    }
    Class {
        name: String::from("T"),
        super_name: None,
        methods: NameTable::new(),
        fields,
        constant_pool: VMConstantPool::empty(),
        access_flags: ClassAccessFlags { bits: 0 },
    }
}

#[test]
fn a_new_object_starts_with_default_values() {
    let class = class_with_fields(&[
        ("b", "B"),
        ("s", "S"),
        ("i", "I"),
        ("c", "C"),
        ("z", "Z"),
        ("j", "J"),
        ("f", "F"),
        ("d", "D"),
        ("l", "Ljava/lang/String;"),
        ("a", "[I"),
    ]);
    let object = JObject::new(7, &class).unwrap();
    assert_eq!(object.class, 7);
    assert!(matches!(object.kind, JObjectKind::Object));
    for key in ["b:B", "s:S", "i:I", "c:C", "z:Z"] {
        assert_eq!(object.get_field(key), Some(JValue::Int(0)), "{}", key);
    }
    assert_eq!(object.get_field("j:J"), Some(JValue::Long(0)));
    assert_eq!(object.get_field("f:F"), Some(JValue::Float(0.0f32.to_bits())));
    assert_eq!(object.get_field("d:D"), Some(JValue::Double(0.0f64.to_bits())));
    assert_eq!(object.get_field("l:Ljava/lang/String;"), Some(JValue::Null));
    assert_eq!(object.get_field("a:[I"), Some(JValue::Null));
    assert_eq!(object.get_field("i"), None);
    assert_eq!(object.array_length(), None);
    let fields = JObject::default_fields(&class).unwrap();
    assert_eq!(fields.len(), 10);
}

#[test]
fn a_field_without_a_type_letter_cannot_start() {
    for descriptor in ["", "V", "x", "(I)V"] {
        let class = class_with_fields(&[("i", "I"), ("q", descriptor)]);
        assert_eq!(JObject::new(0, &class).err(), Some(JVMError::InvalidDescriptor));
        assert_eq!(
            JObject::new_kind(0, &class, JObjectKind::Object).err(),
            Some(JVMError::InvalidDescriptor)
        );
    }
}

#[test]
fn fields_are_set_and_read() {
    let class = class_with_fields(&[("i", "I")]);
    let mut object = JObject::new(0, &class).unwrap();
    object.set_field("i:I", JValue::Int(5));
    object.set_field("extra", JValue::Long(6));
    assert_eq!(object.get_field("i:I"), Some(JValue::Int(5)));
    assert_eq!(object.get_field("extra"), Some(JValue::Long(6)));
    object.set_field("i:I", JValue::Null);
    assert_eq!(object.get_field("i:I"), Some(JValue::Null));
    assert_eq!(object.fields.len(), 2);
}

#[test]
fn arrays_start_zeroed_and_know_their_length() {
    let array = JObject::new_primitive_array(3, AType::Int, 5);
    assert_eq!(array.class, 3);
    assert!(matches!(&array.kind, JObjectKind::ArrayInt(v) if v == &vec![0; 5]));
    assert_eq!(array.array_length(), Some(5));
    assert_eq!(array.fields.len(), 0);
    assert!(matches!(
        JObject::new_primitive_array(0, AType::Boolean, 2).kind,
        JObjectKind::ArrayBoolean(v) if v == vec![false, false]
    ));
    assert!(matches!(
        JObject::new_primitive_array(0, AType::Char, 1).kind,
        JObjectKind::ArrayChar(v) if v == vec![0]
    ));
    assert!(matches!(
        JObject::new_primitive_array(0, AType::Float, 1).kind,
        JObjectKind::ArrayFloat(v) if v == vec![0.0f32.to_bits()]
    ));
    assert!(matches!(
        JObject::new_primitive_array(0, AType::Double, 1).kind,
        JObjectKind::ArrayDouble(v) if v == vec![0]
    ));
    assert!(matches!(
        JObject::new_primitive_array(0, AType::Byte, 1).kind,
        JObjectKind::ArrayByte(v) if v == vec![0]
    ));
    assert!(matches!(
        JObject::new_primitive_array(0, AType::Short, 0).kind,
        JObjectKind::ArrayShort(v) if v.is_empty()
    ));
    assert!(matches!(
        JObject::new_primitive_array(0, AType::Long, 1).kind,
        JObjectKind::ArrayLong(v) if v == vec![0]
    ));
    let references = JObject::new_reference_array(4, 3);
    assert!(matches!(&references.kind, JObjectKind::ArrayRef(v) if v == &vec![None, None, None]));
    assert_eq!(references.array_length(), Some(3));
    assert_eq!(JObject::new_reference_array(4, 0).array_length(), Some(0));
}

#[test]
fn typed_pops_check_the_kind_and_leave_the_stack_on_a_fault() {
    let method = Rc::new(Method {
        name: String::from("m"),
        descriptor: String::from("()V"),
        code: vec![],
        max_locals: 2,
        max_stack: 3,
    });
    let mut frame = StackFrame::new(9, method);
    assert_eq!(frame.class, 9);
    assert_eq!(frame.pc, 0);
    assert_eq!(frame.locals, vec![JValue::Null, JValue::Null]);
    assert_eq!(frame.pop_int(), Err(JVMError::InterpreterBug));
    assert_eq!(frame.peek(), Err(JVMError::InterpreterBug));
    assert_eq!(frame.push_int(1), Ok(()));
    assert_eq!(frame.push_long(2), Ok(()));
    assert_eq!(frame.push_ref(3), Ok(()));
    assert_eq!(frame.push_float(4), Err(JVMError::InterpreterBug));
    assert_eq!(frame.pop_int(), Err(JVMError::TypeMismatch));
    assert_eq!(frame.operand_stack.len(), 3);
    assert_eq!(frame.pop_ref(), Ok(3));
    assert_eq!(frame.pop_ref(), Err(JVMError::TypeMismatch));
    assert_eq!(frame.pop_long(), Ok(2));
    assert_eq!(frame.pop_long(), Err(JVMError::TypeMismatch));
    assert_eq!(frame.pop_int(), Ok(1));
    assert_eq!(frame.push_float(0x3F80_0000), Ok(()));
    assert_eq!(frame.pop_double(), Err(JVMError::TypeMismatch));
    assert_eq!(frame.pop_float(), Ok(0x3F80_0000));
    assert_eq!(frame.push_double(7), Ok(()));
    assert_eq!(frame.pop_float(), Err(JVMError::TypeMismatch));
    assert_eq!(frame.pop_double(), Ok(7));
    assert_eq!(frame.push(JValue::Null), Ok(()));
    assert_eq!(frame.pop_ref(), Err(JVMError::NullDereference));
    assert_eq!(frame.pop(), Ok(JValue::Null));
    assert_eq!(frame.pop(), Err(JVMError::InterpreterBug));
}

#[test]
fn a_new_machine_is_empty_but_for_the_default_classes() {
    let jvm = JVM::new();
    assert!(jvm.heap.is_empty());
    assert!(jvm.threads.is_empty());
    assert_eq!(jvm.classes.len(), 0);
    assert_eq!(jvm.interned_strings.len(), 0);
    assert_eq!(jvm.class_loader.classes.len(), 11);
}

#[test]
fn well_formedness_is_checked() {
    let mut table: NameTable<i32> = NameTable::new();
    assert!(table.check());
    table.insert(String::from("a"), 1);
    table.insert(String::from("b"), 2);
    assert!(table.check());
    table.names.push(String::from("a"));
    assert!(!table.check());
    table.values.push(3);
    assert!(!table.check());
    table.names[2] = String::from("c");
    assert!(table.check());

    let mut loader = ClassLoader::new();
    assert!(loader.check());
    loader.loaded_classes.values[0] = 11;
    assert!(!loader.check());
    loader.loaded_classes.values[0] = 0;
    loader.classes[3].fields.names.push(String::from("loose"));
    assert!(!loader.check());

    let mut jvm = JVM::new();
    assert!(jvm.check());
    jvm.heap.push(JObject::new_reference_array(0, 1));
    assert!(jvm.check());
    jvm.heap[0].fields.names.push(String::from("loose"));
    assert!(!jvm.check());
}

#[test]
fn a_field_that_the_object_lacks_is_a_missing_member() {
    let mut jvm = JVM::new();
    let point = jvm.class_loader.add(point_class());
    let method = Rc::new(Method {
        name: String::from("m"),
        descriptor: String::from("()V"),
        code: vec![],
        max_locals: 0,
        max_stack: 2,
    });
    let mut frame = StackFrame::new(point, method);
    jvm.heap.push(JObject::new_reference_array(0, 0));
    frame.operand_stack = vec![JValue::Reference(0)];
    assert_eq!(jvm.getfield(&mut frame, 6), Err(JVMError::MissingMember));
    assert_eq!(frame.operand_stack, vec![JValue::Reference(0)]);
    frame.operand_stack = vec![JValue::Reference(0), JValue::Int(4)];
    assert_eq!(jvm.putfield(&mut frame, 6), Ok(()));
    assert!(frame.operand_stack.is_empty());
    frame.operand_stack = vec![JValue::Reference(0)];
    assert_eq!(jvm.getfield(&mut frame, 6), Ok(()));
    assert_eq!(frame.operand_stack, vec![JValue::Int(4)]);
    frame.operand_stack = vec![JValue::Reference(9)];
    assert_eq!(jvm.getfield(&mut frame, 6), Err(JVMError::InterpreterBug));
    frame.operand_stack = vec![JValue::Int(9)];
    assert_eq!(jvm.getfield(&mut frame, 6), Err(JVMError::TypeMismatch));
    assert_eq!(jvm.getfield(&mut frame, 13).err(), Some(link_fault(DecodeErrorKind::UnexpectedPoolEntry, 13)));
    assert_eq!(jvm.getfield(&mut frame, 20), Err(JVMError::MissingMember));
    frame.class = 999;
    assert_eq!(jvm.getfield(&mut frame, 6), Err(JVMError::InterpreterBug));
}

#[test]
fn new_needs_room_on_the_stack_and_a_loaded_class() {
    let mut jvm = JVM::new();
    let point = jvm.class_loader.add(point_class());
    let method = Rc::new(Method {
        name: String::from("m"),
        descriptor: String::from("()V"),
        code: vec![],
        max_locals: 0,
        max_stack: 1,
    });
    let mut frame = StackFrame::new(point, method);
    assert_eq!(jvm.new_op(&mut frame, 19), Err(JVMError::ClassNotFound));
    assert_eq!(jvm.new_op(&mut frame, 2), Ok(()));
    assert_eq!(frame.operand_stack, vec![JValue::Reference(0)]);
    assert_eq!(jvm.heap[0].class, point);
    assert_eq!(jvm.heap[0].get_field("x:I"), Some(JValue::Int(0)));
    assert_eq!(jvm.new_op(&mut frame, 2), Err(JVMError::InterpreterBug));
    assert_eq!(jvm.heap.len(), 1);
    assert_eq!(jvm.class_needed(point, &rjvm::vm::opcode::Opcode::New(19)), Some(String::from("Missing")));
    assert_eq!(jvm.class_needed(point, &rjvm::vm::opcode::Opcode::GetField(6)), Some(String::from("Point")));
    assert_eq!(jvm.class_needed(point, &rjvm::vm::opcode::Opcode::IAdd), None);
}

#[test]
fn a_descriptor_has_one_argument_for_each_field_type() {
    let (args, ret) = Method::parse_method_descriptor("(La;Lb;)V").unwrap();
    assert_eq!(
        args,
        vec![
            DescriptorType::Object(String::from("a")),
            DescriptorType::Object(String::from("b")),
        ]
    );
    assert_eq!(ret, DescriptorType::Void);
    let (args, ret) = Method::parse_method_descriptor("(I[Ljava/lang/String;J)D").unwrap();
    assert_eq!(
        args,
        vec![
            DescriptorType::Int,
            DescriptorType::Array(Box::new(DescriptorType::Object(String::from(
                "java/lang/String"
            )))),
            DescriptorType::Long,
        ]
    );
    assert_eq!(ret, DescriptorType::Double);
    assert_eq!(
        Method::parse_method_descriptor("([[La;[Lb;Lc;)La;Lb;").err(),
        Some(JVMError::InvalidDescriptor)
    );
    let (args, _) = Method::parse_method_descriptor("([[La;[Lb;Lc;)La;").unwrap();
    assert_eq!(args.len(), 3);
}

#[test]
fn a_new_registry_holds_the_eleven_default_classes_and_no_other() {
    let loader = ClassLoader::new();
    assert_eq!(loader.loaded_classes.len(), 11);
    assert_eq!(loader.classes.len(), 11);
    let names = [
        "[Z",
        "[B",
        "[C",
        "[D",
        "[F",
        "[I",
        "[J",
        "[S",
        "java/lang/Object",
        "java/lang/String",
        "java/lang/Class",
    ];
    for name in names {
        let handle = loader.find_class(name).unwrap();
        assert_eq!(loader.classes[handle].name, name);
    }
    for name in &loader.loaded_classes.names {
        assert!(names.contains(&name.as_str()), "{:?}", name);
    }
    let jvm = JVM::new();
    assert_eq!(jvm.class_loader.loaded_classes.len(), 11);
    assert_eq!(jvm.class_loader.classes.len(), 11);
}
