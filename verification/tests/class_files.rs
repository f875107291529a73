use rjvm::error::{DecodeError, DecodeErrorKind};
use rjvm::reader::{
    Attribute, AttributeInfo, AttributeName, BootstrapMethod, ClassAccessFlags, ClassFile, ClassFileReader,
    ConstantPoolInfo, ExceptionTable, FieldAccessFlags, FieldInfo, LineNumberTable,
    MethodAccessFlags, MethodInfo, StackMapFrame, VerificationTypeInfo,
};
use rjvm::writer::{put_i32, put_i64, put_u16, put_u32, put_u64, put_u8};

fn u16be(v: u16) -> Vec<u8> {
    v.to_be_bytes().to_vec()
}

fn u32be(v: u32) -> Vec<u8> {
    v.to_be_bytes().to_vec()
}

fn utf8(text: &str) -> Vec<u8> {
    let mut out = vec![1u8];
    out.extend(u16be(text.len() as u16));
    out.extend_from_slice(text.as_bytes());
    out
}

fn attribute(name_index: u16, body: &[u8]) -> Vec<u8> {
    let mut out = u16be(name_index);
    out.extend(u32be(body.len() as u32));
    out.extend_from_slice(body);
    out
}

fn head(pool_count: u16, entries: &[Vec<u8>]) -> Vec<u8> {
    let mut out = vec![0xCA, 0xFE, 0xBA, 0xBE, 0x00, 0x03, 0x00, 0x34];
    out.extend(u16be(pool_count));
    for entry in entries {
        out.extend_from_slice(entry);
    }
    out
}

fn empty_tail() -> Vec<u8> {
    let mut out = u16be(0x0021);
    out.extend(u16be(2));
    out.extend(u16be(0));
    out.extend(u16be(0));
    out.extend(u16be(0));
    out.extend(u16be(0));
    out.extend(u16be(0));
    out
}

/// The pool of the sample: 1 Utf8 Sample, 2 Class 1, 3 Utf8 Code,
/// 4 Utf8 LineNumberTable, 5 Utf8 StackMapTable, 6 Utf8 SourceFile,
/// 7 Utf8 ConstantValue, 8 Utf8 f, 9 Utf8 I, 10 Integer 7, 11 Utf8 m,
/// 12 Utf8 ()V, 13 Utf8 Deprecated, 14 Utf8 Made.Up, 15 Utf8 Iface,
/// 16 Class 15, 17 Utf8 BootstrapMethods, 18 Utf8 NestMembers,
/// 19 Utf8 NestHost, 20 Utf8 PermittedSubclasses, 21 Utf8 Sample.java.
fn sample_pool() -> Vec<Vec<u8>> {
    let mut class = vec![7u8];
    class.extend(u16be(1));
    let mut integer = vec![3u8];
    integer.extend(u32be(7));
    let mut iface = vec![7u8];
    iface.extend(u16be(15));
    vec![
        utf8("Sample"),
        class,
        utf8("Code"),
        utf8("LineNumberTable"),
        utf8("StackMapTable"),
        utf8("SourceFile"),
        utf8("ConstantValue"),
        utf8("f"),
        utf8("I"),
        integer,
        utf8("m"),
        utf8("()V"),
        utf8("Deprecated"),
        utf8("Made.Up"),
        utf8("Iface"),
        iface,
        utf8("BootstrapMethods"),
        utf8("NestMembers"),
        utf8("NestHost"),
        utf8("PermittedSubclasses"),
        utf8("Sample.java"),
    ]
}

fn sample() -> Vec<u8> {
    let mut out = head(22, &sample_pool());
    out.extend(u16be(0x0021));
    out.extend(u16be(2));
    out.extend(u16be(0));
    // one interface
    out.extend(u16be(1));
    out.extend(u16be(16));
    // one field with a constant value and an attribute that is kept raw
    out.extend(u16be(1));
    out.extend(u16be(0x0019));
    out.extend(u16be(8));
    out.extend(u16be(9));
    out.extend(u16be(2));
    out.extend(attribute(13, &[]));
    out.extend(attribute(7, &u16be(10)));
    // one method with code
    out.extend(u16be(1));
    out.extend(u16be(0x0001));
    out.extend(u16be(11));
    out.extend(u16be(12));
    out.extend(u16be(1));
    let mut code = u16be(2);
    code.extend(u16be(3));
    code.extend(u32be(4));
    code.extend_from_slice(&[0x03, 0x3C, 0x00, 0xB1]);
    code.extend(u16be(1));
    code.extend_from_slice(&[0, 0, 0, 4, 0, 4, 0, 0]);
    code.extend(u16be(2));
    let mut lines = u16be(2);
    lines.extend_from_slice(&[0, 0, 0, 10, 0, 2, 0, 11]);
    code.extend(attribute(4, &lines));
    let mut frames = u16be(7);
    frames.push(5); // same
    frames.extend_from_slice(&[70, 1]); // same locals, one stack item: Integer
    frames.extend_from_slice(&[247, 0, 9, 7, 0, 2]); // extended, Object 2
    frames.extend_from_slice(&[249, 0, 1]); // chop 2
    frames.extend_from_slice(&[251, 0, 3]); // same extended
    frames.extend_from_slice(&[253, 0, 4, 4, 8, 0, 6]); // append Long, Uninitialized 6
    frames.extend_from_slice(&[255, 0, 5, 0, 1, 6, 0, 2, 0, 5]); // full
    code.extend(attribute(5, &frames));
    out.extend(attribute(3, &code));
    // class attributes
    out.extend(u16be(6));
    out.extend(attribute(6, &u16be(21)));
    out.extend(attribute(14, &[9, 8, 7]));
    let mut bootstrap = u16be(2);
    bootstrap.extend_from_slice(&[0, 1, 0, 2, 0, 3, 0, 4]);
    bootstrap.extend_from_slice(&[0, 5, 0, 0]);
    out.extend(attribute(17, &bootstrap));
    out.extend(attribute(18, &[0, 2, 0, 2, 0, 16]));
    out.extend(attribute(19, &u16be(2)));
    out.extend(attribute(20, &[0, 1, 0, 16]));
    out
}

fn serialise(cf: &ClassFile) -> Vec<u8> {
    cf.to_bytes().unwrap()
}

fn decode(bytes: Vec<u8>) -> Result<ClassFile, DecodeError> {
    ClassFileReader::new(bytes).read()
}

fn failure(kind: DecodeErrorKind, offset: usize) -> DecodeError {
    DecodeError { kind, offset }
}

#[test]
fn the_sample_decodes_into_its_records() {
    let cf = decode(sample()).unwrap();
    assert_eq!(cf.magic, 0xCAFEBABE);
    assert_eq!(cf.minor_version, 3);
    assert_eq!(cf.major_version, 52);
    assert_eq!(cf.constant_pool_count, 22);
    assert_eq!(cf.constant_pool.len(), 22);
    assert!(matches!(cf.constant_pool[0], ConstantPoolInfo::Unusable));
    assert!(matches!(&cf.constant_pool[1], ConstantPoolInfo::Utf8 { string } if string == "Sample"));
    assert!(matches!(cf.constant_pool[2], ConstantPoolInfo::Class { name_index: 1 }));
    assert!(matches!(cf.constant_pool[10], ConstantPoolInfo::Integer { bytes: 7 }));
    assert_eq!(cf.access_flags.bits(), 0x0021);
    assert!(cf.access_flags.contains(ClassAccessFlags::PUBLIC | ClassAccessFlags::SUPER));
    assert!(!cf.access_flags.contains(ClassAccessFlags::FINAL));
    assert_eq!(cf.this_class, 2);
    assert_eq!(cf.super_class, 0);
    assert_eq!(cf.interfaces_count, 1);
    assert_eq!(cf.interface_indices, vec![16]);
    assert!(matches!(cf.interfaces[0], ConstantPoolInfo::Class { name_index: 15 }));
    assert_eq!(cf.fields.len(), 1);
    assert_eq!(cf.fields[0].access_flags.bits(), 0x0019);
    assert_eq!(cf.fields[0].attributes.len(), 2);
    assert!(matches!(&cf.fields[0].attributes[0].info, Attribute::Deprecated { info } if info.is_empty()));
    assert!(matches!(
        cf.fields[0].attributes[1].info,
        Attribute::ConstantValue { constantvalue_index: 10 }
    ));
    assert_eq!(cf.methods.len(), 1);
    assert_eq!(cf.attributes.len(), 6);
    assert!(matches!(cf.attributes[0].info, Attribute::SourceFile { sourcefile_index: 21 }));
    assert!(matches!(&cf.attributes[1].info, Attribute::Unknown { info } if info == &vec![9, 8, 7]));
    assert_eq!(cf.attributes[1].attribute_length, 3);
    assert!(matches!(cf.attributes[4].info, Attribute::NestHost { host_class_index: 2 }));
    match &cf.attributes[3].info {
        Attribute::NestMembers { number_of_classes, classes } => {
            assert_eq!(*number_of_classes, 2);
            assert_eq!(classes, &vec![2, 16]);
        },
        other => panic!("{:?}", other),
    }
    match &cf.attributes[5].info {
        Attribute::PermittedSubclasses { classes, .. } => assert_eq!(classes, &vec![16]),
        other => panic!("{:?}", other),
    }
    match &cf.attributes[2].info {
        Attribute::BootstrapMethods { num_bootstrap_methods, bootstrap_methods } => {
            assert_eq!(*num_bootstrap_methods, 2);
            assert_eq!(bootstrap_methods[0].bootstrap_method_ref, 1);
            assert_eq!(bootstrap_methods[0].bootstrap_arguments, vec![3, 4]);
            assert_eq!(bootstrap_methods[1].bootstrap_method_ref, 5);
            assert!(bootstrap_methods[1].bootstrap_arguments.is_empty());
        },
        other => panic!("{:?}", other),
    }
}

#[test]
fn the_code_attribute_keeps_its_bytes_and_tables() {
    let cf = decode(sample()).unwrap();
    match &cf.methods[0].attributes[0].info {
        Attribute::Code {
            max_stack,
            max_locals,
            code_length,
            code,
            exception_table,
            attributes,
            ..
        } => {
            assert_eq!((*max_stack, *max_locals, *code_length), (2, 3, 4));
            assert_eq!(code, &vec![0x03, 0x3C, 0x00, 0xB1]);
            assert_eq!(exception_table.len(), 1);
            assert_eq!(exception_table[0].end_pc, 4);
            assert_eq!(exception_table[0].handler_pc, 4);
            match &attributes[0].info {
                Attribute::LineNumberTable { line_number_table, .. } => {
                    assert_eq!(line_number_table.len(), 2);
                    assert_eq!(line_number_table[1].start_pc, 2);
                    assert_eq!(line_number_table[1].line_number, 11);
                },
                other => panic!("{:?}", other),
            }
            match &attributes[1].info {
                Attribute::StackMapTable { number_of_entries, entries } => {
                    assert_eq!(*number_of_entries, 7);
                    assert!(matches!(entries[0], StackMapFrame::Same { offset_delta: 5 }));
                    assert!(matches!(
                        &entries[1],
                        StackMapFrame::SameLocals1StackItem { offset_delta: 6, stack }
                            if matches!(stack[0], VerificationTypeInfo::Integer)
                    ));
                    assert!(matches!(
                        &entries[2],
                        StackMapFrame::SameLocals1StackItemExtended { offset_delta: 9, stack }
                            if matches!(stack[0], VerificationTypeInfo::Object { cpool_index: 2 })
                    ));
                    assert!(matches!(
                        entries[3],
                        StackMapFrame::Chop { frame_type: 249, offset_delta: 1 }
                    ));
                    assert!(matches!(entries[4], StackMapFrame::SameExtended { offset_delta: 3 }));
                    assert!(matches!(
                        &entries[5],
                        StackMapFrame::Append { offset_delta: 4, locals }
                            if locals.len() == 2
                                && matches!(locals[1], VerificationTypeInfo::Uninitialized { offset: 6 })
                    ));
                    assert!(matches!(
                        &entries[6],
                        StackMapFrame::Full { offset_delta: 5, number_of_locals: 1, locals, number_of_stack_items: 2, stack }
                            if locals.len() == 1 && stack.len() == 2
                                && matches!(stack[1], VerificationTypeInfo::Null)
                    ));
                },
                other => panic!("{:?}", other),
            }
        },
        other => panic!("{:?}", other),
    }
}

#[test]
fn decoding_then_serialising_gives_the_file_back() {
    let bytes = sample();
    let cf = decode(bytes.clone()).unwrap();
    assert_eq!(serialise(&cf), bytes);
}

#[test]
fn the_reader_stops_behind_the_class_file() {
    let mut bytes = sample();
    let end = bytes.len();
    bytes.extend_from_slice(&[1, 2, 3]);
    let mut reader = ClassFileReader::new(bytes.clone());
    let cf = reader.read().unwrap();
    assert_eq!(reader.pos, end);
    assert_eq!(serialise(&cf), bytes[..end].to_vec());
}

#[test]
fn every_proper_prefix_ends_too_early() {
    let bytes = sample();
    for n in 0..bytes.len() {
        let cut = bytes[..n].to_vec();
        assert_eq!(
            decode(cut).err(),
            Some(failure(DecodeErrorKind::UnexpectedEof, n)),
            "prefix of {} bytes",
            n
        );
    }
}

#[test]
fn a_long_takes_two_slots_of_the_pool() {
    let mut long = vec![5u8];
    long.extend_from_slice(&0x0102_0304_0506_0708i64.to_be_bytes());
    let mut class = vec![7u8];
    class.extend(u16be(1));
    let mut double = vec![6u8];
    double.extend_from_slice(&1.5f64.to_bits().to_be_bytes());
    let mut float = vec![4u8];
    float.extend_from_slice(&2.5f32.to_bits().to_be_bytes());
    let mut bytes = head(8, &[utf8("A"), long, class, double, float]);
    bytes.extend(empty_tail());
    let mut tail = bytes.clone();
    // this_class must point behind the long: index 4
    let at = tail.len() - 12;
    tail[at] = 0;
    tail[at + 1] = 4;
    let cf = decode(tail.clone()).unwrap();
    assert_eq!(cf.constant_pool.len(), 8);
    assert!(matches!(cf.constant_pool[2], ConstantPoolInfo::Long { bytes: 0x0102_0304_0506_0708 }));
    assert!(matches!(cf.constant_pool[3], ConstantPoolInfo::Unusable));
    assert!(matches!(cf.constant_pool[4], ConstantPoolInfo::Class { name_index: 1 }));
    assert!(matches!(cf.constant_pool[5], ConstantPoolInfo::Double { bytes } if bytes == 1.5f64.to_bits()));
    assert!(matches!(cf.constant_pool[6], ConstantPoolInfo::Unusable));
    assert!(matches!(cf.constant_pool[7], ConstantPoolInfo::Float { bytes } if bytes == 2.5f32.to_bits()));
    assert_eq!(cf.this_class, 4);
    assert_eq!(serialise(&cf), tail);
}

#[test]
fn a_long_in_the_last_slot_has_no_room() {
    let mut long = vec![5u8];
    long.extend_from_slice(&1i64.to_be_bytes());
    let mut bytes = head(3, &[utf8("A"), long]);
    bytes.extend(empty_tail());
    assert_eq!(decode(bytes).err(), Some(failure(DecodeErrorKind::InvalidPoolIndex, 14)));
}

#[test]
fn a_pool_of_no_slots_is_refused() {
    let mut bytes = head(0, &[]);
    bytes.extend(empty_tail());
    assert_eq!(decode(bytes).err(), Some(failure(DecodeErrorKind::InvalidPoolIndex, 8)));
}

#[test]
fn all_kinds_of_pool_entries_are_read() {
    let two = |tag: u8, a: u16, b: u16| {
        let mut out = vec![tag];
        out.extend(u16be(a));
        out.extend(u16be(b));
        out
    };
    let one = |tag: u8, a: u16| {
        let mut out = vec![tag];
        out.extend(u16be(a));
        out
    };
    let mut integer = vec![3u8];
    integer.extend_from_slice(&(-2i32).to_be_bytes());
    let entries = vec![
        utf8("h\u{e9}"),
        integer,
        one(7, 1),
        one(8, 1),
        two(9, 3, 8),
        two(10, 3, 8),
        two(11, 3, 8),
        two(12, 1, 1),
        vec![15, 6, 0, 6],
        one(16, 1),
        two(17, 0, 8),
        two(18, 0, 8),
        one(19, 1),
        one(20, 1),
    ];
    let mut bytes = head(15, &entries);
    let mut tail = empty_tail();
    tail[3] = 3;
    bytes.extend(tail);
    let cf = decode(bytes.clone()).unwrap();
    assert!(matches!(&cf.constant_pool[1], ConstantPoolInfo::Utf8 { string } if string == "h\u{e9}"));
    assert!(matches!(cf.constant_pool[2], ConstantPoolInfo::Integer { bytes: -2 }));
    assert!(matches!(cf.constant_pool[4], ConstantPoolInfo::String { string_index: 1 }));
    assert!(matches!(
        cf.constant_pool[5],
        ConstantPoolInfo::FieldRef { class_index: 3, name_and_type_index: 8 }
    ));
    assert!(matches!(cf.constant_pool[6], ConstantPoolInfo::MethodRef { .. }));
    assert!(matches!(cf.constant_pool[7], ConstantPoolInfo::InterfaceMethodRef { .. }));
    assert!(matches!(
        cf.constant_pool[8],
        ConstantPoolInfo::NameAndType { name_index: 1, descriptor_index: 1 }
    ));
    assert!(matches!(
        cf.constant_pool[9],
        ConstantPoolInfo::MethodHandle { reference_kind: 6, reference_index: 6 }
    ));
    assert!(matches!(cf.constant_pool[10], ConstantPoolInfo::MethodType { descriptor_index: 1 }));
    assert!(matches!(cf.constant_pool[11], ConstantPoolInfo::Dynamic { .. }));
    assert!(matches!(cf.constant_pool[12], ConstantPoolInfo::InvokeDynamic { .. }));
    assert!(matches!(cf.constant_pool[13], ConstantPoolInfo::Module { name_index: 1 }));
    assert!(matches!(cf.constant_pool[14], ConstantPoolInfo::Package { name_index: 1 }));
    assert_eq!(serialise(&cf), bytes);
}

#[test]
fn an_unknown_tag_is_refused_where_it_stands() {
    for tag in [0u8, 2, 13, 14, 21, 255] {
        let mut bytes = head(3, &[utf8("A"), vec![tag, 0, 0, 0, 0]]);
        bytes.extend(empty_tail());
        assert_eq!(decode(bytes).err(), Some(failure(DecodeErrorKind::InvalidConstantTag, 14)));
    }
}

#[test]
fn text_that_is_not_utf8_is_refused() {
    let mut bytes = head(2, &[vec![1, 0, 2, 0xC3, 0x28]]);
    bytes.extend(empty_tail());
    assert_eq!(decode(bytes).err(), Some(failure(DecodeErrorKind::InvalidUtf8, 10)));
}

#[test]
fn access_flags_with_unknown_bits_are_refused() {
    let mut class = vec![7u8];
    class.extend(u16be(1));
    let pool = [utf8("A"), class];
    let start = head(3, &pool).len();
    let mut bytes = head(3, &pool);
    let mut tail = empty_tail();
    tail[0] = 0x00;
    tail[1] = 0x02;
    bytes.extend(tail);
    assert_eq!(decode(bytes).err(), Some(failure(DecodeErrorKind::InvalidAccessFlags, start)));
    // a field with the bit of `synchronized`, which no field has
    let mut bytes = head(3, &pool);
    bytes.extend(u16be(0x0001));
    bytes.extend(u16be(2));
    bytes.extend(u16be(0));
    bytes.extend(u16be(0));
    bytes.extend(u16be(1));
    let field = bytes.len();
    bytes.extend(u16be(0x0020));
    bytes.extend(u16be(1));
    bytes.extend(u16be(1));
    bytes.extend(u16be(0));
    bytes.extend(u16be(0));
    bytes.extend(u16be(0));
    assert_eq!(decode(bytes.clone()).err(), Some(failure(DecodeErrorKind::InvalidAccessFlags, field)));
    // the same word is fine for a method
    let mut bytes = head(3, &pool);
    bytes.extend(u16be(0x0001));
    bytes.extend(u16be(2));
    bytes.extend(u16be(0));
    bytes.extend(u16be(0));
    bytes.extend(u16be(0));
    bytes.extend(u16be(1));
    bytes.extend(u16be(0x0020));
    bytes.extend(u16be(1));
    bytes.extend(u16be(1));
    bytes.extend(u16be(0));
    bytes.extend(u16be(0));
    let cf = decode(bytes).unwrap();
    assert!(cf.methods[0].access_flags.contains(MethodAccessFlags::SYNCHRONIZED));
}

#[test]
fn flag_sets_know_their_bits() {
    assert_eq!(ClassAccessFlags::from_bits(0x0021).map(|f| f.bits()), Some(0x0021));
    assert_eq!(ClassAccessFlags::from_bits(0xF631).map(|f| f.bits()), Some(0xF631));
    assert!(ClassAccessFlags::from_bits(0x0002).is_none());
    assert!(ClassAccessFlags::from_bits(0x0800).is_none());
    assert_eq!(FieldAccessFlags::from_bits(0x50DF).map(|f| f.bits()), Some(0x50DF));
    assert!(FieldAccessFlags::from_bits(0x0020).is_none());
    assert_eq!(MethodAccessFlags::from_bits(0x1DFF).map(|f| f.bits()), Some(0x1DFF));
    assert!(MethodAccessFlags::from_bits(0x0200).is_none());
    assert_eq!(ClassAccessFlags::empty().bits(), 0);
    assert_eq!(FieldAccessFlags::ALL, 0x50DF);
}

#[test]
fn an_attribute_name_must_be_a_utf8_entry_of_the_pool() {
    let mut class = vec![7u8];
    class.extend(u16be(1));
    let pool = [utf8("A"), class];
    let mut bytes = head(3, &pool);
    let mut tail = empty_tail();
    tail[13] = 1;
    bytes.extend(tail);
    let at = bytes.len();
    bytes.extend(attribute(9, &[]));
    assert_eq!(decode(bytes).err(), Some(failure(DecodeErrorKind::InvalidPoolIndex, at)));
    let mut bytes = head(3, &pool);
    let mut tail = empty_tail();
    tail[13] = 1;
    bytes.extend(tail);
    bytes.extend(attribute(2, &[]));
    assert_eq!(decode(bytes).err(), Some(failure(DecodeErrorKind::UnexpectedPoolEntry, at)));
    let mut bytes = head(3, &pool);
    let mut tail = empty_tail();
    tail[13] = 1;
    bytes.extend(tail);
    bytes.extend(attribute(0, &[]));
    assert_eq!(decode(bytes).err(), Some(failure(DecodeErrorKind::UnexpectedPoolEntry, at)));
}

#[test]
fn an_unknown_attribute_is_skipped_by_its_length() {
    let mut class = vec![7u8];
    class.extend(u16be(1));
    let pool = [utf8("A"), class, utf8("SourceFile")];
    let mut bytes = head(4, &pool);
    let mut tail = empty_tail();
    tail[13] = 2;
    bytes.extend(tail);
    bytes.extend(attribute(1, &[1, 2, 3, 4, 5]));
    bytes.extend(attribute(3, &u16be(1)));
    let cf = decode(bytes.clone()).unwrap();
    assert!(matches!(&cf.attributes[0].info, Attribute::Unknown { info } if info.len() == 5));
    assert!(matches!(cf.attributes[1].info, Attribute::SourceFile { sourcefile_index: 1 }));
    assert_eq!(serialise(&cf), bytes);
}

#[test]
fn reserved_frame_types_and_unknown_verification_tags_are_refused() {
    let mut class = vec![7u8];
    class.extend(u16be(1));
    let pool = [utf8("A"), class, utf8("StackMapTable")];
    for (frames, kind, offset) in [
        (vec![0u8, 1, 128], DecodeErrorKind::InvalidFrameType, 8usize),
        (vec![0, 1, 246], DecodeErrorKind::InvalidFrameType, 8),
        (vec![0, 1, 64, 9], DecodeErrorKind::InvalidVerificationTag, 9),
        (vec![0, 2, 0, 252, 0, 0, 200], DecodeErrorKind::InvalidVerificationTag, 12),
    ] {
        let mut bytes = head(4, &pool);
        let mut tail = empty_tail();
        tail[13] = 1;
        bytes.extend(tail);
        let at = bytes.len();
        bytes.extend(attribute(3, &frames));
        assert_eq!(decode(bytes).err(), Some(failure(kind, at + offset)));
    }
}

#[test]
fn an_interface_must_be_a_class_entry() {
    let mut class = vec![7u8];
    class.extend(u16be(1));
    let pool = [utf8("A"), class];
    let mut bytes = head(3, &pool);
    bytes.extend(u16be(0x0001));
    bytes.extend(u16be(2));
    bytes.extend(u16be(0));
    bytes.extend(u16be(1));
    let at = bytes.len();
    bytes.extend(u16be(1));
    bytes.extend_from_slice(&[0, 0, 0, 0, 0, 0]);
    assert_eq!(decode(bytes.clone()).err(), Some(failure(DecodeErrorKind::ExpectedClassTag, at)));
    bytes[at + 1] = 3;
    assert_eq!(decode(bytes.clone()).err(), Some(failure(DecodeErrorKind::InvalidPoolIndex, at)));
    bytes[at + 1] = 2;
    assert!(decode(bytes).is_ok());
}

#[test]
fn records_can_be_built_by_hand() {
    let table = ExceptionTable { start_pc: 0, end_pc: 1, handler_pc: 2, catch_type: 3 };
    let line = LineNumberTable { start_pc: 0, line_number: 1 };
    let method = BootstrapMethod {
        bootstrap_method_ref: 1,
        num_bootstrap_arguments: 0,
        bootstrap_arguments: vec![],
    };
    let info = AttributeInfo {
        attribute_name_index: 1,
        attribute_length: 2,
        info: Attribute::SourceFile { sourcefile_index: 3 },
    };
    assert_eq!(table.catch_type, 3);
    assert_eq!(line.line_number, 1);
    assert_eq!(method.bootstrap_method_ref, 1);
    assert_eq!(info.attribute_length, 2);
}

#[test]
fn numbers_are_written_high_byte_first() {
    let mut out = vec![9u8];
    put_u8(&mut out, 1);
    put_u16(&mut out, 0x0203);
    put_u32(&mut out, 0x0405_0607);
    put_u64(&mut out, 0x0809_0A0B_0C0D_0E0F);
    put_i32(&mut out, -2);
    put_i64(&mut out, i64::MIN);
    assert_eq!(
        out,
        vec![
            9, 1, 2, 3, 4, 5, 6, 7, 8, 9, 10, 11, 12, 13, 14, 15, 0xFF, 0xFF, 0xFF, 0xFE, 0x80, 0,
            0, 0, 0, 0, 0, 0
        ]
    );
}

fn small_class_file(text: String) -> ClassFile {
    ClassFile {
        magic: 0xCAFEBABE,
        minor_version: 0,
        major_version: 61,
        constant_pool_count: 2,
        constant_pool: vec![ConstantPoolInfo::Unusable, ConstantPoolInfo::Utf8 { string: text }],
        access_flags: ClassAccessFlags::from_bits(0x0001).unwrap(),
        this_class: 0,
        super_class: 0,
        interfaces_count: 0,
        interface_indices: vec![],
        interfaces: vec![],
        fields_count: 0,
        fields: vec![FieldInfo {
            access_flags: FieldAccessFlags::from_bits(0x0002).unwrap(),
            name_index: 1,
            descriptor_index: 1,
            attributes_count: 1,
            attributes: vec![AttributeInfo {
                attribute_name_index: 1,
                attribute_length: 5,
                info: Attribute::Signature { info: vec![7, 7] },
            }],
        }],
        methods_count: 0,
        methods: vec![MethodInfo {
            access_flags: MethodAccessFlags::from_bits(0x0400).unwrap(),
            name_index: 1,
            descriptor_index: 1,
            attributes_count: 0,
            attributes: vec![],
        }],
        attributes_count: 0,
        attributes: vec![],
    }
}

#[test]
fn a_class_file_built_by_hand_is_serialised_as_it_stands() {
    let cf = small_class_file(String::from("ab"));
    let expected = vec![
        0xCA, 0xFE, 0xBA, 0xBE, 0, 0, 0, 61, 0, 2, // head
        1, 0, 2, b'a', b'b', // pool
        0, 1, 0, 0, 0, 0, 0, 0, // flags, this, super, interfaces
        0, 0, // fields count as it stands
        0, 2, 0, 1, 0, 1, 0, 1, 0, 1, 0, 0, 0, 5, 7, 7, // the field
        0, 0, // methods count as it stands
        4, 0, 0, 1, 0, 1, 0, 0, // the method
        0, 0,
    ];
    assert_eq!(cf.to_bytes(), Some(expected));
}

#[test]
fn a_text_longer_than_its_length_field_cannot_be_serialised() {
    assert!(small_class_file("x".repeat(65535)).to_bytes().is_some());
    assert_eq!(small_class_file("x".repeat(65536)).to_bytes(), None);
}

#[test]
fn a_stack_map_table_of_one_frame_has_one_entry() {
    let mut class = vec![7u8];
    class.extend(u16be(1));
    let pool = [utf8("A"), class, utf8("StackMapTable")];
    let mut bytes = head(4, &pool);
    let mut tail = empty_tail();
    tail[13] = 1;
    bytes.extend(tail);
    bytes.extend(attribute(3, &[0x00, 0x01, 0x45, 0x01]));
    let cf = decode(bytes.clone()).unwrap();
    assert_eq!(cf.attributes.len(), 1);
    match &cf.attributes[0].info {
        Attribute::StackMapTable { number_of_entries, entries } => {
            assert_eq!(*number_of_entries, 1);
            assert_eq!(entries.len(), 1);
            match &entries[0] {
                StackMapFrame::SameLocals1StackItem { offset_delta, stack } => {
                    assert_eq!(*offset_delta, 5);
                    assert_eq!(stack.len(), 1);
                    assert!(matches!(stack[0], VerificationTypeInfo::Integer));
                },
                other => panic!("not a frame with one stack item: {:?}", other),
            }
        },
        other => panic!("not a stack-map table: {:?}", other),
    }
    assert_eq!(serialise(&cf), bytes);
}

#[test]
fn frames_have_the_form_of_their_frame_type() {
    let mut class = vec![7u8];
    class.extend(u16be(1));
    let pool = [utf8("A"), class, utf8("StackMapTable")];
    let mut bytes = head(4, &pool);
    let mut tail = empty_tail();
    tail[13] = 1;
    bytes.extend(tail);
    let frames = [
        vec![0u8, 5],
        vec![63],
        vec![247, 0, 9, 2],
        vec![249, 0, 1],
        vec![251, 0, 2],
        vec![253, 0, 3, 1, 4],
    ];
    bytes.extend(attribute(3, &frames.concat()));
    let cf = decode(bytes.clone()).unwrap();
    let entries = match &cf.attributes[0].info {
        Attribute::StackMapTable { number_of_entries: 5, entries } => entries,
        other => panic!("not a stack-map table of five frames: {:?}", other),
    };
    assert_eq!(entries.len(), 5);
    assert!(matches!(entries[0], StackMapFrame::Same { offset_delta: 63 }));
    assert!(matches!(
        &entries[1],
        StackMapFrame::SameLocals1StackItemExtended { offset_delta: 9, stack } if stack.len() == 1
    ));
    assert!(matches!(entries[2], StackMapFrame::Chop { frame_type: 249, offset_delta: 1 }));
    assert!(matches!(entries[3], StackMapFrame::SameExtended { offset_delta: 2 }));
    // the frame type 253 appends two locals
    assert!(matches!(
        &entries[4],
        StackMapFrame::Append { offset_delta: 3, locals } if locals.len() == 2
    ));
    assert_eq!(serialise(&cf), bytes);
}

#[test]
fn a_full_frame_has_as_many_items_as_it_counts() {
    let mut class = vec![7u8];
    class.extend(u16be(1));
    let pool = [utf8("A"), class, utf8("StackMapTable")];
    let mut bytes = head(4, &pool);
    let mut tail = empty_tail();
    tail[13] = 1;
    bytes.extend(tail);
    bytes.extend(attribute(3, &[0, 1, 255, 0, 4, 0, 1, 7, 0, 1, 0, 2, 0, 8, 0, 6]));
    let cf = decode(bytes.clone()).unwrap();
    match &cf.attributes[0].info {
        Attribute::StackMapTable { number_of_entries: 1, entries } => match &entries[0] {
            StackMapFrame::Full {
                offset_delta,
                number_of_locals,
                locals,
                number_of_stack_items,
                stack,
            } => {
                assert_eq!(*offset_delta, 4);
                assert_eq!(*number_of_locals, 1);
                assert_eq!(locals.len(), 1);
                assert!(matches!(locals[0], VerificationTypeInfo::Object { cpool_index: 1 }));
                assert_eq!(*number_of_stack_items, 2);
                assert_eq!(stack.len(), 2);
                assert!(matches!(stack[0], VerificationTypeInfo::Top));
                assert!(matches!(stack[1], VerificationTypeInfo::Uninitialized { offset: 6 }));
            },
            other => panic!("not a full frame: {:?}", other),
        },
        other => panic!("not a stack-map table: {:?}", other),
    }
    assert_eq!(serialise(&cf), bytes);
}

#[test]
fn every_attribute_is_of_the_kind_that_its_name_selects() {
    let cf = decode(sample()).unwrap();
    assert_eq!(cf.fields.len(), cf.fields_count as usize);
    assert_eq!(cf.methods.len(), cf.methods_count as usize);
    assert_eq!(cf.attributes.len(), cf.attributes_count as usize);
    assert_eq!(cf.interface_indices.len(), cf.interfaces_count as usize);
    assert_eq!(cf.interfaces.len(), cf.interfaces_count as usize);
    let pool = &cf.constant_pool;
    let mut attributes: Vec<&AttributeInfo> = cf.attributes.iter().collect();
    for field in &cf.fields {
        assert_eq!(field.attributes.len(), field.attributes_count as usize);
        attributes.extend(field.attributes.iter());
    }
    for method in &cf.methods {
        assert_eq!(method.attributes.len(), method.attributes_count as usize);
        attributes.extend(method.attributes.iter());
    }
    let mut seen = 0;
    while let Some(attribute) = attributes.pop() {
        seen += 1;
        let text = match &pool[attribute.attribute_name_index as usize] {
            ConstantPoolInfo::Utf8 { string } => string.clone(),
            other => panic!("not a name: {:?}", other),
        };
        assert_eq!(attribute.info.kind(), AttributeName::from_name(&text));
        if let Attribute::Code {
            code_length,
            code,
            exception_table_length,
            exception_table,
            attributes_count,
            attributes: nested,
            ..
        } = &attribute.info
        {
            assert_eq!(code.len(), *code_length as usize);
            assert_eq!(exception_table.len(), *exception_table_length as usize);
            assert_eq!(nested.len(), *attributes_count as usize);
            attributes.extend(nested.iter());
        }
    }
    assert!(seen >= 5);
}
