//! Serialising a decoded class file: its records, laid out as bytes in the
//! order of the format.
use crate::bytes::{
    i32_bytes, i64_bytes, pattern32, pattern64, u16_bytes, u32_bytes, u64_bytes,
};
use crate::format::{
    attribute_bytes, attributes_bytes, body_bytes, bootstrap_bytes, bootstraps_bytes, class_bytes,
    entry_bytes, entry_fits, pool_fits, exception_bytes, exceptions_bytes, field_bytes, fields_bytes, frame_bytes,
    frames_bytes, head_bytes, indices_bytes, line_bytes, lines_bytes, method_bytes, methods_bytes,
    pool_bytes, tail_bytes, vti_bytes, vtis_bytes,
};
use crate::reader::{
    Attribute, AttributeInfo, BootstrapMethod, ClassFile, ConstantPoolInfo, ExceptionTable,
    FieldInfo, LineNumberTable, MethodInfo, StackMapFrame, VerificationTypeInfo,
};
use vstd::prelude::*;

verus! {

/// Appends the byte `v`.
pub fn put_u8(out: &mut Vec<u8>, v: u8)
    ensures
        final(out)@ == old(out)@ + seq![v],
{
    out.push(v);
    assert(out@ =~= old(out)@ + seq![v]);
}

/// Appends the two bytes of `v`, high byte first.
pub fn put_u16(out: &mut Vec<u8>, v: u16)
    ensures
        final(out)@ == old(out)@ + u16_bytes(v as int),
{
    out.push((v / 0x100) as u8);
    out.push((v % 0x100) as u8);
    assert(out@ =~= old(out)@ + u16_bytes(v as int));
}

/// Appends the four bytes of `v`, high byte first.
pub fn put_u32(out: &mut Vec<u8>, v: u32)
    ensures
        final(out)@ == old(out)@ + u32_bytes(v as int),
{
    put_u16(out, (v / 0x1_0000) as u16);
    put_u16(out, (v % 0x1_0000) as u16);
    assert(out@ =~= old(out)@ + u32_bytes(v as int));
}

/// Appends the eight bytes of `v`, high byte first.
pub fn put_u64(out: &mut Vec<u8>, v: u64)
    ensures
        final(out)@ == old(out)@ + u64_bytes(v as int),
{
    put_u32(out, (v / 0x1_0000_0000) as u32);
    put_u32(out, (v % 0x1_0000_0000) as u32);
    proof {
        reveal(u64_bytes);
        assert(out@ =~= old(out)@ + u64_bytes(v as int));
    }
}

/// Appends the four bytes of the signed number `v`, high byte first.
pub fn put_i32(out: &mut Vec<u8>, v: i32)
    ensures
        final(out)@ == old(out)@ + i32_bytes(v),
{
    let pattern: u32 = v as u32;
    assert(pattern as int == pattern32(v as int)) by (bit_vector)
        requires
            pattern == v as u32,
    ;
    put_u32(out, pattern);
}

/// Appends the eight bytes of the signed number `v`, high byte first.
pub fn put_i64(out: &mut Vec<u8>, v: i64)
    ensures
        final(out)@ == old(out)@ + i64_bytes(v),
{
    let pattern: u64 = v as u64;
    assert(pattern as int == pattern64(v as int)) by (bit_vector)
        requires
            pattern == v as u64,
    ;
    put_u64(out, pattern);
}

/// Appends `bytes` as they are.
pub fn put_bytes(out: &mut Vec<u8>, bytes: &[u8])
    ensures
        final(out)@ == old(out)@ + bytes@,
{
    let mut i: usize = 0;
    assert(bytes@.take(0) =~= Seq::<u8>::empty());
    assert(out@ =~= old(out)@ + bytes@.take(0));
    while i < bytes.len()
        invariant
            i <= bytes@.len(),
            out@ == old(out)@ + bytes@.take(i as int),
        decreases bytes@.len() - i,
    {
        out.push(bytes[i]);
        i = i + 1;
        assert(out@ =~= old(out)@ + bytes@.take(i as int));
    }
    assert(bytes@.take(bytes@.len() as int) =~= bytes@);
}

/// Appends the bytes of a constant-pool entry.  Returns `false`, with
/// nothing said of `out`, when the entry cannot be laid out.
pub fn write_entry(out: &mut Vec<u8>, e: &ConstantPoolInfo) -> (ok: bool)
    ensures
        ok == entry_fits(*e),
        ok ==> final(out)@ == old(out)@ + entry_bytes(*e),
{
    let ghost base = out@;
    match e {
        ConstantPoolInfo::Unusable => {
            assert(out@ =~= base + entry_bytes(*e));
        },
        ConstantPoolInfo::Utf8 { string } => {
            let bytes = string.as_str().as_bytes();
            if bytes.len() > 0xFFFF {
                return false;
            }
            put_u8(out, 1);
            put_u16(out, bytes.len() as u16);
            put_bytes(out, bytes);
            assert(out@ =~= base + entry_bytes(*e));
        },
        ConstantPoolInfo::Integer { bytes } => {
            put_u8(out, 3);
            put_i32(out, *bytes);
            assert(out@ =~= base + entry_bytes(*e));
        },
        ConstantPoolInfo::Float { bytes } => {
            put_u8(out, 4);
            put_u32(out, *bytes);
            assert(out@ =~= base + entry_bytes(*e));
        },
        ConstantPoolInfo::Long { bytes } => {
            put_u8(out, 5);
            put_i64(out, *bytes);
            assert(out@ =~= base + entry_bytes(*e));
        },
        ConstantPoolInfo::Double { bytes } => {
            put_u8(out, 6);
            put_u64(out, *bytes);
            assert(out@ =~= base + entry_bytes(*e));
        },
        ConstantPoolInfo::Class { name_index } => {
            put_u8(out, 7);
            put_u16(out, *name_index);
            assert(out@ =~= base + entry_bytes(*e));
        },
        ConstantPoolInfo::String { string_index } => {
            put_u8(out, 8);
            put_u16(out, *string_index);
            assert(out@ =~= base + entry_bytes(*e));
        },
        ConstantPoolInfo::FieldRef { class_index, name_and_type_index } => {
            put_u8(out, 9);
            put_u16(out, *class_index);
            put_u16(out, *name_and_type_index);
            assert(out@ =~= base + entry_bytes(*e));
        },
        ConstantPoolInfo::MethodRef { class_index, name_and_type_index } => {
            put_u8(out, 10);
            put_u16(out, *class_index);
            put_u16(out, *name_and_type_index);
            assert(out@ =~= base + entry_bytes(*e));
        },
        ConstantPoolInfo::InterfaceMethodRef { class_index, name_and_type_index } => {
            put_u8(out, 11);
            put_u16(out, *class_index);
            put_u16(out, *name_and_type_index);
            assert(out@ =~= base + entry_bytes(*e));
        },
        ConstantPoolInfo::NameAndType { name_index, descriptor_index } => {
            put_u8(out, 12);
            put_u16(out, *name_index);
            put_u16(out, *descriptor_index);
            assert(out@ =~= base + entry_bytes(*e));
        },
        ConstantPoolInfo::MethodHandle { reference_kind, reference_index } => {
            put_u8(out, 15);
            put_u8(out, *reference_kind);
            put_u16(out, *reference_index);
            assert(out@ =~= base + entry_bytes(*e));
        },
        ConstantPoolInfo::MethodType { descriptor_index } => {
            put_u8(out, 16);
            put_u16(out, *descriptor_index);
            assert(out@ =~= base + entry_bytes(*e));
        },
        ConstantPoolInfo::Dynamic { bootstrap_method_attr_index, name_and_type_index } => {
            put_u8(out, 17);
            put_u16(out, *bootstrap_method_attr_index);
            put_u16(out, *name_and_type_index);
            assert(out@ =~= base + entry_bytes(*e));
        },
        ConstantPoolInfo::InvokeDynamic { bootstrap_method_attr_index, name_and_type_index } => {
            put_u8(out, 18);
            put_u16(out, *bootstrap_method_attr_index);
            put_u16(out, *name_and_type_index);
            assert(out@ =~= base + entry_bytes(*e));
        },
        ConstantPoolInfo::Module { name_index } => {
            put_u8(out, 19);
            put_u16(out, *name_index);
            assert(out@ =~= base + entry_bytes(*e));
        },
        ConstantPoolInfo::Package { name_index } => {
            put_u8(out, 20);
            put_u16(out, *name_index);
            assert(out@ =~= base + entry_bytes(*e));
        },
    }
    true
}

/// Appends the bytes of the entries of a pool.  Returns `false`, with
/// nothing said of `out`, when an entry cannot be laid out.
pub fn write_pool(out: &mut Vec<u8>, pool: &Vec<ConstantPoolInfo>) -> (ok: bool)
    ensures
        ok == pool_fits(pool@),
        ok ==> final(out)@ == old(out)@ + pool_bytes(pool@),
{
    let mut i: usize = 0;
    assert(pool@.take(0) =~= Seq::<ConstantPoolInfo>::empty());
    assert(out@ =~= old(out)@ + pool_bytes(pool@.take(0)));
    while i < pool.len()
        invariant
            i <= pool@.len(),
            out@ == old(out)@ + pool_bytes(pool@.take(i as int)),
            forall|k: int| 0 <= k < i ==> entry_fits(#[trigger] pool@[k]),
        decreases pool@.len() - i,
    {
        if !write_entry(out, &pool[i]) {
            return false;
        }
        proof {
            assert(pool@.take(i + 1).drop_last() =~= pool@.take(i as int));
            assert(out@ =~= old(out)@ + pool_bytes(pool@.take(i + 1)));
        }
        i = i + 1;
    }
    assert(pool@.take(pool@.len() as int) =~= pool@);
    true
}

/// Appends the bytes of a list of 16-bit numbers.
pub fn write_indices(out: &mut Vec<u8>, v: &Vec<u16>)
    ensures
        final(out)@ == old(out)@ + indices_bytes(v@),
{
    let mut i: usize = 0;
    assert(v@.take(0) =~= Seq::<u16>::empty());
    assert(out@ =~= old(out)@ + indices_bytes(v@.take(0)));
    while i < v.len()
        invariant
            i <= v@.len(),
            out@ == old(out)@ + indices_bytes(v@.take(i as int)),
        decreases v@.len() - i,
    {
        put_u16(out, v[i]);
        proof {
            assert(v@.take(i + 1).drop_last() =~= v@.take(i as int));
            assert(out@ =~= old(out)@ + indices_bytes(v@.take(i + 1)));
        }
        i = i + 1;
    }
    assert(v@.take(v@.len() as int) =~= v@);
}

/// Appends the bytes of a verification type.
pub fn write_verification_type(out: &mut Vec<u8>, v: &VerificationTypeInfo)
    ensures
        final(out)@ == old(out)@ + vti_bytes(*v),
{
    let ghost base = out@;
    match v {
        VerificationTypeInfo::Top => put_u8(out, 0),
        VerificationTypeInfo::Integer => put_u8(out, 1),
        VerificationTypeInfo::Float => put_u8(out, 2),
        VerificationTypeInfo::Double => put_u8(out, 3),
        VerificationTypeInfo::Long => put_u8(out, 4),
        VerificationTypeInfo::Null => put_u8(out, 5),
        VerificationTypeInfo::UninitializedThis => put_u8(out, 6),
        VerificationTypeInfo::Object { cpool_index } => {
            put_u8(out, 7);
            put_u16(out, *cpool_index);
        },
        VerificationTypeInfo::Uninitialized { offset } => {
            put_u8(out, 8);
            put_u16(out, *offset);
        },
    }
    assert(out@ =~= base + vti_bytes(*v));
}

/// Appends the bytes of verification types.
pub fn write_verification_types(out: &mut Vec<u8>, v: &Vec<VerificationTypeInfo>)
    ensures
        final(out)@ == old(out)@ + vtis_bytes(v@),
{
    let mut i: usize = 0;
    assert(v@.take(0) =~= Seq::<VerificationTypeInfo>::empty());
    assert(out@ =~= old(out)@ + vtis_bytes(v@.take(0)));
    while i < v.len()
        invariant
            i <= v@.len(),
            out@ == old(out)@ + vtis_bytes(v@.take(i as int)),
        decreases v@.len() - i,
    {
        write_verification_type(out, &v[i]);
        proof {
            assert(v@.take(i + 1).drop_last() =~= v@.take(i as int));
            assert(out@ =~= old(out)@ + vtis_bytes(v@.take(i + 1)));
        }
        i = i + 1;
    }
    assert(v@.take(v@.len() as int) =~= v@);
}

/// Appends the bytes of a stack-map frame.
pub fn write_frame(out: &mut Vec<u8>, f: &StackMapFrame)
    ensures
        final(out)@ == old(out)@ + frame_bytes(*f),
{
    let ghost base = out@;
    match f {
        StackMapFrame::Same { offset_delta } => {
            put_u8(out, #[verifier::truncate] (*offset_delta as u8));
        },
        StackMapFrame::SameLocals1StackItem { offset_delta, stack } => {
            put_u8(out, #[verifier::truncate] ((*offset_delta as u32 + 64) as u8));
            write_verification_types(out, stack);
        },
        StackMapFrame::SameLocals1StackItemExtended { offset_delta, stack } => {
            put_u8(out, 247);
            put_u16(out, *offset_delta);
            write_verification_types(out, stack);
        },
        StackMapFrame::Chop { frame_type, offset_delta } => {
            put_u8(out, *frame_type);
            put_u16(out, *offset_delta);
        },
        StackMapFrame::SameExtended { offset_delta } => {
            put_u8(out, 251);
            put_u16(out, *offset_delta);
        },
        StackMapFrame::Append { offset_delta, locals } => {
            put_u8(out, #[verifier::truncate] ((251 + locals.len() as u128) as u8));
            put_u16(out, *offset_delta);
            write_verification_types(out, locals);
        },
        StackMapFrame::Full {
            offset_delta,
            number_of_locals,
            locals,
            number_of_stack_items,
            stack,
        } => {
            put_u8(out, 255);
            put_u16(out, *offset_delta);
            put_u16(out, *number_of_locals);
            write_verification_types(out, locals);
            put_u16(out, *number_of_stack_items);
            write_verification_types(out, stack);
        },
    }
    assert(out@ =~= base + frame_bytes(*f));
}

/// Appends the bytes of stack-map frames.
pub fn write_frames(out: &mut Vec<u8>, v: &Vec<StackMapFrame>)
    ensures
        final(out)@ == old(out)@ + frames_bytes(v@),
{
    let mut i: usize = 0;
    assert(v@.take(0) =~= Seq::<StackMapFrame>::empty());
    assert(out@ =~= old(out)@ + frames_bytes(v@.take(0)));
    while i < v.len()
        invariant
            i <= v@.len(),
            out@ == old(out)@ + frames_bytes(v@.take(i as int)),
        decreases v@.len() - i,
    {
        write_frame(out, &v[i]);
        proof {
            assert(v@.take(i + 1).drop_last() =~= v@.take(i as int));
            assert(out@ =~= old(out)@ + frames_bytes(v@.take(i + 1)));
        }
        i = i + 1;
    }
    assert(v@.take(v@.len() as int) =~= v@);
}

/// Appends the bytes of an exception table.
pub fn write_exceptions(out: &mut Vec<u8>, v: &Vec<ExceptionTable>)
    ensures
        final(out)@ == old(out)@ + exceptions_bytes(v@),
{
    let mut i: usize = 0;
    assert(v@.take(0) =~= Seq::<ExceptionTable>::empty());
    assert(out@ =~= old(out)@ + exceptions_bytes(v@.take(0)));
    while i < v.len()
        invariant
            i <= v@.len(),
            out@ == old(out)@ + exceptions_bytes(v@.take(i as int)),
        decreases v@.len() - i,
    {
        let ghost before = out@;
        put_u16(out, v[i].start_pc);
        put_u16(out, v[i].end_pc);
        put_u16(out, v[i].handler_pc);
        put_u16(out, v[i].catch_type);
        proof {
            assert(out@ =~= before + exception_bytes(v@[i as int]));
            assert(v@.take(i + 1).drop_last() =~= v@.take(i as int));
            assert(out@ =~= old(out)@ + exceptions_bytes(v@.take(i + 1)));
        }
        i = i + 1;
    }
    assert(v@.take(v@.len() as int) =~= v@);
}

/// Appends the bytes of a line-number table.
pub fn write_lines(out: &mut Vec<u8>, v: &Vec<LineNumberTable>)
    ensures
        final(out)@ == old(out)@ + lines_bytes(v@),
{
    let mut i: usize = 0;
    assert(v@.take(0) =~= Seq::<LineNumberTable>::empty());
    assert(out@ =~= old(out)@ + lines_bytes(v@.take(0)));
    while i < v.len()
        invariant
            i <= v@.len(),
            out@ == old(out)@ + lines_bytes(v@.take(i as int)),
        decreases v@.len() - i,
    {
        let ghost before = out@;
        put_u16(out, v[i].start_pc);
        put_u16(out, v[i].line_number);
        proof {
            assert(out@ =~= before + line_bytes(v@[i as int]));
            assert(v@.take(i + 1).drop_last() =~= v@.take(i as int));
            assert(out@ =~= old(out)@ + lines_bytes(v@.take(i + 1)));
        }
        i = i + 1;
    }
    assert(v@.take(v@.len() as int) =~= v@);
}

/// Appends the bytes of a bootstrap-method table.
pub fn write_bootstraps(out: &mut Vec<u8>, v: &Vec<BootstrapMethod>)
    ensures
        final(out)@ == old(out)@ + bootstraps_bytes(v@),
{
    let mut i: usize = 0;
    assert(v@.take(0) =~= Seq::<BootstrapMethod>::empty());
    assert(out@ =~= old(out)@ + bootstraps_bytes(v@.take(0)));
    while i < v.len()
        invariant
            i <= v@.len(),
            out@ == old(out)@ + bootstraps_bytes(v@.take(i as int)),
        decreases v@.len() - i,
    {
        let ghost before = out@;
        put_u16(out, v[i].bootstrap_method_ref);
        put_u16(out, v[i].num_bootstrap_arguments);
        write_indices(out, &v[i].bootstrap_arguments);
        proof {
            assert(out@ =~= before + bootstrap_bytes(v@[i as int]));
            assert(v@.take(i + 1).drop_last() =~= v@.take(i as int));
            assert(out@ =~= old(out)@ + bootstraps_bytes(v@.take(i + 1)));
        }
        i = i + 1;
    }
    assert(v@.take(v@.len() as int) =~= v@);
}

/// Appends the bytes of the body of an attribute.
pub fn write_body(out: &mut Vec<u8>, info: &Attribute)
    ensures
        final(out)@ == old(out)@ + body_bytes(*info),
    decreases *info,
{
    let ghost base = out@;
    match info {
        Attribute::ConstantValue { constantvalue_index } => {
            put_u16(out, *constantvalue_index);
        },
        Attribute::Code {
            max_stack,
            max_locals,
            code_length,
            code,
            exception_table_length,
            exception_table,
            attributes_count,
            attributes,
        } => {
            put_u16(out, *max_stack);
            put_u16(out, *max_locals);
            put_u32(out, *code_length);
            put_bytes(out, code.as_slice());
            put_u16(out, *exception_table_length);
            write_exceptions(out, exception_table);
            put_u16(out, *attributes_count);
            write_attributes(out, attributes);
        },
        Attribute::StackMapTable { number_of_entries, entries } => {
            put_u16(out, *number_of_entries);
            write_frames(out, entries);
        },
        Attribute::SourceFile { sourcefile_index } => {
            put_u16(out, *sourcefile_index);
        },
        Attribute::LineNumberTable { line_number_table_length, line_number_table } => {
            put_u16(out, *line_number_table_length);
            write_lines(out, line_number_table);
        },
        Attribute::BootstrapMethods { num_bootstrap_methods, bootstrap_methods } => {
            put_u16(out, *num_bootstrap_methods);
            write_bootstraps(out, bootstrap_methods);
        },
        Attribute::NestHost { host_class_index } => {
            put_u16(out, *host_class_index);
        },
        Attribute::NestMembers { number_of_classes, classes } => {
            put_u16(out, *number_of_classes);
            write_indices(out, classes);
        },
        Attribute::PermittedSubclasses { number_of_classes, classes } => {
            put_u16(out, *number_of_classes);
            write_indices(out, classes);
        },
        other => {
            match other.raw_info() {
                Some(bytes) => put_bytes(out, bytes.as_slice()),
                None => {},
            }
        },
    }
    assert(out@ =~= base + body_bytes(*info));
}

/// Appends the bytes of an attribute.
pub fn write_attribute(out: &mut Vec<u8>, a: &AttributeInfo)
    ensures
        final(out)@ == old(out)@ + attribute_bytes(*a),
    decreases *a,
{
    let ghost base = out@;
    put_u16(out, a.attribute_name_index);
    put_u32(out, a.attribute_length);
    write_body(out, &a.info);
    assert(out@ =~= base + attribute_bytes(*a));
}

/// Appends the bytes of attributes.
pub fn write_attributes(out: &mut Vec<u8>, v: &Vec<AttributeInfo>)
    ensures
        final(out)@ == old(out)@ + attributes_bytes(v@),
    decreases *v,
{
    let mut i: usize = 0;
    assert(v@.take(0) =~= Seq::<AttributeInfo>::empty());
    assert(out@ =~= old(out)@ + attributes_bytes(v@.take(0)));
    while i < v.len()
        invariant
            i <= v@.len(),
            out@ == old(out)@ + attributes_bytes(v@.take(i as int)),
        decreases v@.len() - i,
    {
        write_attribute(out, &v[i]);
        proof {
            assert(v@.take(i + 1).drop_last() =~= v@.take(i as int));
            assert(out@ =~= old(out)@ + attributes_bytes(v@.take(i + 1)));
        }
        i = i + 1;
    }
    assert(v@.take(v@.len() as int) =~= v@);
}

/// Appends the bytes of fields.
pub fn write_fields(out: &mut Vec<u8>, v: &Vec<FieldInfo>)
    ensures
        final(out)@ == old(out)@ + fields_bytes(v@),
{
    let mut i: usize = 0;
    assert(v@.take(0) =~= Seq::<FieldInfo>::empty());
    assert(out@ =~= old(out)@ + fields_bytes(v@.take(0)));
    while i < v.len()
        invariant
            i <= v@.len(),
            out@ == old(out)@ + fields_bytes(v@.take(i as int)),
        decreases v@.len() - i,
    {
        let ghost before = out@;
        put_u16(out, v[i].access_flags.bits());
        put_u16(out, v[i].name_index);
        put_u16(out, v[i].descriptor_index);
        put_u16(out, v[i].attributes_count);
        write_attributes(out, &v[i].attributes);
        proof {
            assert(out@ =~= before + field_bytes(v@[i as int]));
            assert(v@.take(i + 1).drop_last() =~= v@.take(i as int));
            assert(out@ =~= old(out)@ + fields_bytes(v@.take(i + 1)));
        }
        i = i + 1;
    }
    assert(v@.take(v@.len() as int) =~= v@);
}

/// Appends the bytes of methods.
pub fn write_methods(out: &mut Vec<u8>, v: &Vec<MethodInfo>)
    ensures
        final(out)@ == old(out)@ + methods_bytes(v@),
{
    let mut i: usize = 0;
    assert(v@.take(0) =~= Seq::<MethodInfo>::empty());
    assert(out@ =~= old(out)@ + methods_bytes(v@.take(0)));
    while i < v.len()
        invariant
            i <= v@.len(),
            out@ == old(out)@ + methods_bytes(v@.take(i as int)),
        decreases v@.len() - i,
    {
        let ghost before = out@;
        put_u16(out, v[i].access_flags.bits());
        put_u16(out, v[i].name_index);
        put_u16(out, v[i].descriptor_index);
        put_u16(out, v[i].attributes_count);
        write_attributes(out, &v[i].attributes);
        proof {
            assert(out@ =~= before + method_bytes(v@[i as int]));
            assert(v@.take(i + 1).drop_last() =~= v@.take(i as int));
            assert(out@ =~= old(out)@ + methods_bytes(v@.take(i + 1)));
        }
        i = i + 1;
    }
    assert(v@.take(v@.len() as int) =~= v@);
}

impl ClassFile {
    /// The class file as bytes: its records in the order of the format.
    /// `None` when the text of a Utf8 entry is longer than its length field
    /// can say.
    pub fn to_bytes(&self) -> (r: Option<Vec<u8>>)
        ensures
            r is Some <==> pool_fits(self.constant_pool@),
            r is Some ==> r->0@ == class_bytes(*self),
    {
        let mut out: Vec<u8> = Vec::new();
        put_u32(&mut out, self.magic);
        put_u16(&mut out, self.minor_version);
        put_u16(&mut out, self.major_version);
        put_u16(&mut out, self.constant_pool_count);
        if !write_pool(&mut out, &self.constant_pool) {
            return None;
        }
        assert(out@ =~= head_bytes(*self));
        let ghost head = out@;
        put_u16(&mut out, self.access_flags.bits());
        put_u16(&mut out, self.this_class);
        put_u16(&mut out, self.super_class);
        put_u16(&mut out, self.interfaces_count);
        write_indices(&mut out, &self.interface_indices);
        put_u16(&mut out, self.fields_count);
        write_fields(&mut out, &self.fields);
        put_u16(&mut out, self.methods_count);
        write_methods(&mut out, &self.methods);
        put_u16(&mut out, self.attributes_count);
        write_attributes(&mut out, &self.attributes);
        assert(out@ =~= head + tail_bytes(*self));
        Some(out)
    }
}

} // verus!
