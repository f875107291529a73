//! The class-file format as mathematics.
//!
//! For each record of the format there are two spec functions.  One lays a
//! decoded record out as bytes.  The other says where the record that
//! starts at a position of a byte sequence ends, or why no record starts
//! there.  All multi-byte numbers are big-endian.
use crate::bytes::{be_u16, be_u32, i32_bytes, i64_bytes, u16_bytes, u32_bytes, u64_bytes};
use crate::error::{DecodeError, DecodeErrorKind};
use crate::reader::{
    Attribute, AttributeInfo, AttributeName, BootstrapMethod, ClassAccessFlags, ClassFile,
    ConstantPoolInfo, ConstantPoolTag, ExceptionTable, FieldAccessFlags, FieldInfo,
    LineNumberTable, MethodAccessFlags, MethodInfo, StackMapFrame, VerificationTypeInfo,
};
use vstd::prelude::*;
use vstd::utf8::{encode_utf8, valid_utf8};

verus! {

/// The failure of running out of input: it is reported at the end of the
/// input.
pub open spec fn eof(s: Seq<u8>) -> DecodeError {
    DecodeError { kind: DecodeErrorKind::UnexpectedEof, offset: s.len() as usize }
}

/// The failure of kind `kind` at the byte `at`.
pub open spec fn fault(kind: DecodeErrorKind, at: int) -> DecodeError {
    DecodeError { kind, offset: at as usize }
}

/// Where `n` records of `size` bytes each end that start at `i`.
pub open spec fn fixed_end(s: Seq<u8>, i: int, n: int, size: int) -> Result<int, DecodeError> {
    if i + n * size > s.len() {
        Err(eof(s))
    } else {
        Ok(i + n * size)
    }
}

// ---------------------------------------------------------------------
// Constant pool
// ---------------------------------------------------------------------
/// The bytes of a constant-pool entry: its tag and its payload.  A slot
/// that holds no entry has no bytes.
pub open spec fn entry_bytes(e: ConstantPoolInfo) -> Seq<u8> {
    match e {
        ConstantPoolInfo::Unusable => Seq::empty(),
        ConstantPoolInfo::Utf8 { string } => seq![1u8] + u16_bytes(
            encode_utf8(string@).len() as int,
        ) + encode_utf8(string@),
        ConstantPoolInfo::Integer { bytes } => seq![3u8] + i32_bytes(bytes),
        ConstantPoolInfo::Float { bytes } => seq![4u8] + u32_bytes(bytes as int),
        ConstantPoolInfo::Long { bytes } => seq![5u8] + i64_bytes(bytes),
        ConstantPoolInfo::Double { bytes } => seq![6u8] + u64_bytes(bytes as int),
        ConstantPoolInfo::Class { name_index } => seq![7u8] + u16_bytes(name_index as int),
        ConstantPoolInfo::String { string_index } => seq![8u8] + u16_bytes(string_index as int),
        ConstantPoolInfo::FieldRef { class_index, name_and_type_index } => seq![9u8] + u16_bytes(
            class_index as int,
        ) + u16_bytes(name_and_type_index as int),
        ConstantPoolInfo::MethodRef { class_index, name_and_type_index } => seq![10u8] + u16_bytes(
            class_index as int,
        ) + u16_bytes(name_and_type_index as int),
        ConstantPoolInfo::InterfaceMethodRef { class_index, name_and_type_index } => seq![11u8]
            + u16_bytes(class_index as int) + u16_bytes(name_and_type_index as int),
        ConstantPoolInfo::NameAndType { name_index, descriptor_index } => seq![12u8] + u16_bytes(
            name_index as int,
        ) + u16_bytes(descriptor_index as int),
        ConstantPoolInfo::MethodHandle { reference_kind, reference_index } => seq![
            15u8,
            reference_kind,
        ] + u16_bytes(reference_index as int),
        ConstantPoolInfo::MethodType { descriptor_index } => seq![16u8] + u16_bytes(
            descriptor_index as int,
        ),
        ConstantPoolInfo::Dynamic { bootstrap_method_attr_index, name_and_type_index } => seq![17u8]
            + u16_bytes(bootstrap_method_attr_index as int) + u16_bytes(name_and_type_index as int),
        ConstantPoolInfo::InvokeDynamic { bootstrap_method_attr_index, name_and_type_index } =>
            seq![18u8] + u16_bytes(bootstrap_method_attr_index as int) + u16_bytes(
                name_and_type_index as int,
            ),
        ConstantPoolInfo::Module { name_index } => seq![19u8] + u16_bytes(name_index as int),
        ConstantPoolInfo::Package { name_index } => seq![20u8] + u16_bytes(name_index as int),
    }
}

/// True when the entry can be laid out: the text of a Utf8 entry is no
/// longer than 65535 bytes, the most that its length field can hold.
pub open spec fn entry_fits(e: ConstantPoolInfo) -> bool {
    e matches ConstantPoolInfo::Utf8 { string } ==> encode_utf8(string@).len() <= 0xFFFF
}

/// True when every entry of the pool can be laid out.
pub open spec fn pool_fits(pool: Seq<ConstantPoolInfo>) -> bool {
    forall|i: int| 0 <= i < pool.len() ==> entry_fits(#[trigger] pool[i])
}

/// The number of payload bytes behind the tag `tag` of an entry of fixed
/// size.
pub open spec fn payload_len(tag: u8) -> int {
    if tag == 3 || tag == 4 || (9 <= tag <= 12) || tag == 17 || tag == 18 {
        4
    } else if tag == 5 || tag == 6 {
        8
    } else if tag == 15 {
        3
    } else {
        2
    }
}

/// Where the constant-pool entry ends whose tag stands at `i`.
pub open spec fn entry_end(s: Seq<u8>, i: int) -> Result<int, DecodeError> {
    if i < 0 || i >= s.len() {
        Err(eof(s))
    } else if !ConstantPoolTag::is_tag(s[i]) {
        Err(fault(DecodeErrorKind::InvalidConstantTag, i))
    } else if s[i] == 1 {
        if i + 3 > s.len() || i + 3 + be_u16(s, i + 1) > s.len() {
            Err(eof(s))
        } else if !valid_utf8(s.subrange(i + 3, i + 3 + be_u16(s, i + 1))) {
            Err(fault(DecodeErrorKind::InvalidUtf8, i))
        } else {
            Ok(i + 3 + be_u16(s, i + 1))
        }
    } else if i + 1 + payload_len(s[i]) > s.len() {
        Err(eof(s))
    } else {
        Ok(i + 1 + payload_len(s[i]))
    }
}

/// True for the tags of the entries that take two slots of the pool.
pub open spec fn takes_two_slots(tag: u8) -> bool {
    tag == 5 || tag == 6
}

/// Where the entries of a pool of `count` slots end, when the entry for
/// slot `index` starts at `i`.  An entry of two slots must leave room for
/// its second slot.
pub open spec fn pool_end(s: Seq<u8>, i: int, index: int, count: int) -> Result<int, DecodeError>
    decreases count - index,
{
    if index >= count {
        Ok(i)
    } else {
        match entry_end(s, i) {
            Err(e) => Err(e),
            Ok(j) => if takes_two_slots(s[i]) {
                if index + 2 > count {
                    Err(fault(DecodeErrorKind::InvalidPoolIndex, i))
                } else {
                    pool_end(s, j, index + 2, count)
                }
            } else {
                pool_end(s, j, index + 1, count)
            },
        }
    }
}

/// The bytes of the entries of a pool, in order.
pub open spec fn pool_bytes(pool: Seq<ConstantPoolInfo>) -> Seq<u8>
    decreases pool.len(),
{
    if pool.len() == 0 {
        Seq::empty()
    } else {
        pool_bytes(pool.drop_last()) + entry_bytes(pool.last())
    }
}

/// True for the entries that take two slots.
pub open spec fn is_wide_entry(e: ConstantPoolInfo) -> bool {
    e is Long || e is Double
}

/// The slots of a pool are laid out as the format asks: slot 0 holds no
/// entry, and a later slot holds none exactly when the slot before it holds
/// a `Long` or a `Double`.
pub open spec fn pool_layout(pool: Seq<ConstantPoolInfo>) -> bool {
    &&& pool.len() >= 1
    &&& pool[0] is Unusable
    &&& forall|k: int|
        1 <= k < pool.len() ==> ((#[trigger] pool[k]) is Unusable <==> is_wide_entry(pool[k - 1]))
}

// ---------------------------------------------------------------------
// Stack-map frames
// ---------------------------------------------------------------------
/// The bytes of a verification type.
pub open spec fn vti_bytes(v: VerificationTypeInfo) -> Seq<u8> {
    match v {
        VerificationTypeInfo::Top => seq![0u8],
        VerificationTypeInfo::Integer => seq![1u8],
        VerificationTypeInfo::Float => seq![2u8],
        VerificationTypeInfo::Double => seq![3u8],
        VerificationTypeInfo::Long => seq![4u8],
        VerificationTypeInfo::Null => seq![5u8],
        VerificationTypeInfo::UninitializedThis => seq![6u8],
        VerificationTypeInfo::Object { cpool_index } => seq![7u8] + u16_bytes(cpool_index as int),
        VerificationTypeInfo::Uninitialized { offset } => seq![8u8] + u16_bytes(offset as int),
    }
}

/// Where the verification type ends whose tag stands at `i`.
pub open spec fn vti_end(s: Seq<u8>, i: int) -> Result<int, DecodeError> {
    if i < 0 || i >= s.len() {
        Err(eof(s))
    } else if s[i] <= 6 {
        Ok(i + 1)
    } else if s[i] <= 8 {
        if i + 3 > s.len() {
            Err(eof(s))
        } else {
            Ok(i + 3)
        }
    } else {
        Err(fault(DecodeErrorKind::InvalidVerificationTag, i))
    }
}

/// Where `n` verification types end that start at `i`.
pub open spec fn vtis_end(s: Seq<u8>, i: int, n: int) -> Result<int, DecodeError>
    decreases n,
{
    if n <= 0 {
        Ok(i)
    } else {
        match vti_end(s, i) {
            Err(e) => Err(e),
            Ok(j) => vtis_end(s, j, n - 1),
        }
    }
}

/// The bytes of verification types, in order.
pub open spec fn vtis_bytes(v: Seq<VerificationTypeInfo>) -> Seq<u8>
    decreases v.len(),
{
    if v.len() == 0 {
        Seq::empty()
    } else {
        vtis_bytes(v.drop_last()) + vti_bytes(v.last())
    }
}

/// The bytes of a stack-map frame.
pub open spec fn frame_bytes(f: StackMapFrame) -> Seq<u8> {
    match f {
        StackMapFrame::Same { offset_delta } => seq![offset_delta as u8],
        StackMapFrame::SameLocals1StackItem { offset_delta, stack } => seq![
            (offset_delta + 64) as u8,
        ] + vtis_bytes(stack@),
        StackMapFrame::SameLocals1StackItemExtended { offset_delta, stack } => seq![247u8]
            + u16_bytes(offset_delta as int) + vtis_bytes(stack@),
        StackMapFrame::Chop { frame_type, offset_delta } => seq![frame_type] + u16_bytes(
            offset_delta as int,
        ),
        StackMapFrame::SameExtended { offset_delta } => seq![251u8] + u16_bytes(
            offset_delta as int,
        ),
        StackMapFrame::Append { offset_delta, locals } => seq![(251 + locals@.len()) as u8]
            + u16_bytes(offset_delta as int) + vtis_bytes(locals@),
        StackMapFrame::Full {
            offset_delta,
            number_of_locals,
            locals,
            number_of_stack_items,
            stack,
        } => seq![255u8] + u16_bytes(offset_delta as int) + u16_bytes(number_of_locals as int)
            + vtis_bytes(locals@) + u16_bytes(number_of_stack_items as int) + vtis_bytes(stack@),
    }
}

/// Where the stack-map frame ends whose frame type stands at `i`.
pub open spec fn frame_end(s: Seq<u8>, i: int) -> Result<int, DecodeError> {
    if i < 0 || i >= s.len() {
        Err(eof(s))
    } else if s[i] <= 63 {
        Ok(i + 1)
    } else if s[i] <= 127 {
        vti_end(s, i + 1)
    } else if s[i] <= 246 {
        Err(fault(DecodeErrorKind::InvalidFrameType, i))
    } else if i + 3 > s.len() {
        Err(eof(s))
    } else if s[i] == 247 {
        vti_end(s, i + 3)
    } else if s[i] <= 251 {
        Ok(i + 3)
    } else if s[i] <= 254 {
        vtis_end(s, i + 3, s[i] - 251)
    } else if i + 5 > s.len() {
        Err(eof(s))
    } else {
        match vtis_end(s, i + 5, be_u16(s, i + 3)) {
            Err(e) => Err(e),
            Ok(j) => if j + 2 > s.len() {
                Err(eof(s))
            } else {
                vtis_end(s, j + 2, be_u16(s, j))
            },
        }
    }
}

/// Where `n` stack-map frames end that start at `i`.
pub open spec fn frames_end(s: Seq<u8>, i: int, n: int) -> Result<int, DecodeError>
    decreases n,
{
    if n <= 0 {
        Ok(i)
    } else {
        match frame_end(s, i) {
            Err(e) => Err(e),
            Ok(j) => frames_end(s, j, n - 1),
        }
    }
}

/// The bytes of stack-map frames, in order.
pub open spec fn frames_bytes(v: Seq<StackMapFrame>) -> Seq<u8>
    decreases v.len(),
{
    if v.len() == 0 {
        Seq::empty()
    } else {
        frames_bytes(v.drop_last()) + frame_bytes(v.last())
    }
}

// ---------------------------------------------------------------------
// Tables of records of fixed size
// ---------------------------------------------------------------------
/// The bytes of an entry of an exception table.
pub open spec fn exception_bytes(e: ExceptionTable) -> Seq<u8> {
    u16_bytes(e.start_pc as int) + u16_bytes(e.end_pc as int) + u16_bytes(e.handler_pc as int)
        + u16_bytes(e.catch_type as int)
}

/// The bytes of an exception table.
pub open spec fn exceptions_bytes(v: Seq<ExceptionTable>) -> Seq<u8>
    decreases v.len(),
{
    if v.len() == 0 {
        Seq::empty()
    } else {
        exceptions_bytes(v.drop_last()) + exception_bytes(v.last())
    }
}

/// The bytes of an entry of a line-number table.
pub open spec fn line_bytes(e: LineNumberTable) -> Seq<u8> {
    u16_bytes(e.start_pc as int) + u16_bytes(e.line_number as int)
}

/// The bytes of a line-number table.
pub open spec fn lines_bytes(v: Seq<LineNumberTable>) -> Seq<u8>
    decreases v.len(),
{
    if v.len() == 0 {
        Seq::empty()
    } else {
        lines_bytes(v.drop_last()) + line_bytes(v.last())
    }
}

/// The bytes of a list of 16-bit numbers.
pub open spec fn indices_bytes(v: Seq<u16>) -> Seq<u8>
    decreases v.len(),
{
    if v.len() == 0 {
        Seq::empty()
    } else {
        indices_bytes(v.drop_last()) + u16_bytes(v.last() as int)
    }
}

/// The bytes of an entry of a bootstrap-method table.
pub open spec fn bootstrap_bytes(b: BootstrapMethod) -> Seq<u8> {
    u16_bytes(b.bootstrap_method_ref as int) + u16_bytes(b.num_bootstrap_arguments as int)
        + indices_bytes(b.bootstrap_arguments@)
}

/// Where the entry of a bootstrap-method table ends that starts at `i`.
pub open spec fn bootstrap_end(s: Seq<u8>, i: int) -> Result<int, DecodeError> {
    if i < 0 || i + 4 > s.len() {
        Err(eof(s))
    } else {
        fixed_end(s, i + 4, be_u16(s, i + 2), 2)
    }
}

/// Where `n` entries of a bootstrap-method table end that start at `i`.
pub open spec fn bootstraps_end(s: Seq<u8>, i: int, n: int) -> Result<int, DecodeError>
    decreases n,
{
    if n <= 0 {
        Ok(i)
    } else {
        match bootstrap_end(s, i) {
            Err(e) => Err(e),
            Ok(j) => bootstraps_end(s, j, n - 1),
        }
    }
}

/// The bytes of a bootstrap-method table.
pub open spec fn bootstraps_bytes(v: Seq<BootstrapMethod>) -> Seq<u8>
    decreases v.len(),
{
    if v.len() == 0 {
        Seq::empty()
    } else {
        bootstraps_bytes(v.drop_last()) + bootstrap_bytes(v.last())
    }
}

// ---------------------------------------------------------------------
// Attributes
// ---------------------------------------------------------------------
/// The name of the attribute whose name index is `index`, or why the index
/// names none; `at` is where the attribute starts.
pub open spec fn attribute_name(pool: Seq<ConstantPoolInfo>, index: int, at: int) -> Result<
    AttributeName,
    DecodeError,
> {
    if index < 0 || index >= pool.len() {
        Err(fault(DecodeErrorKind::InvalidPoolIndex, at))
    } else {
        match pool[index] {
            ConstantPoolInfo::Utf8 { string } => Ok(AttributeName::of(string@)),
            _ => Err(fault(DecodeErrorKind::UnexpectedPoolEntry, at)),
        }
    }
}

/// Where the body of an attribute named `name` ends that starts at `b`.
/// The body of an attribute that the reader decodes ends where its
/// structure ends; the body of any other attribute is `length` bytes long,
/// as the attribute declares.
pub open spec fn body_end(
    s: Seq<u8>,
    pool: Seq<ConstantPoolInfo>,
    name: AttributeName,
    b: int,
    length: int,
) -> Result<int, DecodeError>
    decreases s.len() - b, 1int,
{
    match name {
        AttributeName::ConstantValue => fixed_end(s, b, 1, 2),
        AttributeName::SourceFile => fixed_end(s, b, 1, 2),
        AttributeName::NestHost => fixed_end(s, b, 1, 2),
        AttributeName::Code => {
            if b < 0 || b + 8 > s.len() || b + 8 + be_u32(s, b + 4) + 2 > s.len() {
                Err(eof(s))
            } else {
                let t = b + 8 + be_u32(s, b + 4);
                if t + 2 + 8 * be_u16(s, t) + 2 > s.len() {
                    Err(eof(s))
                } else {
                    let a = t + 2 + 8 * be_u16(s, t);
                    if a + 2 > b {
                        attributes_end(s, pool, a + 2, be_u16(s, a))
                    } else {
                        Err(eof(s))
                    }
                }
            }
        },
        AttributeName::StackMapTable => if b + 2 > s.len() {
            Err(eof(s))
        } else {
            frames_end(s, b + 2, be_u16(s, b))
        },
        AttributeName::LineNumberTable => if b + 2 > s.len() {
            Err(eof(s))
        } else {
            fixed_end(s, b + 2, be_u16(s, b), 4)
        },
        AttributeName::BootstrapMethods => if b + 2 > s.len() {
            Err(eof(s))
        } else {
            bootstraps_end(s, b + 2, be_u16(s, b))
        },
        AttributeName::NestMembers => if b + 2 > s.len() {
            Err(eof(s))
        } else {
            fixed_end(s, b + 2, be_u16(s, b), 2)
        },
        AttributeName::PermittedSubclasses => if b + 2 > s.len() {
            Err(eof(s))
        } else {
            fixed_end(s, b + 2, be_u16(s, b), 2)
        },
        _ => fixed_end(s, b, length, 1),
    }
}

/// Where the attribute ends that starts at `i`: behind the index of its
/// name, its declared length and its body.
pub open spec fn attribute_end(s: Seq<u8>, pool: Seq<ConstantPoolInfo>, i: int) -> Result<
    int,
    DecodeError,
>
    decreases s.len() - i, 0int,
{
    if i < 0 || i + 6 > s.len() {
        Err(eof(s))
    } else {
        match attribute_name(pool, be_u16(s, i), i) {
            Err(e) => Err(e),
            Ok(name) => body_end(s, pool, name, i + 6, be_u32(s, i + 2)),
        }
    }
}

/// Where `n` attributes end that start at `i`.
pub open spec fn attributes_end(s: Seq<u8>, pool: Seq<ConstantPoolInfo>, i: int, n: int) -> Result<
    int,
    DecodeError,
>
    decreases s.len() - i, n + 1,
{
    if n <= 0 {
        Ok(i)
    } else {
        match attribute_end(s, pool, i) {
            Err(e) => Err(e),
            Ok(j) => if i <= j <= s.len() {
                attributes_end(s, pool, j, n - 1)
            } else {
                Err(eof(s))
            },
        }
    }
}

/// The bytes of the body of an attribute.
pub open spec fn body_bytes(info: Attribute) -> Seq<u8>
    decreases info,
{
    match info {
        Attribute::ConstantValue { constantvalue_index } => u16_bytes(constantvalue_index as int),
        Attribute::Code {
            max_stack,
            max_locals,
            code_length,
            code,
            exception_table_length,
            exception_table,
            attributes_count,
            attributes,
        } => u16_bytes(max_stack as int) + u16_bytes(max_locals as int) + u32_bytes(
            code_length as int,
        ) + code@ + u16_bytes(exception_table_length as int) + exceptions_bytes(exception_table@)
            + u16_bytes(attributes_count as int) + attributes_bytes(attributes@),
        Attribute::StackMapTable { number_of_entries, entries } => u16_bytes(
            number_of_entries as int,
        ) + frames_bytes(entries@),
        Attribute::SourceFile { sourcefile_index } => u16_bytes(sourcefile_index as int),
        Attribute::LineNumberTable { line_number_table_length, line_number_table } => u16_bytes(
            line_number_table_length as int,
        ) + lines_bytes(line_number_table@),
        Attribute::BootstrapMethods { num_bootstrap_methods, bootstrap_methods } => u16_bytes(
            num_bootstrap_methods as int,
        ) + bootstraps_bytes(bootstrap_methods@),
        Attribute::NestHost { host_class_index } => u16_bytes(host_class_index as int),
        Attribute::NestMembers { number_of_classes, classes } => u16_bytes(
            number_of_classes as int,
        ) + indices_bytes(classes@),
        Attribute::PermittedSubclasses { number_of_classes, classes } => u16_bytes(
            number_of_classes as int,
        ) + indices_bytes(classes@),
        _ => info.raw(),
    }
}

/// The bytes of an attribute: the index of its name, its declared length
/// and its body.
pub open spec fn attribute_bytes(a: AttributeInfo) -> Seq<u8>
    decreases a,
{
    u16_bytes(a.attribute_name_index as int) + u32_bytes(a.attribute_length as int) + body_bytes(
        a.info,
    )
}

/// The bytes of attributes, in order.
pub open spec fn attributes_bytes(v: Seq<AttributeInfo>) -> Seq<u8>
    decreases v,
{
    if v.len() == 0 {
        Seq::empty()
    } else {
        attributes_bytes(v.drop_last()) + attribute_bytes(v.last())
    }
}

// ---------------------------------------------------------------------
// Fields and methods
// ---------------------------------------------------------------------
/// Where the field or method ends that starts at `i`, where only the bits
/// of `mask` may be set in its access flags.
pub open spec fn member_end(s: Seq<u8>, pool: Seq<ConstantPoolInfo>, i: int, mask: u16) -> Result<
    int,
    DecodeError,
> {
    if i < 0 || i + 2 > s.len() {
        Err(eof(s))
    } else if (be_u16(s, i) as u16) & !mask != 0 {
        Err(fault(DecodeErrorKind::InvalidAccessFlags, i))
    } else if i + 8 > s.len() {
        Err(eof(s))
    } else {
        attributes_end(s, pool, i + 8, be_u16(s, i + 6))
    }
}

/// Where `n` fields or methods end that start at `i`.
pub open spec fn members_end(
    s: Seq<u8>,
    pool: Seq<ConstantPoolInfo>,
    i: int,
    n: int,
    mask: u16,
) -> Result<int, DecodeError>
    decreases n,
{
    if n <= 0 {
        Ok(i)
    } else {
        match member_end(s, pool, i, mask) {
            Err(e) => Err(e),
            Ok(j) => members_end(s, pool, j, n - 1, mask),
        }
    }
}

/// The bytes of a field.
pub open spec fn field_bytes(f: FieldInfo) -> Seq<u8> {
    u16_bytes(f.access_flags.bits as int) + u16_bytes(f.name_index as int) + u16_bytes(
        f.descriptor_index as int,
    ) + u16_bytes(f.attributes_count as int) + attributes_bytes(f.attributes@)
}

/// The bytes of fields, in order.
pub open spec fn fields_bytes(v: Seq<FieldInfo>) -> Seq<u8>
    decreases v.len(),
{
    if v.len() == 0 {
        Seq::empty()
    } else {
        fields_bytes(v.drop_last()) + field_bytes(v.last())
    }
}

/// The bytes of a method.
pub open spec fn method_bytes(m: MethodInfo) -> Seq<u8> {
    u16_bytes(m.access_flags.bits as int) + u16_bytes(m.name_index as int) + u16_bytes(
        m.descriptor_index as int,
    ) + u16_bytes(m.attributes_count as int) + attributes_bytes(m.attributes@)
}

/// The bytes of methods, in order.
pub open spec fn methods_bytes(v: Seq<MethodInfo>) -> Seq<u8>
    decreases v.len(),
{
    if v.len() == 0 {
        Seq::empty()
    } else {
        methods_bytes(v.drop_last()) + method_bytes(v.last())
    }
}

// ---------------------------------------------------------------------
// Interfaces
// ---------------------------------------------------------------------
/// Where `n` interface indices end that start at `i`.  Each must point to a
/// class entry of the pool.
pub open spec fn interfaces_end(s: Seq<u8>, pool: Seq<ConstantPoolInfo>, i: int, n: int) -> Result<
    int,
    DecodeError,
>
    decreases n,
{
    if n <= 0 {
        Ok(i)
    } else if i < 0 || i + 2 > s.len() {
        Err(eof(s))
    } else if be_u16(s, i) >= pool.len() {
        Err(fault(DecodeErrorKind::InvalidPoolIndex, i))
    } else if !(pool[be_u16(s, i)] is Class) {
        Err(fault(DecodeErrorKind::ExpectedClassTag, i))
    } else {
        interfaces_end(s, pool, i + 2, n - 1)
    }
}

// ---------------------------------------------------------------------
// The class file
// ---------------------------------------------------------------------
/// Where the head of the class file that starts at `i` ends: the magic
/// word, the two version numbers and the constant pool.
pub open spec fn head_end(s: Seq<u8>, i: int) -> Result<int, DecodeError> {
    if i < 0 || i + 10 > s.len() {
        Err(eof(s))
    } else if be_u16(s, i + 8) == 0 {
        Err(fault(DecodeErrorKind::InvalidPoolIndex, i + 8))
    } else {
        pool_end(s, i + 10, 1, be_u16(s, i + 8))
    }
}

/// Where the part of a class file behind its constant pool `pool` ends,
/// when that part starts at `i`: the access flags, the class and
/// super-class indices, the interfaces, the fields, the methods and the
/// attributes.
pub open spec fn tail_end(s: Seq<u8>, pool: Seq<ConstantPoolInfo>, i: int) -> Result<
    int,
    DecodeError,
> {
    if i < 0 || i + 2 > s.len() {
        Err(eof(s))
    } else if !ClassAccessFlags::valid(be_u16(s, i) as u16) {
        Err(fault(DecodeErrorKind::InvalidAccessFlags, i))
    } else if i + 8 > s.len() {
        Err(eof(s))
    } else {
        match interfaces_end(s, pool, i + 8, be_u16(s, i + 6)) {
            Err(e) => Err(e),
            Ok(f) => if f + 2 > s.len() {
                Err(eof(s))
            } else {
                match members_end(s, pool, f + 2, be_u16(s, f), FieldAccessFlags::ALL) {
                    Err(e) => Err(e),
                    Ok(m) => if m + 2 > s.len() {
                        Err(eof(s))
                    } else {
                        match members_end(s, pool, m + 2, be_u16(s, m), MethodAccessFlags::ALL) {
                            Err(e) => Err(e),
                            Ok(a) => if a + 2 > s.len() {
                                Err(eof(s))
                            } else {
                                attributes_end(s, pool, a + 2, be_u16(s, a))
                            },
                        }
                    },
                }
            },
        }
    }
}

/// The bytes of the head of a class file.
pub open spec fn head_bytes(cf: ClassFile) -> Seq<u8> {
    u32_bytes(cf.magic as int) + u16_bytes(cf.minor_version as int) + u16_bytes(
        cf.major_version as int,
    ) + u16_bytes(cf.constant_pool_count as int) + pool_bytes(cf.constant_pool@)
}

/// The bytes of the part of a class file behind its constant pool.
pub open spec fn tail_bytes(cf: ClassFile) -> Seq<u8> {
    u16_bytes(cf.access_flags.bits as int) + u16_bytes(cf.this_class as int) + u16_bytes(
        cf.super_class as int,
    ) + u16_bytes(cf.interfaces_count as int) + indices_bytes(cf.interface_indices@) + u16_bytes(
        cf.fields_count as int,
    ) + fields_bytes(cf.fields@) + u16_bytes(cf.methods_count as int) + methods_bytes(cf.methods@)
        + u16_bytes(cf.attributes_count as int) + attributes_bytes(cf.attributes@)
}

// ---------------------------------------------------------------------
// Records in the form that their bytes give
// ---------------------------------------------------------------------
/// The frame has the form that its frame type gives: an offset that fits
/// into the frame type, one stack item where the frame type stands for
/// one, a frame type that chops, one to three appended locals, and as
/// many locals and stack items as a full frame counts.
pub open spec fn frame_formed(f: StackMapFrame) -> bool {
    match f {
        StackMapFrame::Same { offset_delta } => offset_delta <= 63,
        StackMapFrame::SameLocals1StackItem { offset_delta, stack } => offset_delta <= 63
            && stack@.len() == 1,
        StackMapFrame::SameLocals1StackItemExtended { offset_delta, stack } => stack@.len() == 1,
        StackMapFrame::Chop { frame_type, offset_delta } => 248 <= frame_type <= 250,
        StackMapFrame::SameExtended { offset_delta } => true,
        StackMapFrame::Append { offset_delta, locals } => 1 <= locals@.len() <= 3,
        StackMapFrame::Full {
            offset_delta,
            number_of_locals,
            locals,
            number_of_stack_items,
            stack,
        } => locals@.len() == number_of_locals && stack@.len() == number_of_stack_items,
    }
}

/// Every frame has the form that its frame type gives.
pub open spec fn frames_formed(v: Seq<StackMapFrame>) -> bool {
    forall|k: int| 0 <= k < v.len() ==> frame_formed(#[trigger] v[k])
}

/// Every entry of the bootstrap-method table has as many arguments as it
/// counts.
pub open spec fn bootstraps_formed(v: Seq<BootstrapMethod>) -> bool {
    forall|k: int|
        0 <= k < v.len() ==> (#[trigger] v[k]).bootstrap_arguments@.len()
            == v[k].num_bootstrap_arguments
}

/// The body of an attribute has the form that its bytes give: every table
/// is as long as its count says, the code is as long as its length says,
/// and what is nested in it is formed likewise.
pub open spec fn body_formed(pool: Seq<ConstantPoolInfo>, info: Attribute) -> bool
    decreases info,
{
    match info {
        Attribute::Code {
            max_stack,
            max_locals,
            code_length,
            code,
            exception_table_length,
            exception_table,
            attributes_count,
            attributes,
        } => {
            &&& code@.len() == code_length
            &&& exception_table@.len() == exception_table_length
            &&& attributes@.len() == attributes_count
            &&& attributes_formed(pool, attributes@)
        },
        Attribute::StackMapTable { number_of_entries, entries } => {
            &&& entries@.len() == number_of_entries
            &&& frames_formed(entries@)
        },
        Attribute::LineNumberTable { line_number_table_length, line_number_table } => {
            line_number_table@.len() == line_number_table_length
        },
        Attribute::BootstrapMethods { num_bootstrap_methods, bootstrap_methods } => {
            &&& bootstrap_methods@.len() == num_bootstrap_methods
            &&& bootstraps_formed(bootstrap_methods@)
        },
        Attribute::NestMembers { number_of_classes, classes } => classes@.len()
            == number_of_classes,
        Attribute::PermittedSubclasses { number_of_classes, classes } => classes@.len()
            == number_of_classes,
        _ => true,
    }
}

/// The attribute has the form that its bytes give: its body is of the kind
/// that the Utf8 entry at its name index names, and is formed.
pub open spec fn attribute_formed(pool: Seq<ConstantPoolInfo>, a: AttributeInfo) -> bool
    decreases a,
{
    &&& a.attribute_name_index < pool.len()
    &&& match pool[a.attribute_name_index as int] {
        ConstantPoolInfo::Utf8 { string } => a.info.name() == AttributeName::of(string@),
        _ => false,
    }
    &&& body_formed(pool, a.info)
}

/// Every attribute has the form that its bytes give.
pub open spec fn attributes_formed(pool: Seq<ConstantPoolInfo>, v: Seq<AttributeInfo>) -> bool
    decreases v,
{
    if v.len() == 0 {
        true
    } else {
        attributes_formed(pool, v.drop_last()) && attribute_formed(pool, v.last())
    }
}

/// Every field has as many attributes as it counts, each of them formed.
pub open spec fn fields_formed(pool: Seq<ConstantPoolInfo>, v: Seq<FieldInfo>) -> bool {
    forall|k: int|
        0 <= k < v.len() ==> (#[trigger] v[k]).attributes@.len() == v[k].attributes_count
            && attributes_formed(pool, v[k].attributes@)
}

/// Every method has as many attributes as it counts, each of them formed.
pub open spec fn methods_formed(pool: Seq<ConstantPoolInfo>, v: Seq<MethodInfo>) -> bool {
    forall|k: int|
        0 <= k < v.len() ==> (#[trigger] v[k]).attributes@.len() == v[k].attributes_count
            && attributes_formed(pool, v[k].attributes@)
}

/// The part of a class file behind its constant pool has the form that
/// its bytes give: there are as many interfaces, fields, methods and
/// attributes as the file counts, and each is formed.
pub open spec fn tail_formed(cf: ClassFile) -> bool {
    &&& cf.interface_indices@.len() == cf.interfaces_count
    &&& cf.interfaces@.len() == cf.interfaces_count
    &&& cf.fields@.len() == cf.fields_count
    &&& fields_formed(cf.constant_pool@, cf.fields@)
    &&& cf.methods@.len() == cf.methods_count
    &&& methods_formed(cf.constant_pool@, cf.methods@)
    &&& cf.attributes@.len() == cf.attributes_count
    &&& attributes_formed(cf.constant_pool@, cf.attributes@)
}

/// The bytes of a class file: the serialisation of its records in the
/// order of the format.
pub open spec fn class_bytes(cf: ClassFile) -> Seq<u8> {
    head_bytes(cf) + tail_bytes(cf)
}

} // verus!
