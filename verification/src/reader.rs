//! The decoded form of a class file, and the reader that decodes one from
//! bytes.
pub use crate::class_reader::ClassFileReader;
use vstd::prelude::*;

verus! {

/// A class file, decoded.  The counts are kept as they stand in the file.
#[derive(Debug)]
pub struct ClassFile {
    pub magic: u32,
    pub minor_version: u16,
    pub major_version: u16,
    pub constant_pool_count: u16,
    /// The constant pool, indexed as in the file: the entry at index 0 and
    /// the entry behind each `Long` and `Double` are `Unusable`.
    pub constant_pool: Vec<ConstantPoolInfo>,
    pub access_flags: ClassAccessFlags,
    pub this_class: u16,
    pub super_class: u16,
    pub interfaces_count: u16,
    /// The constant-pool indices of the interfaces, as the file lists them.
    pub interface_indices: Vec<u16>,
    /// The class entries that `interface_indices` point to.
    pub interfaces: Vec<ConstantPoolInfo>,
    pub fields_count: u16,
    pub fields: Vec<FieldInfo>,
    pub methods_count: u16,
    pub methods: Vec<MethodInfo>,
    pub attributes_count: u16,
    pub attributes: Vec<AttributeInfo>,
}

/// An entry of the constant pool.  `Float` and `Double` carry the IEEE-754
/// bit pattern of the number.
#[allow(inconsistent_fields)]
#[derive(Debug)]
pub enum ConstantPoolInfo {
    /// A slot that holds no entry: index 0, and the index behind a `Long`
    /// or `Double`.
    Unusable,
    Utf8 { string: String },
    Integer { bytes: i32 },
    Float { bytes: u32 },
    Long { bytes: i64 },
    Double { bytes: u64 },
    Class { name_index: u16 },
    String { string_index: u16 },
    FieldRef { class_index: u16, name_and_type_index: u16 },
    MethodRef { class_index: u16, name_and_type_index: u16 },
    InterfaceMethodRef { class_index: u16, name_and_type_index: u16 },
    NameAndType { name_index: u16, descriptor_index: u16 },
    MethodHandle { reference_kind: u8, reference_index: u16 },
    MethodType { descriptor_index: u16 },
    Dynamic { bootstrap_method_attr_index: u16, name_and_type_index: u16 },
    InvokeDynamic { bootstrap_method_attr_index: u16, name_and_type_index: u16 },
    Module { name_index: u16 },
    Package { name_index: u16 },
}

/// The tags that start the entries of the constant pool.
#[derive(Clone, Copy, PartialEq, Eq, Structural, Debug)]
pub enum ConstantPoolTag {
    Utf8,
    Integer,
    Float,
    Long,
    Double,
    Class,
    String,
    FieldRef,
    MethodRef,
    InterfaceMethodRef,
    NameAndType,
    MethodHandle,
    MethodType,
    Dynamic,
    InvokeDynamic,
    Module,
    Package,
}

impl ConstantPoolTag {
    /// The tag byte.
    pub open spec fn spec_byte(self) -> u8 {
        match self {
            ConstantPoolTag::Utf8 => 1,
            ConstantPoolTag::Integer => 3,
            ConstantPoolTag::Float => 4,
            ConstantPoolTag::Long => 5,
            ConstantPoolTag::Double => 6,
            ConstantPoolTag::Class => 7,
            ConstantPoolTag::String => 8,
            ConstantPoolTag::FieldRef => 9,
            ConstantPoolTag::MethodRef => 10,
            ConstantPoolTag::InterfaceMethodRef => 11,
            ConstantPoolTag::NameAndType => 12,
            ConstantPoolTag::MethodHandle => 15,
            ConstantPoolTag::MethodType => 16,
            ConstantPoolTag::Dynamic => 17,
            ConstantPoolTag::InvokeDynamic => 18,
            ConstantPoolTag::Module => 19,
            ConstantPoolTag::Package => 20,
        }
    }

    /// The tag byte.
    #[verifier::when_used_as_spec(spec_byte)]
    pub fn byte(self) -> (r: u8)
        ensures
            r == self.spec_byte(),
    {
        match self {
            ConstantPoolTag::Utf8 => 1,
            ConstantPoolTag::Integer => 3,
            ConstantPoolTag::Float => 4,
            ConstantPoolTag::Long => 5,
            ConstantPoolTag::Double => 6,
            ConstantPoolTag::Class => 7,
            ConstantPoolTag::String => 8,
            ConstantPoolTag::FieldRef => 9,
            ConstantPoolTag::MethodRef => 10,
            ConstantPoolTag::InterfaceMethodRef => 11,
            ConstantPoolTag::NameAndType => 12,
            ConstantPoolTag::MethodHandle => 15,
            ConstantPoolTag::MethodType => 16,
            ConstantPoolTag::Dynamic => 17,
            ConstantPoolTag::InvokeDynamic => 18,
            ConstantPoolTag::Module => 19,
            ConstantPoolTag::Package => 20,
        }
    }

    /// True for the bytes that are tags.
    pub open spec fn is_tag(b: u8) -> bool {
        b == 1 || 3 <= b <= 12 || 15 <= b <= 20
    }

    /// The tag with tag byte `b`.
    pub fn try_from(b: u8) -> (r: Option<ConstantPoolTag>)
        ensures
            r is Some <==> Self::is_tag(b),
            r is Some ==> r->0.spec_byte() == b,
    {
        match b {
            1 => Some(ConstantPoolTag::Utf8),
            3 => Some(ConstantPoolTag::Integer),
            4 => Some(ConstantPoolTag::Float),
            5 => Some(ConstantPoolTag::Long),
            6 => Some(ConstantPoolTag::Double),
            7 => Some(ConstantPoolTag::Class),
            8 => Some(ConstantPoolTag::String),
            9 => Some(ConstantPoolTag::FieldRef),
            10 => Some(ConstantPoolTag::MethodRef),
            11 => Some(ConstantPoolTag::InterfaceMethodRef),
            12 => Some(ConstantPoolTag::NameAndType),
            15 => Some(ConstantPoolTag::MethodHandle),
            16 => Some(ConstantPoolTag::MethodType),
            17 => Some(ConstantPoolTag::Dynamic),
            18 => Some(ConstantPoolTag::InvokeDynamic),
            19 => Some(ConstantPoolTag::Module),
            20 => Some(ConstantPoolTag::Package),
            _ => None,
        }
    }
}

/// The access flags of a class: a 16-bit word in which only the bits of
/// the named flags may be set.
#[derive(Clone, Copy, PartialEq, Eq, Structural, Debug)]
pub struct ClassAccessFlags {
    pub bits: u16,
}

impl ClassAccessFlags {
    pub const PUBLIC: u16 = 0x0001;

    pub const FINAL: u16 = 0x0010;

    pub const SUPER: u16 = 0x0020;

    pub const INTERFACE: u16 = 0x0200;

    pub const ABSTRACT: u16 = 0x0400;

    pub const SYNTHETIC: u16 = 0x1000;

    pub const ANNOTATION: u16 = 0x2000;

    pub const ENUM: u16 = 0x4000;

    pub const MODULE: u16 = 0x8000;

    /// The bits that name a flag.
    pub const ALL: u16 = 0xf631;

    /// True when no bit of `bits` is set that names no flag.
    pub open spec fn valid(bits: u16) -> bool {
        bits & !0xf631u16 == 0
    }

    /// The flag set with the bits `bits`; `None` when a bit is set that
    /// names no flag.
    pub fn from_bits(bits: u16) -> (r: Option<ClassAccessFlags>)
        ensures
            r is Some <==> Self::valid(bits),
            r is Some ==> r->0.bits == bits,
    {
        if bits & !0xf631u16 == 0 {
            Some(ClassAccessFlags { bits })
        } else {
            None
        }
    }

    /// The empty flag set.
    pub fn empty() -> (r: ClassAccessFlags)
        ensures
            r.bits == 0,
    {
        ClassAccessFlags { bits: 0 }
    }

    /// The 16-bit word.
    pub fn bits(&self) -> (r: u16)
        ensures
            r == self.bits,
    {
        self.bits
    }

    /// True when every bit of `flags` is set.
    pub fn contains(&self, flags: u16) -> (r: bool)
        ensures
            r == (self.bits & flags == flags),
    {
        self.bits & flags == flags
    }
}

/// The access flags of a field: a 16-bit word in which only the bits of
/// the named flags may be set.
#[derive(Clone, Copy, PartialEq, Eq, Structural, Debug)]
pub struct FieldAccessFlags {
    pub bits: u16,
}

impl FieldAccessFlags {
    pub const PUBLIC: u16 = 0x0001;

    pub const PRIVATE: u16 = 0x0002;

    pub const PROTECTED: u16 = 0x0004;

    pub const STATIC: u16 = 0x0008;

    pub const FINAL: u16 = 0x0010;

    pub const VOLATILE: u16 = 0x0040;

    pub const TRANSIENT: u16 = 0x0080;

    pub const SYNTHETIC: u16 = 0x1000;

    pub const ENUM: u16 = 0x4000;

    /// The bits that name a flag.
    pub const ALL: u16 = 0x50df;

    /// True when no bit of `bits` is set that names no flag.
    pub open spec fn valid(bits: u16) -> bool {
        bits & !0x50dfu16 == 0
    }

    /// The flag set with the bits `bits`; `None` when a bit is set that
    /// names no flag.
    pub fn from_bits(bits: u16) -> (r: Option<FieldAccessFlags>)
        ensures
            r is Some <==> Self::valid(bits),
            r is Some ==> r->0.bits == bits,
    {
        if bits & !0x50dfu16 == 0 {
            Some(FieldAccessFlags { bits })
        } else {
            None
        }
    }

    /// The empty flag set.
    pub fn empty() -> (r: FieldAccessFlags)
        ensures
            r.bits == 0,
    {
        FieldAccessFlags { bits: 0 }
    }

    /// The 16-bit word.
    pub fn bits(&self) -> (r: u16)
        ensures
            r == self.bits,
    {
        self.bits
    }

    /// True when every bit of `flags` is set.
    pub fn contains(&self, flags: u16) -> (r: bool)
        ensures
            r == (self.bits & flags == flags),
    {
        self.bits & flags == flags
    }
}

/// The access flags of a method: a 16-bit word in which only the bits of
/// the named flags may be set.
#[derive(Clone, Copy, PartialEq, Eq, Structural, Debug)]
pub struct MethodAccessFlags {
    pub bits: u16,
}

impl MethodAccessFlags {
    pub const PUBLIC: u16 = 0x0001;

    pub const PRIVATE: u16 = 0x0002;

    pub const PROTECTED: u16 = 0x0004;

    pub const STATIC: u16 = 0x0008;

    pub const FINAL: u16 = 0x0010;

    pub const SYNCHRONIZED: u16 = 0x0020;

    pub const BRIDGE: u16 = 0x0040;

    pub const VARARGS: u16 = 0x0080;

    pub const NATIVE: u16 = 0x0100;

    pub const ABSTRACT: u16 = 0x0400;

    pub const STRICT: u16 = 0x0800;

    pub const SYNTHETIC: u16 = 0x1000;

    /// The bits that name a flag.
    pub const ALL: u16 = 0x1dff;

    /// True when no bit of `bits` is set that names no flag.
    pub open spec fn valid(bits: u16) -> bool {
        bits & !0x1dffu16 == 0
    }

    /// The flag set with the bits `bits`; `None` when a bit is set that
    /// names no flag.
    pub fn from_bits(bits: u16) -> (r: Option<MethodAccessFlags>)
        ensures
            r is Some <==> Self::valid(bits),
            r is Some ==> r->0.bits == bits,
    {
        if bits & !0x1dffu16 == 0 {
            Some(MethodAccessFlags { bits })
        } else {
            None
        }
    }

    /// The empty flag set.
    pub fn empty() -> (r: MethodAccessFlags)
        ensures
            r.bits == 0,
    {
        MethodAccessFlags { bits: 0 }
    }

    /// The 16-bit word.
    pub fn bits(&self) -> (r: u16)
        ensures
            r == self.bits,
    {
        self.bits
    }

    /// True when every bit of `flags` is set.
    pub fn contains(&self, flags: u16) -> (r: bool)
        ensures
            r == (self.bits & flags == flags),
    {
        self.bits & flags == flags
    }
}

/// A field as the class file declares it.
#[derive(Debug)]
pub struct FieldInfo {
    pub access_flags: FieldAccessFlags,
    pub name_index: u16,
    pub descriptor_index: u16,
    pub attributes_count: u16,
    pub attributes: Vec<AttributeInfo>,
}

/// A method as the class file declares it.
#[derive(Debug)]
pub struct MethodInfo {
    pub access_flags: MethodAccessFlags,
    pub name_index: u16,
    pub descriptor_index: u16,
    pub attributes_count: u16,
    pub attributes: Vec<AttributeInfo>,
}

/// An attribute: the index of its name, its declared length and its body.
#[derive(Debug)]
pub struct AttributeInfo {
    pub attribute_name_index: u16,
    pub attribute_length: u32,
    pub info: Attribute,
}

/// An entry of a method's exception table.
#[derive(Debug)]
pub struct ExceptionTable {
    pub start_pc: u16,
    pub end_pc: u16,
    pub handler_pc: u16,
    pub catch_type: u16,
}

/// A frame of a stack-map table.
#[derive(Debug)]
pub enum StackMapFrame {
    Same { offset_delta: u16 },
    SameLocals1StackItem { offset_delta: u16, stack: Vec<VerificationTypeInfo> },
    SameLocals1StackItemExtended { offset_delta: u16, stack: Vec<VerificationTypeInfo> },
    /// `frame_type` is 248, 249 or 250: the frame drops `251 - frame_type`
    /// locals.
    Chop { frame_type: u8, offset_delta: u16 },
    SameExtended { offset_delta: u16 },
    Append { offset_delta: u16, locals: Vec<VerificationTypeInfo> },
    Full {
        offset_delta: u16,
        number_of_locals: u16,
        locals: Vec<VerificationTypeInfo>,
        number_of_stack_items: u16,
        stack: Vec<VerificationTypeInfo>,
    },
}

/// The type of a local or of an operand in a stack-map frame.
#[derive(Debug)]
pub enum VerificationTypeInfo {
    Top,
    Integer,
    Float,
    Double,
    Long,
    Null,
    UninitializedThis,
    Object { cpool_index: u16 },
    Uninitialized { offset: u16 },
}

/// An entry of the bootstrap-method table.
#[derive(Debug)]
pub struct BootstrapMethod {
    pub bootstrap_method_ref: u16,
    pub num_bootstrap_arguments: u16,
    pub bootstrap_arguments: Vec<u16>,
}

/// An entry of a line-number table.
#[derive(Debug)]
pub struct LineNumberTable {
    pub start_pc: u16,
    pub line_number: u16,
}

/// The body of an attribute.  The attributes that the machine does not
/// read keep their bytes as they stand in the file.
#[derive(Debug)]
pub enum Attribute {
    ConstantValue { constantvalue_index: u16 },
    Code {
        max_stack: u16,
        max_locals: u16,
        code_length: u32,
        /// The instruction stream, not decoded.
        code: Vec<u8>,
        exception_table_length: u16,
        exception_table: Vec<ExceptionTable>,
        attributes_count: u16,
        attributes: Vec<AttributeInfo>,
    },
    StackMapTable { number_of_entries: u16, entries: Vec<StackMapFrame> },
    SourceFile { sourcefile_index: u16 },
    LineNumberTable { line_number_table_length: u16, line_number_table: Vec<LineNumberTable> },
    BootstrapMethods { num_bootstrap_methods: u16, bootstrap_methods: Vec<BootstrapMethod> },
    NestHost { host_class_index: u16 },
    NestMembers { number_of_classes: u16, classes: Vec<u16> },
    PermittedSubclasses { number_of_classes: u16, classes: Vec<u16> },
    Exceptions { info: Vec<u8> },
    InnerClasses { info: Vec<u8> },
    EnclosingMethod { info: Vec<u8> },
    Synthetic { info: Vec<u8> },
    Signature { info: Vec<u8> },
    SourceDebugExtension { info: Vec<u8> },
    LocalVariableTable { info: Vec<u8> },
    LocalVariableTypeTable { info: Vec<u8> },
    Deprecated { info: Vec<u8> },
    RuntimeVisibleAnnotations { info: Vec<u8> },
    RuntimeInvisibleAnnotations { info: Vec<u8> },
    RuntimeVisibleParameterAnnotations { info: Vec<u8> },
    RuntimeInvisibleParameterAnnotations { info: Vec<u8> },
    RuntimeVisibleTypeAnnotations { info: Vec<u8> },
    RuntimeInvisibleTypeAnnotations { info: Vec<u8> },
    AnnotationDefault { info: Vec<u8> },
    MethodParameters { info: Vec<u8> },
    Module { info: Vec<u8> },
    ModulePackages { info: Vec<u8> },
    ModuleMainClass { info: Vec<u8> },
    Record { info: Vec<u8> },
    /// An attribute whose name the format does not define.
    Unknown { info: Vec<u8> },
}

/// The attributes by name.
#[derive(Clone, Copy, PartialEq, Eq, Structural, Debug)]
pub enum AttributeName {
    ConstantValue,
    Code,
    StackMapTable,
    SourceFile,
    LineNumberTable,
    BootstrapMethods,
    NestHost,
    NestMembers,
    PermittedSubclasses,
    Exceptions,
    InnerClasses,
    EnclosingMethod,
    Synthetic,
    Signature,
    SourceDebugExtension,
    LocalVariableTable,
    LocalVariableTypeTable,
    Deprecated,
    RuntimeVisibleAnnotations,
    RuntimeInvisibleAnnotations,
    RuntimeVisibleParameterAnnotations,
    RuntimeInvisibleParameterAnnotations,
    RuntimeVisibleTypeAnnotations,
    RuntimeInvisibleTypeAnnotations,
    AnnotationDefault,
    MethodParameters,
    Module,
    ModulePackages,
    ModuleMainClass,
    Record,
    Unknown,
}

impl AttributeName {
    /// The attribute that `name` names.
    pub open spec fn of(name: Seq<char>) -> AttributeName {
        if name == "ConstantValue"@ {
            AttributeName::ConstantValue
        } else if name == "Code"@ {
            AttributeName::Code
        } else if name == "StackMapTable"@ {
            AttributeName::StackMapTable
        } else if name == "SourceFile"@ {
            AttributeName::SourceFile
        } else if name == "LineNumberTable"@ {
            AttributeName::LineNumberTable
        } else if name == "BootstrapMethods"@ {
            AttributeName::BootstrapMethods
        } else if name == "NestHost"@ {
            AttributeName::NestHost
        } else if name == "NestMembers"@ {
            AttributeName::NestMembers
        } else if name == "PermittedSubclasses"@ {
            AttributeName::PermittedSubclasses
        } else if name == "Exceptions"@ {
            AttributeName::Exceptions
        } else if name == "InnerClasses"@ {
            AttributeName::InnerClasses
        } else if name == "EnclosingMethod"@ {
            AttributeName::EnclosingMethod
        } else if name == "Synthetic"@ {
            AttributeName::Synthetic
        } else if name == "Signature"@ {
            AttributeName::Signature
        } else if name == "SourceDebugExtension"@ {
            AttributeName::SourceDebugExtension
        } else if name == "LocalVariableTable"@ {
            AttributeName::LocalVariableTable
        } else if name == "LocalVariableTypeTable"@ {
            AttributeName::LocalVariableTypeTable
        } else if name == "Deprecated"@ {
            AttributeName::Deprecated
        } else if name == "RuntimeVisibleAnnotations"@ {
            AttributeName::RuntimeVisibleAnnotations
        } else if name == "RuntimeInvisibleAnnotations"@ {
            AttributeName::RuntimeInvisibleAnnotations
        } else if name == "RuntimeVisibleParameterAnnotations"@ {
            AttributeName::RuntimeVisibleParameterAnnotations
        } else if name == "RuntimeInvisibleParameterAnnotations"@ {
            AttributeName::RuntimeInvisibleParameterAnnotations
        } else if name == "RuntimeVisibleTypeAnnotations"@ {
            AttributeName::RuntimeVisibleTypeAnnotations
        } else if name == "RuntimeInvisibleTypeAnnotations"@ {
            AttributeName::RuntimeInvisibleTypeAnnotations
        } else if name == "AnnotationDefault"@ {
            AttributeName::AnnotationDefault
        } else if name == "MethodParameters"@ {
            AttributeName::MethodParameters
        } else if name == "Module"@ {
            AttributeName::Module
        } else if name == "ModulePackages"@ {
            AttributeName::ModulePackages
        } else if name == "ModuleMainClass"@ {
            AttributeName::ModuleMainClass
        } else if name == "Record"@ {
            AttributeName::Record
        } else {
            AttributeName::Unknown
        }
    }

    /// True for the attributes whose body the reader keeps as bytes.
    pub open spec fn is_raw(self) -> bool {
        match self {
            AttributeName::ConstantValue => false,
            AttributeName::Code => false,
            AttributeName::StackMapTable => false,
            AttributeName::SourceFile => false,
            AttributeName::LineNumberTable => false,
            AttributeName::BootstrapMethods => false,
            AttributeName::NestHost => false,
            AttributeName::NestMembers => false,
            AttributeName::PermittedSubclasses => false,
            _ => true,
        }
    }
}

impl Attribute {
    /// The name under which the body was read.
    pub open spec fn name(self) -> AttributeName {
        match self {
            Attribute::ConstantValue { .. } => AttributeName::ConstantValue,
            Attribute::Code { .. } => AttributeName::Code,
            Attribute::StackMapTable { .. } => AttributeName::StackMapTable,
            Attribute::SourceFile { .. } => AttributeName::SourceFile,
            Attribute::LineNumberTable { .. } => AttributeName::LineNumberTable,
            Attribute::BootstrapMethods { .. } => AttributeName::BootstrapMethods,
            Attribute::NestHost { .. } => AttributeName::NestHost,
            Attribute::NestMembers { .. } => AttributeName::NestMembers,
            Attribute::PermittedSubclasses { .. } => AttributeName::PermittedSubclasses,
            Attribute::Exceptions { .. } => AttributeName::Exceptions,
            Attribute::InnerClasses { .. } => AttributeName::InnerClasses,
            Attribute::EnclosingMethod { .. } => AttributeName::EnclosingMethod,
            Attribute::Synthetic { .. } => AttributeName::Synthetic,
            Attribute::Signature { .. } => AttributeName::Signature,
            Attribute::SourceDebugExtension { .. } => AttributeName::SourceDebugExtension,
            Attribute::LocalVariableTable { .. } => AttributeName::LocalVariableTable,
            Attribute::LocalVariableTypeTable { .. } => AttributeName::LocalVariableTypeTable,
            Attribute::Deprecated { .. } => AttributeName::Deprecated,
            Attribute::RuntimeVisibleAnnotations { .. } => AttributeName::RuntimeVisibleAnnotations,
            Attribute::RuntimeInvisibleAnnotations { .. } => AttributeName::RuntimeInvisibleAnnotations,
            Attribute::RuntimeVisibleParameterAnnotations { .. } => AttributeName::RuntimeVisibleParameterAnnotations,
            Attribute::RuntimeInvisibleParameterAnnotations { .. } => AttributeName::RuntimeInvisibleParameterAnnotations,
            Attribute::RuntimeVisibleTypeAnnotations { .. } => AttributeName::RuntimeVisibleTypeAnnotations,
            Attribute::RuntimeInvisibleTypeAnnotations { .. } => AttributeName::RuntimeInvisibleTypeAnnotations,
            Attribute::AnnotationDefault { .. } => AttributeName::AnnotationDefault,
            Attribute::MethodParameters { .. } => AttributeName::MethodParameters,
            Attribute::Module { .. } => AttributeName::Module,
            Attribute::ModulePackages { .. } => AttributeName::ModulePackages,
            Attribute::ModuleMainClass { .. } => AttributeName::ModuleMainClass,
            Attribute::Record { .. } => AttributeName::Record,
            Attribute::Unknown { .. } => AttributeName::Unknown,
        }
    }

    /// The name under which the body was read.
    pub fn kind(&self) -> (r: AttributeName)
        ensures
            r == self.name(),
    {
        match self {
            Attribute::ConstantValue { .. } => AttributeName::ConstantValue,
            Attribute::Code { .. } => AttributeName::Code,
            Attribute::StackMapTable { .. } => AttributeName::StackMapTable,
            Attribute::SourceFile { .. } => AttributeName::SourceFile,
            Attribute::LineNumberTable { .. } => AttributeName::LineNumberTable,
            Attribute::BootstrapMethods { .. } => AttributeName::BootstrapMethods,
            Attribute::NestHost { .. } => AttributeName::NestHost,
            Attribute::NestMembers { .. } => AttributeName::NestMembers,
            Attribute::PermittedSubclasses { .. } => AttributeName::PermittedSubclasses,
            Attribute::Exceptions { .. } => AttributeName::Exceptions,
            Attribute::InnerClasses { .. } => AttributeName::InnerClasses,
            Attribute::EnclosingMethod { .. } => AttributeName::EnclosingMethod,
            Attribute::Synthetic { .. } => AttributeName::Synthetic,
            Attribute::Signature { .. } => AttributeName::Signature,
            Attribute::SourceDebugExtension { .. } => AttributeName::SourceDebugExtension,
            Attribute::LocalVariableTable { .. } => AttributeName::LocalVariableTable,
            Attribute::LocalVariableTypeTable { .. } => AttributeName::LocalVariableTypeTable,
            Attribute::Deprecated { .. } => AttributeName::Deprecated,
            Attribute::RuntimeVisibleAnnotations { .. } => AttributeName::RuntimeVisibleAnnotations,
            Attribute::RuntimeInvisibleAnnotations { .. } => AttributeName::RuntimeInvisibleAnnotations,
            Attribute::RuntimeVisibleParameterAnnotations { .. } => AttributeName::RuntimeVisibleParameterAnnotations,
            Attribute::RuntimeInvisibleParameterAnnotations { .. } => AttributeName::RuntimeInvisibleParameterAnnotations,
            Attribute::RuntimeVisibleTypeAnnotations { .. } => AttributeName::RuntimeVisibleTypeAnnotations,
            Attribute::RuntimeInvisibleTypeAnnotations { .. } => AttributeName::RuntimeInvisibleTypeAnnotations,
            Attribute::AnnotationDefault { .. } => AttributeName::AnnotationDefault,
            Attribute::MethodParameters { .. } => AttributeName::MethodParameters,
            Attribute::Module { .. } => AttributeName::Module,
            Attribute::ModulePackages { .. } => AttributeName::ModulePackages,
            Attribute::ModuleMainClass { .. } => AttributeName::ModuleMainClass,
            Attribute::Record { .. } => AttributeName::Record,
            Attribute::Unknown { .. } => AttributeName::Unknown,
        }
    }

    /// The bytes of a body that the reader keeps as bytes.
    pub open spec fn raw(self) -> Seq<u8> {
        match self {
            Attribute::Exceptions { info } => info@,
            Attribute::InnerClasses { info } => info@,
            Attribute::EnclosingMethod { info } => info@,
            Attribute::Synthetic { info } => info@,
            Attribute::Signature { info } => info@,
            Attribute::SourceDebugExtension { info } => info@,
            Attribute::LocalVariableTable { info } => info@,
            Attribute::LocalVariableTypeTable { info } => info@,
            Attribute::Deprecated { info } => info@,
            Attribute::RuntimeVisibleAnnotations { info } => info@,
            Attribute::RuntimeInvisibleAnnotations { info } => info@,
            Attribute::RuntimeVisibleParameterAnnotations { info } => info@,
            Attribute::RuntimeInvisibleParameterAnnotations { info } => info@,
            Attribute::RuntimeVisibleTypeAnnotations { info } => info@,
            Attribute::RuntimeInvisibleTypeAnnotations { info } => info@,
            Attribute::AnnotationDefault { info } => info@,
            Attribute::MethodParameters { info } => info@,
            Attribute::Module { info } => info@,
            Attribute::ModulePackages { info } => info@,
            Attribute::ModuleMainClass { info } => info@,
            Attribute::Record { info } => info@,
            Attribute::Unknown { info } => info@,
            _ => Seq::empty(),
        }
    }

    /// The bytes of a body that the reader keeps as bytes; `None` for a
    /// body that the reader decodes.
    pub fn raw_info(&self) -> (r: Option<&Vec<u8>>)
        ensures
            r is Some <==> self.name().is_raw(),
            r is Some ==> r->0@ == self.raw(),
    {
        match self {
            Attribute::Exceptions { info } => Some(info),
            Attribute::InnerClasses { info } => Some(info),
            Attribute::EnclosingMethod { info } => Some(info),
            Attribute::Synthetic { info } => Some(info),
            Attribute::Signature { info } => Some(info),
            Attribute::SourceDebugExtension { info } => Some(info),
            Attribute::LocalVariableTable { info } => Some(info),
            Attribute::LocalVariableTypeTable { info } => Some(info),
            Attribute::Deprecated { info } => Some(info),
            Attribute::RuntimeVisibleAnnotations { info } => Some(info),
            Attribute::RuntimeInvisibleAnnotations { info } => Some(info),
            Attribute::RuntimeVisibleParameterAnnotations { info } => Some(info),
            Attribute::RuntimeInvisibleParameterAnnotations { info } => Some(info),
            Attribute::RuntimeVisibleTypeAnnotations { info } => Some(info),
            Attribute::RuntimeInvisibleTypeAnnotations { info } => Some(info),
            Attribute::AnnotationDefault { info } => Some(info),
            Attribute::MethodParameters { info } => Some(info),
            Attribute::Module { info } => Some(info),
            Attribute::ModulePackages { info } => Some(info),
            Attribute::ModuleMainClass { info } => Some(info),
            Attribute::Record { info } => Some(info),
            Attribute::Unknown { info } => Some(info),
            _ => None,
        }
    }

    /// The body that keeps `info` under the name `name`.
    pub(crate) fn from_raw(name: AttributeName, info: Vec<u8>) -> (r: Attribute)
        requires
            name.is_raw(),
        ensures
            r.name() == name,
            r.raw() == info@,
    {
        match name {
            AttributeName::Exceptions => Attribute::Exceptions { info },
            AttributeName::InnerClasses => Attribute::InnerClasses { info },
            AttributeName::EnclosingMethod => Attribute::EnclosingMethod { info },
            AttributeName::Synthetic => Attribute::Synthetic { info },
            AttributeName::Signature => Attribute::Signature { info },
            AttributeName::SourceDebugExtension => Attribute::SourceDebugExtension { info },
            AttributeName::LocalVariableTable => Attribute::LocalVariableTable { info },
            AttributeName::LocalVariableTypeTable => Attribute::LocalVariableTypeTable { info },
            AttributeName::Deprecated => Attribute::Deprecated { info },
            AttributeName::RuntimeVisibleAnnotations => Attribute::RuntimeVisibleAnnotations { info },
            AttributeName::RuntimeInvisibleAnnotations => Attribute::RuntimeInvisibleAnnotations { info },
            AttributeName::RuntimeVisibleParameterAnnotations => Attribute::RuntimeVisibleParameterAnnotations { info },
            AttributeName::RuntimeInvisibleParameterAnnotations => Attribute::RuntimeInvisibleParameterAnnotations { info },
            AttributeName::RuntimeVisibleTypeAnnotations => Attribute::RuntimeVisibleTypeAnnotations { info },
            AttributeName::RuntimeInvisibleTypeAnnotations => Attribute::RuntimeInvisibleTypeAnnotations { info },
            AttributeName::AnnotationDefault => Attribute::AnnotationDefault { info },
            AttributeName::MethodParameters => Attribute::MethodParameters { info },
            AttributeName::Module => Attribute::Module { info },
            AttributeName::ModulePackages => Attribute::ModulePackages { info },
            AttributeName::ModuleMainClass => Attribute::ModuleMainClass { info },
            AttributeName::Record => Attribute::Record { info },
            _ => Attribute::Unknown { info },
        }
    }
}

} // verus!
