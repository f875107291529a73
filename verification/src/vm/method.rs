//! Methods and the grammar of descriptors.
use crate::error::{link_error, link_fault, DecodeErrorKind, JVMError};
use crate::reader::{Attribute, AttributeInfo, ConstantPoolInfo, MethodInfo};
use crate::vm::constant_pool::{utf8_at, VMConstantPool};
use crate::vm::jvalue::DescriptorType;
use vstd::prelude::*;

verus! {

/// A method of a class: its name, its descriptor and its code.
#[derive(Debug)]
pub struct Method {
    pub name: String,
    pub descriptor: String,
    /// The instruction stream, decoded one instruction at a time when the
    /// method runs.
    pub code: Vec<u8>,
    pub max_locals: u16,
    pub max_stack: u16,
}

/// The position of the first `;` of `s` at or after `i`.
pub open spec fn semicolon_from(s: Seq<char>, i: int) -> Option<int>
    decreases s.len() - i,
{
    if i < 0 || i >= s.len() {
        None
    } else if s[i] == ';' {
        Some(i)
    } else {
        semicolon_from(s, i + 1)
    }
}

/// True for the letters that name a primitive type.
pub open spec fn is_primitive_letter(c: char) -> bool {
    c == 'B' || c == 'C' || c == 'D' || c == 'F' || c == 'I' || c == 'J' || c == 'S' || c == 'Z'
}

/// The position behind the field type that starts at `i`: a primitive
/// letter, `L<name>;`, or `[` and a field type.  `None` where no field type
/// starts.
pub open spec fn field_type_end(s: Seq<char>, i: int) -> Option<int>
    decreases s.len() - i,
{
    if i < 0 || i >= s.len() {
        None
    } else if is_primitive_letter(s[i]) {
        Some(i + 1)
    } else if s[i] == 'L' {
        match semicolon_from(s, i + 1) {
            Some(j) => Some(j + 1),
            None => None,
        }
    } else if s[i] == '[' {
        field_type_end(s, i + 1)
    } else {
        None
    }
}

/// The position behind the return type that starts at `i`: `V` or a field
/// type.
pub open spec fn return_type_end(s: Seq<char>, i: int) -> Option<int> {
    if 0 <= i < s.len() && s[i] == 'V' {
        Some(i + 1)
    } else {
        field_type_end(s, i)
    }
}

/// The position of the `)` that ends the argument types that start at `i`.
pub open spec fn arguments_end(s: Seq<char>, i: int) -> Option<int>
    decreases s.len() - i,
{
    if i < 0 || i >= s.len() {
        None
    } else if s[i] == ')' {
        Some(i)
    } else {
        let j = field_type_end(s, i);
        if j is Some && i < j->0 <= s.len() {
            arguments_end(s, j->0)
        } else {
            None
        }
    }
}

/// The texts of the argument types that start at `i`, one text for each
/// field type up to the `)`.
pub open spec fn argument_texts(s: Seq<char>, i: int) -> Seq<Seq<char>>
    decreases s.len() - i,
{
    if i < 0 || i >= s.len() || s[i] == ')' {
        Seq::empty()
    } else {
        let j = field_type_end(s, i);
        if j is Some && i < j->0 <= s.len() {
            seq![s.subrange(i, j->0)] + argument_texts(s, j->0)
        } else {
            Seq::empty()
        }
    }
}

/// `descriptor` is the descriptor of a method with arguments of the types
/// `args` and the return type `ret`: there is one argument for each field
/// type between the parentheses, in their order and with its text, none
/// of them `Void`, and the text of `ret` is what follows the `)`.
pub open spec fn describes(descriptor: Seq<char>, args: Seq<DescriptorType>, ret: DescriptorType) -> bool {
    &&& is_method_descriptor(descriptor)
    &&& args.len() == argument_texts(descriptor, 1).len()
    &&& forall|k: int|
        0 <= k < args.len() ==> (#[trigger] args[k]).text() == argument_texts(descriptor, 1)[k]
    &&& forall|k: int| 0 <= k < args.len() ==> args[k] != DescriptorType::Void
    &&& ret.text() == descriptor.subrange(
        arguments_end(descriptor, 1)->0 + 1,
        descriptor.len() as int,
    )
}

/// True when `s` is a method descriptor: `(`, field types, `)` and a return
/// type, and nothing behind it.
pub open spec fn is_method_descriptor(s: Seq<char>) -> bool {
    &&& s.len() > 0
    &&& s[0] == '('
    &&& arguments_end(s, 1) is Some
    &&& return_type_end(s, arguments_end(s, 1)->0 + 1) == Some(s.len() as int)
}

/// The descriptor texts of `types`, one after the other.
pub open spec fn texts(types: Seq<DescriptorType>) -> Seq<char>
    decreases types.len(),
{
    if types.len() == 0 {
        Seq::empty()
    } else {
        texts(types.drop_last()) + types.last().text()
    }
}

/// A semicolon found from `i` lies at or after `i`, and no semicolon lies
/// before it.
pub proof fn lemma_semicolon_from(s: Seq<char>, i: int)
    requires
        semicolon_from(s, i) is Some,
    ensures
        i <= semicolon_from(s, i)->0 < s.len(),
        s[semicolon_from(s, i)->0] == ';',
        forall|k: int| i <= k < semicolon_from(s, i)->0 ==> s[k] != ';',
    decreases s.len() - i,
{
    if s[i] != ';' {
        lemma_semicolon_from(s, i + 1);
    }
}

/// A field type is at least one character long and ends within the text.
pub proof fn lemma_field_type_end(s: Seq<char>, i: int)
    requires
        field_type_end(s, i) is Some,
    ensures
        i < field_type_end(s, i)->0 <= s.len(),
    decreases s.len() - i,
{
    if is_primitive_letter(s[i]) {
    } else if s[i] == 'L' {
        lemma_semicolon_from(s, i + 1);
    } else {
        lemma_field_type_end(s, i + 1);
    }
}

/// The position of the first `Code` attribute among `attributes` from
/// `from` on.
pub open spec fn first_code(attributes: Seq<AttributeInfo>, from: int) -> Option<int>
    decreases attributes.len() - from,
{
    if from < 0 || from >= attributes.len() {
        None
    } else if attributes[from].info is Code {
        Some(from)
    } else {
        first_code(attributes, from + 1)
    }
}

/// The name, the descriptor, the code, the number of locals and the stack
/// limit of the method that a class file declares with `info`, or why there
/// is no such method: an index cannot be followed, or the method carries no
/// `Code` attribute.
pub open spec fn method_parts(cp: Seq<ConstantPoolInfo>, info: MethodInfo) -> Result<
    (String, String, Seq<u8>, u16, u16),
    JVMError,
> {
    match utf8_at(cp, info.name_index) {
        Err(e) => Err(e),
        Ok(name) => match utf8_at(cp, info.descriptor_index) {
            Err(e) => Err(e),
            Ok(descriptor) => match first_code(info.attributes@, 0) {
                None => Err(link_fault(DecodeErrorKind::MissingCode, info.name_index)),
                Some(i) => Ok(
                    (
                        name,
                        descriptor,
                        info.attributes@[i].info->code@,
                        info.attributes@[i].info->max_locals,
                        info.attributes@[i].info->max_stack,
                    ),
                ),
            },
        },
    }
}

impl Method {
    /// The name, the descriptor, the code, the number of locals and the
    /// stack limit of a method that was built, or the failure to build it.
    pub open spec fn parts(r: Result<Method, JVMError>) -> Result<
        (String, String, Seq<u8>, u16, u16),
        JVMError,
    > {
        match r {
            Ok(m) => Ok((m.name, m.descriptor, m.code@, m.max_locals, m.max_stack)),
            Err(e) => Err(e),
        }
    }

    /// The method that a class file declares with `info`, where `cp` is the
    /// file's constant pool.
    ///
    /// The name and the descriptor are the Utf8 entries that `info` points
    /// to; the code and its limits are those of the first `Code` attribute.
    /// Fails when an index cannot be followed or there is no `Code`
    /// attribute.
    pub fn from_method_info(info: &MethodInfo, cp: &VMConstantPool) -> (r: Result<Method, JVMError>)
        ensures
            Self::parts(r) == method_parts(cp.cp@, *info),
    {
        let name = cp.find_utf8(info.name_index)?;
        let descriptor = cp.find_utf8(info.descriptor_index)?;
        let mut i: usize = 0;
        while i < info.attributes.len()
            invariant
                utf8_at(cp.cp@, info.name_index) == Ok::<String, JVMError>(name),
                utf8_at(cp.cp@, info.descriptor_index) == Ok::<String, JVMError>(descriptor),
                i <= info.attributes@.len(),
                first_code(info.attributes@, 0) == first_code(info.attributes@, i as int),
            decreases info.attributes@.len() - i,
        {
            match &info.attributes[i].info {
                Attribute::Code { max_stack, max_locals, code, .. } => {
                    return Ok(
                        Method {
                            name,
                            descriptor,
                            code: code.clone(),
                            max_locals: *max_locals,
                            max_stack: *max_stack,
                        },
                    );
                },
                _ => {},
            }
            i = i + 1;
        }
        Err(link_error(DecodeErrorKind::MissingCode, info.name_index))
    }

    /// A method without code: one local slot and an empty operand stack.
    pub fn empty(name: &str, descriptor: &str) -> (m: Method)
        ensures
            m.name@ == name@,
            m.descriptor@ == descriptor@,
            m.code@ == Seq::<u8>::empty(),
            m.max_locals == 1,
            m.max_stack == 0,
    {
        Method {
            name: name.to_owned(),
            descriptor: descriptor.to_owned(),
            code: Vec::new(),
            max_locals: 1,
            max_stack: 0,
        }
    }

    /// Parses a method descriptor into the types of its arguments and its
    /// return type.
    ///
    /// Succeeds exactly on the method descriptors.  The result then holds
    /// one argument for each field type between the parentheses and the
    /// return type behind them, and spells the descriptor: `(`, the texts
    /// of the argument types, `)` and the text of the return type.
    pub fn parse_method_descriptor(descriptor: &str) -> (r: Result<
        (Vec<DescriptorType>, DescriptorType),
        JVMError,
    >)
        ensures
            r is Ok <==> is_method_descriptor(descriptor@),
            r is Ok ==> describes(descriptor@, r->Ok_0.0@, r->Ok_0.1),
            r is Ok ==> seq!['('] + texts(r->Ok_0.0@) + seq![')'] + r->Ok_0.1.text()
                == descriptor@,
            r is Err ==> r->Err_0 == JVMError::InvalidDescriptor,
    {
        let n = descriptor.unicode_len();
        if n == 0 || descriptor.get_char(0) != '(' {
            return Err(JVMError::InvalidDescriptor);
        }
        let ghost s = descriptor@;
        let mut args: Vec<DescriptorType> = Vec::new();
        let mut pos: usize = 1;
        let ghost done: Seq<Seq<char>> = Seq::empty();
        loop
            invariant
                done.len() == args@.len(),
                forall|k: int| 0 <= k < args@.len() ==> (#[trigger] args@[k]).text() == done[k],
                argument_texts(s, 1) == done + argument_texts(s, pos as int),
                s == descriptor@,
                n == s.len(),
                1 <= pos <= n,
                s[0] == '(',
                texts(args@) == s.subrange(1, pos as int),
                arguments_end(s, pos as int) == arguments_end(s, 1),
                forall|k: int| 0 <= k < args@.len() ==> args@[k] != DescriptorType::Void,
            ensures
                pos < n,
                s[pos as int] == ')',
                argument_texts(s, 1) == done,
            decreases n - pos,
        {
            if pos >= n {
                return Err(JVMError::InvalidDescriptor);
            }
            if descriptor.get_char(pos) == ')' {
                assert(done + argument_texts(s, pos as int) =~= done);
                break ;
            }
            let (ty, end) = Self::parse_field_type(descriptor, pos)?;
            proof {
                lemma_field_type_end(s, pos as int);
                let text = s.subrange(pos as int, end as int);
                assert(argument_texts(s, pos as int) == seq![text] + argument_texts(s, end as int));
                assert(done + (seq![text] + argument_texts(s, end as int)) =~= done.push(text)
                    + argument_texts(s, end as int));
                done = done.push(text);
                assert(args@.push(ty).drop_last() =~= args@);
                assert(s.subrange(1, end as int) =~= s.subrange(1, pos as int) + s.subrange(
                    pos as int,
                    end as int,
                ));
            }
            args.push(ty);
            pos = end;
        }
        let (ret, end) = Self::parse_return_type(descriptor, pos + 1)?;
        if end != n {
            return Err(JVMError::InvalidDescriptor);
        }
        proof {
            assert(seq!['('] + texts(args@) + seq![')'] + ret.text() =~= s);
            assert(arguments_end(s, 1) == Some(pos as int));
        }
        Ok((args, ret))
    }

    /// Parses the return type that starts at character `pos`: `V` for
    /// `Void`, or a field type.  Returns the type and the position behind
    /// it.
    pub fn parse_return_type(descriptor: &str, pos: usize) -> (r: Result<
        (DescriptorType, usize),
        JVMError,
    >)
        ensures
            r is Ok <==> return_type_end(descriptor@, pos as int) is Some,
            r is Ok ==> r->Ok_0.1 as int == return_type_end(descriptor@, pos as int)->0,
            r is Ok ==> r->Ok_0.0.text() == descriptor@.subrange(pos as int, r->Ok_0.1 as int),
            r is Err ==> r->Err_0 == JVMError::InvalidDescriptor,
    {
        let n = descriptor.unicode_len();
        if pos < n && descriptor.get_char(pos) == 'V' {
            assert(descriptor@.subrange(pos as int, pos + 1) =~= seq!['V']);
            return Ok((DescriptorType::Void, pos + 1));
        }
        Self::parse_field_type(descriptor, pos)
    }

    /// Parses the field type that starts at character `pos`.  Returns the
    /// type and the position behind it.
    pub fn parse_field_type(descriptor: &str, pos: usize) -> (r: Result<
        (DescriptorType, usize),
        JVMError,
    >)
        ensures
            r is Ok <==> field_type_end(descriptor@, pos as int) is Some,
            r is Ok ==> r->Ok_0.1 as int == field_type_end(descriptor@, pos as int)->0,
            r is Ok ==> r->Ok_0.0.text() == descriptor@.subrange(pos as int, r->Ok_0.1 as int),
            r is Ok ==> r->Ok_0.0 != DescriptorType::Void,
            r is Err ==> r->Err_0 == JVMError::InvalidDescriptor,
        decreases descriptor@.len() - pos,
    {
        let ghost s = descriptor@;
        let n = descriptor.unicode_len();
        if pos >= n {
            return Err(JVMError::InvalidDescriptor);
        }
        let c = descriptor.get_char(pos);
        let simple = match c {
            'B' => Some(DescriptorType::Byte),
            'C' => Some(DescriptorType::Char),
            'D' => Some(DescriptorType::Double),
            'F' => Some(DescriptorType::Float),
            'I' => Some(DescriptorType::Int),
            'J' => Some(DescriptorType::Long),
            'S' => Some(DescriptorType::Short),
            'Z' => Some(DescriptorType::Boolean),
            _ => None,
        };
        match simple {
            Some(ty) => {
                assert(s.subrange(pos as int, pos + 1) =~= seq![c]);
                Ok((ty, pos + 1))
            },
            None => {
                if c == 'L' {
                    let mut end: usize = pos + 1;
                    while end < n && descriptor.get_char(end) != ';'
                        invariant
                            s == descriptor@,
                            n == s.len(),
                            pos + 1 <= end <= n,
                            semicolon_from(s, end as int) == semicolon_from(s, pos + 1),
                        decreases n - end,
                    {
                        end = end + 1;
                    }
                    if end >= n {
                        return Err(JVMError::InvalidDescriptor);
                    }
                    let name = descriptor.substring_char(pos + 1, end).to_owned();
                    assert(s.subrange(pos as int, end + 1) =~= seq!['L'] + name@ + seq![';']);
                    Ok((DescriptorType::Object(name), end + 1))
                } else if c == '[' {
                    let (inner, end) = Self::parse_field_type(descriptor, pos + 1)?;
                    proof {
                        lemma_field_type_end(s, pos + 1);
                        assert(s.subrange(pos as int, end as int) =~= seq!['['] + s.subrange(
                            pos + 1,
                            end as int,
                        ));
                    }
                    Ok((DescriptorType::Array(Box::new(inner)), end))
                } else {
                    Err(JVMError::InvalidDescriptor)
                }
            },
        }
    }
}

} // verus!
