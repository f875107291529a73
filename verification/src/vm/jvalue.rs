//! Values as they sit on operand stacks, in locals and in fields.
use vstd::prelude::*;

verus! {

/// A runtime value.
///
/// `Float` and `Double` carry the IEEE-754 bit pattern of the number.
/// `Reference` carries the handle of a heap object: its index in the heap.
#[derive(Clone, Copy, PartialEq, Eq, Structural, Debug)]
pub enum JValue {
    Byte(i8),
    Short(i16),
    Int(i32),
    Long(i64),
    Char(u16),
    Float(u32),
    Double(u64),
    Boolean(bool),
    Reference(usize),
    Null,
}

impl JValue {
    /// True for the values that take two slots: `Long` and `Double`.
    #[verifier::when_used_as_spec(spec_is_category2)]
    pub fn is_category2(&self) -> (r: bool)
        ensures
            r == self.spec_is_category2(),
    {
        match self {
            JValue::Long(_) => true,
            JValue::Double(_) => true,
            _ => false,
        }
    }

    /// True for `Long` and `Double`.
    pub open spec fn spec_is_category2(&self) -> bool {
        *self is Long || *self is Double
    }

    /// True for a reference to an object and for the null reference.
    #[verifier::when_used_as_spec(spec_is_reference)]
    pub fn is_reference(&self) -> (r: bool)
        ensures
            r == self.spec_is_reference(),
    {
        match self {
            JValue::Reference(_) => true,
            JValue::Null => true,
            _ => false,
        }
    }

    /// True for `Reference` and `Null`.
    pub open spec fn spec_is_reference(&self) -> bool {
        *self is Reference || *self is Null
    }
}

/// The type that a descriptor names.
#[derive(PartialEq, Eq, Debug)]
pub enum DescriptorType {
    Byte,
    Char,
    Double,
    Float,
    Int,
    Long,
    Short,
    Boolean,
    Object(String),
    Array(Box<DescriptorType>),
    Void,
}

impl DescriptorType {
    /// The descriptor text of the type.
    pub open spec fn text(self) -> Seq<char>
        decreases self,
    {
        match self {
            DescriptorType::Byte => seq!['B'],
            DescriptorType::Char => seq!['C'],
            DescriptorType::Double => seq!['D'],
            DescriptorType::Float => seq!['F'],
            DescriptorType::Int => seq!['I'],
            DescriptorType::Long => seq!['J'],
            DescriptorType::Short => seq!['S'],
            DescriptorType::Boolean => seq!['Z'],
            DescriptorType::Object(name) => seq!['L'] + name@ + seq![';'],
            DescriptorType::Array(inner) => seq!['['] + inner.text(),
            DescriptorType::Void => seq!['V'],
        }
    }

    /// The number of local slots that a value of the type takes: two for
    /// `Long` and `Double`, none for `Void`, one otherwise.
    #[verifier::when_used_as_spec(spec_slots)]
    pub fn slots(&self) -> (r: usize)
        ensures
            r == self.spec_slots(),
    {
        match self {
            DescriptorType::Long => 2,
            DescriptorType::Double => 2,
            DescriptorType::Void => 0,
            _ => 1,
        }
    }

    /// Two for `Long` and `Double`, none for `Void`, one otherwise.
    pub open spec fn spec_slots(&self) -> usize {
        match self {
            DescriptorType::Long => 2,
            DescriptorType::Double => 2,
            DescriptorType::Void => 0,
            _ => 1,
        }
    }
}

} // verus!
