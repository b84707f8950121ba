use vstd::prelude::*;

verus! {

/// Width and signedness of an integer field.
#[derive(Clone, Copy, Debug, PartialEq, Eq, Structural)]
pub enum IntegerType {
    I8,
    I16,
    I32,
    I64,
    U8,
    U16,
    U32,
    U64,
}

/// The closed set of field type tags a trace event may carry.
#[derive(Clone, Copy, Debug, PartialEq, Eq, Structural)]
pub enum CTFType {
    /// A scalar integer.
    Integer(IntegerType),
    /// A null-terminated string.
    Text,
    /// A variable-length array of integers, passed with its length.
    Sequence(IntegerType),
    /// A variable-length run of characters, passed with its length.
    SequenceText,
}

/// C spelling of a scalar integer type.
pub open spec fn integer_c_type(t: IntegerType) -> Seq<char> {
    match t {
        IntegerType::I8 => "int8_t"@,
        IntegerType::I16 => "int16_t"@,
        IntegerType::I32 => "int32_t"@,
        IntegerType::I64 => "int64_t"@,
        IntegerType::U8 => "uint8_t"@,
        IntegerType::U16 => "uint16_t"@,
        IntegerType::U32 => "uint32_t"@,
        IntegerType::U64 => "uint64_t"@,
    }
}

/// C spelling of a pointer to constant integers of the given type.
pub open spec fn integer_pointer_c_type(t: IntegerType) -> Seq<char> {
    match t {
        IntegerType::I8 => "const int8_t*"@,
        IntegerType::I16 => "const int16_t*"@,
        IntegerType::I32 => "const int32_t*"@,
        IntegerType::I64 => "const int64_t*"@,
        IntegerType::U8 => "const uint8_t*"@,
        IntegerType::U16 => "const uint16_t*"@,
        IntegerType::U32 => "const uint32_t*"@,
        IntegerType::U64 => "const uint64_t*"@,
    }
}

/// The C type used for the value parameter of a field of type `t`.
pub open spec fn c_type_of(t: CTFType) -> Seq<char> {
    match t {
        CTFType::Integer(i) => integer_c_type(i),
        CTFType::Text => "const char*"@,
        CTFType::Sequence(i) => integer_pointer_c_type(i),
        CTFType::SequenceText => "const char*"@,
    }
}

/// Whether a field of type `t` is variable-length and so needs a length parameter.
pub open spec fn is_sequence_type(t: CTFType) -> bool {
    match t {
        CTFType::Sequence(_) | CTFType::SequenceText => true,
        _ => false,
    }
}

impl CTFType {
    /// True exactly for the variable-length types.
    pub fn is_sequence(&self) -> (r: bool)
        ensures
            r == is_sequence_type(*self),
    {
        match self {
            CTFType::Sequence(_) | CTFType::SequenceText => true,
            _ => false,
        }
    }
}

/// The C type spelling for a parameter of the given field type.
pub fn ctf_field_c_type(t: CTFType) -> (r: &'static str)
    ensures
        r@ == c_type_of(t),
{
    match t {
        CTFType::Integer(i) => match i {
            IntegerType::I8 => "int8_t",
            IntegerType::I16 => "int16_t",
            IntegerType::I32 => "int32_t",
            IntegerType::I64 => "int64_t",
            IntegerType::U8 => "uint8_t",
            IntegerType::U16 => "uint16_t",
            IntegerType::U32 => "uint32_t",
            IntegerType::U64 => "uint64_t",
        },
        CTFType::Text => "const char*",
        CTFType::Sequence(i) => match i {
            IntegerType::I8 => "const int8_t*",
            IntegerType::I16 => "const int16_t*",
            IntegerType::I32 => "const int32_t*",
            IntegerType::I64 => "const int64_t*",
            IntegerType::U8 => "const uint8_t*",
            IntegerType::U16 => "const uint16_t*",
            IntegerType::U32 => "const uint32_t*",
            IntegerType::U64 => "const uint64_t*",
        },
        CTFType::SequenceText => "const char*",
    }
}

} // verus!
