//! The type classifier: given a type reference, decides whether it is passed
//! and returned by value (a primitive) or by opaque pointer, and whether it
//! is a string type that needs character-pointer marshaling. Also renders the
//! C name of a primitive type for the interface-description text.

use vstd::prelude::*;

use crate::strutil::{ends_with_str, is_suffix, str_eq};

verus! {

/// A reference to a named type as it appears in a declaration: the path text
/// without any leading `&`, and whether the declaration took it by reference.
#[derive(Clone, Debug)]
pub struct TypeRef {
    pub is_ref: bool,
    pub name: String,
}

/// The mathematical value of a `TypeRef`.
pub struct TypeRefV {
    pub is_ref: bool,
    pub name: Seq<char>,
}

impl View for TypeRef {
    type V = TypeRefV;

    open spec fn view(&self) -> TypeRefV {
        TypeRefV { is_ref: self.is_ref, name: self.name@ }
    }
}

/// How a type crosses the foreign boundary: by value, by opaque pointer, or
/// by character pointer (the string sub-case of opaque passing).
#[derive(Clone, Copy, PartialEq, Eq, Structural, Debug)]
pub enum TypeClass {
    Primitive,
    Opaque,
    StringLike,
}

/// The builtin value types that pass through the foreign signature unchanged.
pub open spec fn is_primitive_name(s: Seq<char>) -> bool {
    ||| s == "bool"@
    ||| s == "char"@
    ||| s == "u8"@
    ||| s == "u16"@
    ||| s == "u32"@
    ||| s == "u64"@
    ||| s == "usize"@
    ||| s == "i8"@
    ||| s == "i16"@
    ||| s == "i32"@
    ||| s == "i64"@
    ||| s == "isize"@
}

/// A type that textually denotes the host language's string types.
pub open spec fn is_string_name(s: Seq<char>) -> bool {
    s == "String"@ || is_suffix(s, "str"@)
}

/// Classification of a type name: primitives pass by value, string types get
/// character-pointer marshaling, and every other named type is conservatively
/// an opaque pointer-passed type.
pub open spec fn spec_classify(name: Seq<char>) -> TypeClass {
    if is_primitive_name(name) {
        TypeClass::Primitive
    } else if is_string_name(name) {
        TypeClass::StringLike
    } else {
        TypeClass::Opaque
    }
}

/// Decide how the named type crosses the foreign boundary.
pub fn classify(t: &TypeRef) -> (c: TypeClass)
    ensures
        c == spec_classify(t.name@),
{
    let n = t.name.as_str();
    if str_eq(n, "bool") || str_eq(n, "char") || str_eq(n, "u8") || str_eq(n, "u16") || str_eq(
        n,
        "u32",
    ) || str_eq(n, "u64") || str_eq(n, "usize") || str_eq(n, "i8") || str_eq(n, "i16") || str_eq(
        n,
        "i32",
    ) || str_eq(n, "i64") || str_eq(n, "isize") {
        TypeClass::Primitive
    } else if str_eq(n, "String") || ends_with_str(n, "str") {
        TypeClass::StringLike
    } else {
        TypeClass::Opaque
    }
}

/// Whether the type is passed as a pointer in the foreign signature rather
/// than by value.
pub fn needs_ref(t: &TypeRef) -> (r: bool)
    ensures
        r == (spec_classify(t.name@) != TypeClass::Primitive),
{
    match classify(t) {
        TypeClass::Primitive => false,
        _ => true,
    }
}

/// The C name of a primitive type, as the interface-description text spells
/// it; a non-primitive name passes through unchanged.
pub open spec fn spec_c_name(s: Seq<char>) -> Seq<char> {
    if s == "bool"@ {
        "bool"@
    } else if s == "char"@ {
        "uint32_t"@
    } else if s == "u8"@ {
        "uint8_t"@
    } else if s == "u16"@ {
        "uint16_t"@
    } else if s == "u32"@ {
        "uint32_t"@
    } else if s == "u64"@ {
        "uint64_t"@
    } else if s == "usize"@ {
        "uintptr_t"@
    } else if s == "i8"@ {
        "int8_t"@
    } else if s == "i16"@ {
        "int16_t"@
    } else if s == "i32"@ {
        "int32_t"@
    } else if s == "i64"@ {
        "int64_t"@
    } else if s == "isize"@ {
        "intptr_t"@
    } else {
        s
    }
}

/// Render the C spelling of a type name.
pub fn c_name(name: &str) -> (r: String)
    ensures
        r@ == spec_c_name(name@),
{
    if str_eq(name, "bool") {
        String::from_str("bool")
    } else if str_eq(name, "char") {
        String::from_str("uint32_t")
    } else if str_eq(name, "u8") {
        String::from_str("uint8_t")
    } else if str_eq(name, "u16") {
        String::from_str("uint16_t")
    } else if str_eq(name, "u32") {
        String::from_str("uint32_t")
    } else if str_eq(name, "u64") {
        String::from_str("uint64_t")
    } else if str_eq(name, "usize") {
        String::from_str("uintptr_t")
    } else if str_eq(name, "i8") {
        String::from_str("int8_t")
    } else if str_eq(name, "i16") {
        String::from_str("int16_t")
    } else if str_eq(name, "i32") {
        String::from_str("int32_t")
    } else if str_eq(name, "i64") {
        String::from_str("int64_t")
    } else if str_eq(name, "isize") {
        String::from_str("intptr_t")
    } else {
        String::from_str(name)
    }
}

} // verus!
