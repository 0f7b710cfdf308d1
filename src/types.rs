//! Field types and their rendering as native and interop Rust types.
use vstd::prelude::*;
use crate::ident::{is_ident, plain_name_verdict, validate_plain_name, NameError};

verus! {

/// A scalar type of the definition language.
#[derive(Debug, Clone, Copy, PartialEq, Eq, Structural)]
pub enum Primitive {
    Bool,
    Byte,
    Char,
    Float32,
    Float64,
    Int8,
    UInt8,
    Int16,
    UInt16,
    Int32,
    UInt32,
    Int64,
    UInt64,
}

/// What one element of a field holds.
#[derive(Debug, Clone)]
pub enum ElementType {
    Primitive(Primitive),
    /// A string.
    Text,
    /// A message of the `msg` namespace of a package.
    Nested { package: String, name: String },
    /// A message declared in the same namespace as the one that refers to it.
    Sibling(String),
}

/// The type of a field: one element, or an array of them.
#[derive(Debug, Clone)]
pub enum FieldType {
    Single(ElementType),
    /// An array of exactly the given length.
    Array(ElementType, usize),
    /// A sequence of at most the given length.
    Bounded(ElementType, usize),
    /// A sequence of any length.
    Unbounded(ElementType),
}

/// A named field of a message.
#[derive(Debug, Clone)]
pub struct Field {
    pub name: String,
    pub ty: FieldType,
}

/// A named constant of a message; its value is a literal written verbatim.
#[derive(Debug, Clone)]
pub struct Constant {
    pub name: String,
    pub ty: Primitive,
    pub value: String,
}

pub open spec fn prim_name(p: Primitive) -> Seq<char> {
    match p {
        Primitive::Bool => "bool"@,
        Primitive::Byte => "u8"@,
        Primitive::Char => "u8"@,
        Primitive::Float32 => "f32"@,
        Primitive::Float64 => "f64"@,
        Primitive::Int8 => "i8"@,
        Primitive::UInt8 => "u8"@,
        Primitive::Int16 => "i16"@,
        Primitive::UInt16 => "u16"@,
        Primitive::Int32 => "i32"@,
        Primitive::UInt32 => "u32"@,
        Primitive::Int64 => "i64"@,
        Primitive::UInt64 => "u64"@,
    }
}

pub fn prim_str(p: Primitive) -> (r: &'static str)
    ensures
        r@ == prim_name(p),
{
    match p {
        Primitive::Bool => "bool",
        Primitive::Byte => "u8",
        Primitive::Char => "u8",
        Primitive::Float32 => "f32",
        Primitive::Float64 => "f64",
        Primitive::Int8 => "i8",
        Primitive::UInt8 => "u8",
        Primitive::Int16 => "i16",
        Primitive::UInt16 => "u16",
        Primitive::Int32 => "i32",
        Primitive::UInt32 => "u32",
        Primitive::Int64 => "i64",
        Primitive::UInt64 => "u64",
    }
}

pub open spec fn digit_text(d: nat) -> Seq<char> {
    if d == 0 { "0"@ } else if d == 1 { "1"@ } else if d == 2 { "2"@ } else if d == 3 { "3"@ }
    else if d == 4 { "4"@ } else if d == 5 { "5"@ } else if d == 6 { "6"@ }
    else if d == 7 { "7"@ } else if d == 8 { "8"@ } else { "9"@ }
}

/// The decimal digits of `n`, most significant first.
pub open spec fn decimal(n: nat) -> Seq<char>
    decreases n,
{
    if n < 10 {
        digit_text(n)
    } else {
        decimal(n / 10) + digit_text(n % 10)
    }
}

fn digit_str(d: usize) -> (r: &'static str)
    requires
        d < 10,
    ensures
        r@ == digit_text(d as nat),
{
    if d == 0 { "0" } else if d == 1 { "1" } else if d == 2 { "2" } else if d == 3 { "3" }
    else if d == 4 { "4" } else if d == 5 { "5" } else if d == 6 { "6" }
    else if d == 7 { "7" } else if d == 8 { "8" } else { "9" }
}

/// Appends the decimal digits of `n`.
pub fn push_decimal(out: &mut String, n: usize)
    ensures
        final(out)@ == old(out)@ + decimal(n as nat),
    decreases n,
{
    if n < 10 {
        out.append(digit_str(n));
    } else {
        push_decimal(out, n / 10);
        out.append(digit_str(n % 10));
        assert(final(out)@ =~= old(out)@ + decimal(n as nat));
    }
}

/// The names that an element type refers to are identifiers.
pub open spec fn element_wf(e: ElementType) -> bool {
    match e {
        ElementType::Nested { package, name } => is_ident(package@) && is_ident(name@),
        ElementType::Sibling(name) => is_ident(name@),
        _ => true,
    }
}

pub open spec fn element_of(t: FieldType) -> ElementType {
    match t {
        FieldType::Single(e) => e,
        FieldType::Array(e, _) => e,
        FieldType::Bounded(e, _) => e,
        FieldType::Unbounded(e) => e,
    }
}

/// The first naming rule that an element type breaks, if any.
pub open spec fn element_verdict(e: ElementType) -> Option<NameError> {
    match e {
        ElementType::Nested { package, name } => if plain_name_verdict(package@) is Some {
            plain_name_verdict(package@)
        } else {
            plain_name_verdict(name@)
        },
        ElementType::Sibling(name) => plain_name_verdict(name@),
        _ => None,
    }
}

pub open spec fn field_wf(f: Field) -> bool {
    is_ident(f.name@) && element_wf(element_of(f.ty))
}

pub open spec fn constant_wf(c: Constant) -> bool {
    is_ident(c.name@)
}

/// The first naming rule that a field with this name and type breaks, if any.
pub open spec fn field_verdict(name: Seq<char>, ty: FieldType) -> Option<NameError> {
    if plain_name_verdict(name) is Some {
        plain_name_verdict(name)
    } else {
        element_verdict(element_of(ty))
    }
}

/// The Rust type of one element in the native layer.
pub open spec fn native_element(e: ElementType, prefix: Seq<char>) -> Seq<char> {
    match e {
        ElementType::Primitive(p) => prim_name(p),
        ElementType::Text => "String"@,
        ElementType::Nested { package, name } => "crate::"@ + package@ + "::msg::"@ + name@,
        ElementType::Sibling(name) => prefix + name@,
    }
}

/// The Rust type of one element in the interop layer: strings become slices
/// of bytes, and messages their interop structs.
pub open spec fn interop_element(e: ElementType, prefix: Seq<char>, slice: Seq<char>) -> Seq<
    char,
> {
    match e {
        ElementType::Primitive(p) => prim_name(p),
        ElementType::Text => slice + "<u8>"@,
        ElementType::Nested { package, name } => "crate::"@ + package@ + "::msg::"@ + name@
            + "Ffi"@,
        ElementType::Sibling(name) => prefix + name@ + "Ffi"@,
    }
}

/// The Rust type of a field in the native layer: arrays stay arrays, and
/// sequences become vectors.
pub open spec fn native_type(t: FieldType, prefix: Seq<char>) -> Seq<char> {
    match t {
        FieldType::Single(e) => native_element(e, prefix),
        FieldType::Array(e, n) => "["@ + native_element(e, prefix) + "; "@ + decimal(n as nat)
            + "]"@,
        FieldType::Bounded(e, _) => "Vec<"@ + native_element(e, prefix) + ">"@,
        FieldType::Unbounded(e) => "Vec<"@ + native_element(e, prefix) + ">"@,
    }
}

/// The Rust type of a field in the interop layer: arrays stay arrays, and
/// sequences become a pointer and a length (`slice`).
pub open spec fn interop_type(t: FieldType, prefix: Seq<char>, slice: Seq<char>) -> Seq<char> {
    match t {
        FieldType::Single(e) => interop_element(e, prefix, slice),
        FieldType::Array(e, n) => "["@ + interop_element(e, prefix, slice) + "; "@ + decimal(
            n as nat,
        ) + "]"@,
        FieldType::Bounded(e, _) => slice + "<"@ + interop_element(e, prefix, slice) + ">"@,
        FieldType::Unbounded(e) => slice + "<"@ + interop_element(e, prefix, slice) + ">"@,
    }
}

fn validate_element(e: &ElementType) -> (r: Result<(), NameError>)
    ensures
        r is Ok <==> element_verdict(*e) is None,
        r matches Err(x) ==> element_verdict(*e) == Some(x),
{
    match e {
        ElementType::Nested { package, name } => {
            validate_plain_name(package.as_str())?;
            validate_plain_name(name.as_str())
        },
        ElementType::Sibling(name) => validate_plain_name(name.as_str()),
        _ => Ok(()),
    }
}

fn element_ref(t: &FieldType) -> (r: &ElementType)
    ensures
        *r == element_of(*t),
{
    match t {
        FieldType::Single(e) => e,
        FieldType::Array(e, _) => e,
        FieldType::Bounded(e, _) => e,
        FieldType::Unbounded(e) => e,
    }
}

impl Field {
    /// A field, once its name and the names its type refers to are checked:
    /// each must be free of `/` and ASCII.
    pub fn new(name: String, ty: FieldType) -> (r: Result<Field, NameError>)
        ensures
            r is Ok <==> field_verdict(name@, ty) is None,
            r matches Err(e) ==> field_verdict(name@, ty) == Some(e),
            r matches Ok(f) ==> f.name@ == name@ && f.ty == ty && (is_ident(name@) && element_wf(
                element_of(ty),
            ) ==> field_wf(f)),
    {
        validate_plain_name(name.as_str())?;
        validate_element(element_ref(&ty))?;
        Ok(Field { name, ty })
    }
}

impl Constant {
    /// A constant, once its name is checked (free of `/`, ASCII); `value` is
    /// kept as written.
    pub fn new(name: String, ty: Primitive, value: String) -> (r: Result<Constant, NameError>)
        ensures
            r is Ok <==> plain_name_verdict(name@) is None,
            r matches Err(e) ==> plain_name_verdict(name@) == Some(e),
            r matches Ok(c) ==> c.name@ == name@ && c.ty == ty && c.value@ == value@ && (is_ident(
                name@,
            ) ==> constant_wf(c)),
    {
        validate_plain_name(name.as_str())?;
        Ok(Constant { name, ty, value })
    }
}

fn push_native_element(out: &mut String, e: &ElementType, prefix: &str)
    ensures
        final(out)@ == old(out)@ + native_element(*e, prefix@),
{
    match e {
        ElementType::Primitive(p) => out.append(prim_str(*p)),
        ElementType::Text => out.append("String"),
        ElementType::Nested { package, name } => {
            out.append("crate::");
            out.append(package.as_str());
            out.append("::msg::");
            out.append(name.as_str());
        },
        ElementType::Sibling(name) => {
            out.append(prefix);
            out.append(name.as_str());
        },
    }
    assert(final(out)@ =~= old(out)@ + native_element(*e, prefix@));
}

fn push_interop_element(out: &mut String, e: &ElementType, prefix: &str, slice: &str)
    ensures
        final(out)@ == old(out)@ + interop_element(*e, prefix@, slice@),
{
    match e {
        ElementType::Primitive(p) => out.append(prim_str(*p)),
        ElementType::Text => {
            out.append(slice);
            out.append("<u8>");
        },
        ElementType::Nested { package, name } => {
            out.append("crate::");
            out.append(package.as_str());
            out.append("::msg::");
            out.append(name.as_str());
            out.append("Ffi");
        },
        ElementType::Sibling(name) => {
            out.append(prefix);
            out.append(name.as_str());
            out.append("Ffi");
        },
    }
    assert(final(out)@ =~= old(out)@ + interop_element(*e, prefix@, slice@));
}

/// Appends the native Rust type of a field.
pub fn push_native_type(out: &mut String, t: &FieldType, prefix: &str)
    ensures
        final(out)@ == old(out)@ + native_type(*t, prefix@),
{
    match t {
        FieldType::Single(e) => push_native_element(out, e, prefix),
        FieldType::Array(e, n) => {
            out.append("[");
            push_native_element(out, e, prefix);
            out.append("; ");
            push_decimal(out, *n);
            out.append("]");
        },
        FieldType::Bounded(e, _) => {
            out.append("Vec<");
            push_native_element(out, e, prefix);
            out.append(">");
        },
        FieldType::Unbounded(e) => {
            out.append("Vec<");
            push_native_element(out, e, prefix);
            out.append(">");
        },
    }
    assert(final(out)@ =~= old(out)@ + native_type(*t, prefix@));
}

/// Appends the interop Rust type of a field.
pub fn push_interop_type(out: &mut String, t: &FieldType, prefix: &str, slice: &str)
    ensures
        final(out)@ == old(out)@ + interop_type(*t, prefix@, slice@),
{
    match t {
        FieldType::Single(e) => push_interop_element(out, e, prefix, slice),
        FieldType::Array(e, n) => {
            out.append("[");
            push_interop_element(out, e, prefix, slice);
            out.append("; ");
            push_decimal(out, *n);
            out.append("]");
        },
        FieldType::Bounded(e, _) => {
            out.append(slice);
            out.append("<");
            push_interop_element(out, e, prefix, slice);
            out.append(">");
        },
        FieldType::Unbounded(e) => {
            out.append(slice);
            out.append("<");
            push_interop_element(out, e, prefix, slice);
            out.append(">");
        },
    }
    assert(final(out)@ =~= old(out)@ + interop_type(*t, prefix@, slice@));
}

} // verus!
