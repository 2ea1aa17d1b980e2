//! The type-mapping engine: the spelling of a field type in each target
//! language.

use vstd::prelude::*;
use vstd::string::*;
use crate::literal::parse_int_literal;
use crate::shape::{
    array_len_error, array_len_value, classify_path, list_length_error, path_shape, ArrayLen,
    LengthError, Shape, TypeExpr,
};
use crate::text::{decimal_string, decimal_text, same_text};

verus! {

/// A language into which field types are mapped.
#[derive(Clone, Copy, Debug, PartialEq, Eq, Structural)]
pub enum Language {
    Go,
    Python,
    TypeScript,
    Java,
    CSharp,
}

/// The TypeScript spelling of the primitive type `name`; `name` itself where the table
/// has no entry for it.
pub open spec fn typescript_primitive(name: Seq<char>) -> Seq<char> {
    if name == "i32"@ || name == "u32"@ || name == "i64"@ || name == "u64"@ || name == "f32"@
        || name == "f64"@ {
        "number"@
    } else if name == "bool"@ {
        "boolean"@
    } else if name == "String"@ || name == "char"@ {
        "string"@
    } else {
        name
    }
}

fn typescript_primitive_name(name: &str) -> (r: String)
    ensures
        r@ == typescript_primitive(name@),
{
    if same_text(name, "i32") || same_text(name, "u32") || same_text(name, "i64")
        || same_text(name, "u64") || same_text(name, "f32") || same_text(name, "f64") {
        String::from_str("number")
    } else if same_text(name, "bool") {
        String::from_str("boolean")
    } else if same_text(name, "String") || same_text(name, "char") {
        String::from_str("string")
    } else {
        String::from_str(name)
    }
}

/// The Python spelling of the primitive type `name`; `name` itself where the table
/// has no entry for it.
pub open spec fn python_primitive(name: Seq<char>) -> Seq<char> {
    if name == "i32"@ || name == "u32"@ || name == "i64"@ || name == "u64"@ {
        "int"@
    } else if name == "f32"@ || name == "f64"@ {
        "float"@
    } else if name == "bool"@ {
        "bool"@
    } else if name == "String"@ || name == "char"@ {
        "str"@
    } else {
        name
    }
}

fn python_primitive_name(name: &str) -> (r: String)
    ensures
        r@ == python_primitive(name@),
{
    if same_text(name, "i32") || same_text(name, "u32") || same_text(name, "i64")
        || same_text(name, "u64") {
        String::from_str("int")
    } else if same_text(name, "f32") || same_text(name, "f64") {
        String::from_str("float")
    } else if same_text(name, "bool") {
        String::from_str("bool")
    } else if same_text(name, "String") || same_text(name, "char") {
        String::from_str("str")
    } else {
        String::from_str(name)
    }
}

/// The Go spelling of the primitive type `name`; `name` itself where the table
/// has no entry for it.
pub open spec fn go_primitive(name: Seq<char>) -> Seq<char> {
    if name == "i8"@ {
        "int8"@
    } else if name == "u8"@ {
        "uint8"@
    } else if name == "i16"@ {
        "int16"@
    } else if name == "u16"@ {
        "uint16"@
    } else if name == "i32"@ {
        "int32"@
    } else if name == "u32"@ {
        "uint32"@
    } else if name == "i64"@ {
        "int64"@
    } else if name == "u64"@ {
        "uint64"@
    } else if name == "i128"@ || name == "u128"@ {
        "big.Int"@
    } else if name == "f32"@ {
        "float32"@
    } else if name == "f64"@ {
        "float64"@
    } else if name == "bool"@ {
        "bool"@
    } else if name == "String"@ || name == "&str"@ {
        "string"@
    } else if name == "char"@ {
        "rune"@
    } else {
        name
    }
}

fn go_primitive_name(name: &str) -> (r: String)
    ensures
        r@ == go_primitive(name@),
{
    if same_text(name, "i8") {
        String::from_str("int8")
    } else if same_text(name, "u8") {
        String::from_str("uint8")
    } else if same_text(name, "i16") {
        String::from_str("int16")
    } else if same_text(name, "u16") {
        String::from_str("uint16")
    } else if same_text(name, "i32") {
        String::from_str("int32")
    } else if same_text(name, "u32") {
        String::from_str("uint32")
    } else if same_text(name, "i64") {
        String::from_str("int64")
    } else if same_text(name, "u64") {
        String::from_str("uint64")
    } else if same_text(name, "i128") || same_text(name, "u128") {
        String::from_str("big.Int")
    } else if same_text(name, "f32") {
        String::from_str("float32")
    } else if same_text(name, "f64") {
        String::from_str("float64")
    } else if same_text(name, "bool") {
        String::from_str("bool")
    } else if same_text(name, "String") || same_text(name, "&str") {
        String::from_str("string")
    } else if same_text(name, "char") {
        String::from_str("rune")
    } else {
        String::from_str(name)
    }
}

/// The Java spelling of the primitive type `name`; `name` itself where the table
/// has no entry for it.
pub open spec fn java_primitive(name: Seq<char>) -> Seq<char> {
    if name == "i8"@ {
        "byte"@
    } else if name == "u8"@ || name == "i16"@ {
        "short"@
    } else if name == "u16"@ || name == "i32"@ {
        "int"@
    } else if name == "u32"@ || name == "i64"@ || name == "u64"@ {
        "long"@
    } else if name == "i128"@ || name == "u128"@ {
        "BigInteger"@
    } else if name == "f32"@ {
        "float"@
    } else if name == "f64"@ {
        "double"@
    } else if name == "bool"@ {
        "boolean"@
    } else if name == "String"@ {
        "String"@
    } else if name == "char"@ {
        "char"@
    } else {
        name
    }
}

fn java_primitive_name(name: &str) -> (r: String)
    ensures
        r@ == java_primitive(name@),
{
    if same_text(name, "i8") {
        String::from_str("byte")
    } else if same_text(name, "u8") || same_text(name, "i16") {
        String::from_str("short")
    } else if same_text(name, "u16") || same_text(name, "i32") {
        String::from_str("int")
    } else if same_text(name, "u32") || same_text(name, "i64") || same_text(name, "u64") {
        String::from_str("long")
    } else if same_text(name, "i128") || same_text(name, "u128") {
        String::from_str("BigInteger")
    } else if same_text(name, "f32") {
        String::from_str("float")
    } else if same_text(name, "f64") {
        String::from_str("double")
    } else if same_text(name, "bool") {
        String::from_str("boolean")
    } else if same_text(name, "String") {
        String::from_str("String")
    } else if same_text(name, "char") {
        String::from_str("char")
    } else {
        String::from_str(name)
    }
}

/// The C# spelling of the primitive type `name`; `name` itself where the table
/// has no entry for it.
pub open spec fn csharp_primitive(name: Seq<char>) -> Seq<char> {
    if name == "i8"@ {
        "sbyte"@
    } else if name == "u8"@ {
        "byte"@
    } else if name == "i16"@ {
        "short"@
    } else if name == "u16"@ {
        "ushort"@
    } else if name == "i32"@ {
        "int"@
    } else if name == "u32"@ {
        "uint"@
    } else if name == "i64"@ {
        "long"@
    } else if name == "u64"@ {
        "ulong"@
    } else if name == "i128"@ || name == "u128"@ {
        "BigInteger"@
    } else if name == "f32"@ {
        "float"@
    } else if name == "f64"@ {
        "double"@
    } else if name == "bool"@ {
        "bool"@
    } else if name == "String"@ {
        "string"@
    } else if name == "char"@ {
        "char"@
    } else {
        name
    }
}

fn csharp_primitive_name(name: &str) -> (r: String)
    ensures
        r@ == csharp_primitive(name@),
{
    if same_text(name, "i8") {
        String::from_str("sbyte")
    } else if same_text(name, "u8") {
        String::from_str("byte")
    } else if same_text(name, "i16") {
        String::from_str("short")
    } else if same_text(name, "u16") {
        String::from_str("ushort")
    } else if same_text(name, "i32") {
        String::from_str("int")
    } else if same_text(name, "u32") {
        String::from_str("uint")
    } else if same_text(name, "i64") {
        String::from_str("long")
    } else if same_text(name, "u64") {
        String::from_str("ulong")
    } else if same_text(name, "i128") || same_text(name, "u128") {
        String::from_str("BigInteger")
    } else if same_text(name, "f32") {
        String::from_str("float")
    } else if same_text(name, "f64") {
        String::from_str("double")
    } else if same_text(name, "bool") {
        String::from_str("bool")
    } else if same_text(name, "String") {
        String::from_str("string")
    } else if same_text(name, "char") {
        String::from_str("char")
    } else {
        String::from_str(name)
    }
}

/// The Java class that boxes the primitive type `inner`; `inner` itself where
/// it is not one of the eight Java primitives.
pub open spec fn java_wrapper_class(inner: Seq<char>) -> Seq<char> {
    if inner == "byte"@ {
        "Byte"@
    } else if inner == "short"@ {
        "Short"@
    } else if inner == "int"@ {
        "Integer"@
    } else if inner == "long"@ {
        "Long"@
    } else if inner == "float"@ {
        "Float"@
    } else if inner == "double"@ {
        "Double"@
    } else if inner == "char"@ {
        "Character"@
    } else if inner == "boolean"@ {
        "Boolean"@
    } else {
        inner
    }
}

/// Boxes a Java primitive type name; leaves any other text as it is.
pub fn convert_java_primitive_type_to_wrapper_class(inner_type: &str) -> (r: String)
    ensures
        r@ == java_wrapper_class(inner_type@),
{
    if same_text(inner_type, "byte") {
        String::from_str("Byte")
    } else if same_text(inner_type, "short") {
        String::from_str("Short")
    } else if same_text(inner_type, "int") {
        String::from_str("Integer")
    } else if same_text(inner_type, "long") {
        String::from_str("Long")
    } else if same_text(inner_type, "float") {
        String::from_str("Float")
    } else if same_text(inner_type, "double") {
        String::from_str("Double")
    } else if same_text(inner_type, "char") {
        String::from_str("Character")
    } else if same_text(inner_type, "boolean") {
        String::from_str("Boolean")
    } else {
        String::from_str(inner_type)
    }
}

/// The spelling of the primitive type `name` in `lang`.
pub open spec fn primitive_spelling(lang: Language, name: Seq<char>) -> Seq<char> {
    match lang {
        Language::Go => go_primitive(name),
        Language::Python => python_primitive(name),
        Language::TypeScript => typescript_primitive(name),
        Language::Java => java_primitive(name),
        Language::CSharp => csharp_primitive(name),
    }
}

/// What stands for `Option` written without an argument.
pub open spec fn unknown_marker(lang: Language) -> Seq<char> {
    match lang {
        Language::Java => "Object"@,
        Language::CSharp => "Object"@,
        _ => "any"@,
    }
}

/// What stands for `Vec` written without an argument.
pub open spec fn unknown_sequence_marker(lang: Language) -> Seq<char> {
    match lang {
        Language::Java => "List<Object>"@,
        Language::CSharp => "List<Object>"@,
        _ => "any[]"@,
    }
}

/// An optional value whose type is spelled `inner`. Nested optionals are not
/// merged: every layer adds its own mark, but in Java, where boxing a name
/// that is already boxed changes nothing.
pub open spec fn optional_of(lang: Language, inner: Seq<char>) -> Seq<char> {
    match lang {
        Language::Go => "*"@ + inner,
        Language::Python => "Optional["@ + inner + "]"@,
        Language::TypeScript => inner + " | null"@,
        Language::Java => java_wrapper_class(inner),
        Language::CSharp => inner + "?"@,
    }
}

/// A sequence of items whose type is spelled `inner`.
pub open spec fn sequence_of(lang: Language, inner: Seq<char>) -> Seq<char> {
    match lang {
        Language::Go => "[]"@ + inner,
        Language::Python => "List["@ + inner + "]"@,
        Language::TypeScript => inner + "[]"@,
        Language::Java => "List<"@ + java_wrapper_class(inner) + ">"@,
        Language::CSharp => "List<"@ + inner + ">"@,
    }
}

/// An array of `n` items whose type is spelled `inner`. Only Go keeps `n`;
/// every other language shows the array as a sequence of the same items.
pub open spec fn array_of(lang: Language, inner: Seq<char>, n: nat) -> Seq<char> {
    match lang {
        Language::Go => "["@ + decimal_text(n) + "]"@ + inner,
        _ => sequence_of(lang, inner),
    }
}

/// What Go shows in place of a tuple, up to the list of the element types.
pub open spec fn go_tuple_marker() -> Seq<char> {
    "struct{} // CANNOT CONVERT THIS TO THE GO PROGRAMMING LANGUAGE. \
     TUPLES ARE UNSUPPORTED BY GO: ("@
}

/// A tuple whose element types, already joined, are spelled `joined`.
pub open spec fn tuple_of(lang: Language, joined: Seq<char>) -> Seq<char> {
    match lang {
        Language::Go => go_tuple_marker() + joined + ")"@,
        Language::Python => "Tuple["@ + joined + "]"@,
        Language::TypeScript => "["@ + joined + "]"@,
        Language::Java => "Tuple<"@ + joined + ">"@,
        Language::CSharp => "("@ + joined + ")"@,
    }
}

/// One element type of a tuple, spelled `inner` on its own: Java boxes it.
pub open spec fn tuple_item(lang: Language, inner: Seq<char>) -> Seq<char> {
    match lang {
        Language::Java => java_wrapper_class(inner),
        _ => inner,
    }
}

/// The spelling of the type `t` in `lang`.
pub open spec fn type_text(lang: Language, t: TypeExpr) -> Seq<char>
    decreases t,
{
    match t {
        TypeExpr::Path { name, arg } => match path_shape(name@) {
            Shape::Optional => match arg {
                Some(inner) => optional_of(lang, type_text(lang, *inner)),
                None => unknown_marker(lang),
            },
            Shape::Sequence => match arg {
                Some(inner) => sequence_of(lang, type_text(lang, *inner)),
                None => unknown_sequence_marker(lang),
            },
            Shape::Primitive => primitive_spelling(lang, name@),
            _ => name@,
        },
        TypeExpr::Array { elem, len } => array_of(
            lang,
            type_text(lang, *elem),
            array_len_value(len),
        ),
        TypeExpr::Tuple { elems } => tuple_of(lang, list_text(lang, elems@)),
        TypeExpr::Other => unknown_marker(lang),
    }
}

/// The spellings of the types of `list` in `lang`, in order, joined by `", "`.
pub open spec fn list_text(lang: Language, list: Seq<TypeExpr>) -> Seq<char>
    decreases list,
{
    if list.len() == 0 {
        Seq::empty()
    } else if list.len() == 1 {
        tuple_item(lang, type_text(lang, list[0]))
    } else {
        list_text(lang, list.drop_last()) + ", "@ + tuple_item(
            lang,
            type_text(lang, list.last()),
        )
    }
}

/// The fault that stops the rendering of `t` in `lang`, if any: only Go reads
/// array lengths.
pub open spec fn render_error(lang: Language, t: TypeExpr) -> Option<LengthError> {
    if lang == Language::Go {
        t.length_error()
    } else {
        None
    }
}

/// Whether `r` is the outcome of rendering `t` in `lang`: the fault where
/// there is one, else the spelling.
pub open spec fn renders_as(lang: Language, t: TypeExpr, r: Result<String, LengthError>) -> bool {
    match r {
        Ok(s) => render_error(lang, t) is None && s@ == type_text(lang, t),
        Err(e) => render_error(lang, t) == Some(e),
    }
}

fn prefixed(prefix: &str, body: &str) -> (r: String)
    ensures
        r@ == prefix@ + body@,
{
    let mut s = String::from_str(prefix);
    s.append(body);
    s
}

fn enclosed(prefix: &str, body: &str, suffix: &str) -> (r: String)
    ensures
        r@ == prefix@ + body@ + suffix@,
{
    let mut s = String::from_str(prefix);
    s.append(body);
    s.append(suffix);
    s
}

fn primitive_name(lang: Language, name: &str) -> (r: String)
    ensures
        r@ == primitive_spelling(lang, name@),
{
    match lang {
        Language::Go => go_primitive_name(name),
        Language::Python => python_primitive_name(name),
        Language::TypeScript => typescript_primitive_name(name),
        Language::Java => java_primitive_name(name),
        Language::CSharp => csharp_primitive_name(name),
    }
}

fn unknown_name(lang: Language) -> (r: String)
    ensures
        r@ == unknown_marker(lang),
{
    match lang {
        Language::Java => String::from_str("Object"),
        Language::CSharp => String::from_str("Object"),
        _ => String::from_str("any"),
    }
}

fn unknown_sequence_name(lang: Language) -> (r: String)
    ensures
        r@ == unknown_sequence_marker(lang),
{
    match lang {
        Language::Java => String::from_str("List<Object>"),
        Language::CSharp => String::from_str("List<Object>"),
        _ => String::from_str("any[]"),
    }
}

/// Spells an optional value whose type is spelled `inner`.
pub fn optional_type(lang: Language, inner: &str) -> (r: String)
    ensures
        r@ == optional_of(lang, inner@),
{
    match lang {
        Language::Go => prefixed("*", inner),
        Language::Python => enclosed("Optional[", inner, "]"),
        Language::TypeScript => prefixed(inner, " | null"),
        Language::Java => convert_java_primitive_type_to_wrapper_class(inner),
        Language::CSharp => prefixed(inner, "?"),
    }
}

/// Spells a sequence of items whose type is spelled `inner`.
pub fn sequence_type(lang: Language, inner: &str) -> (r: String)
    ensures
        r@ == sequence_of(lang, inner@),
{
    match lang {
        Language::Go => prefixed("[]", inner),
        Language::Python => enclosed("List[", inner, "]"),
        Language::TypeScript => prefixed(inner, "[]"),
        Language::Java => {
            let boxed = convert_java_primitive_type_to_wrapper_class(inner);
            enclosed("List<", boxed.as_str(), ">")
        },
        Language::CSharp => enclosed("List<", inner, ">"),
    }
}

/// Spells an array of `n` items whose type is spelled `inner`.
pub fn array_type(lang: Language, inner: &str, n: usize) -> (r: String)
    ensures
        r@ == array_of(lang, inner@, n as nat),
{
    match lang {
        Language::Go => {
            let digits = decimal_string(n);
            let mut s = enclosed("[", digits.as_str(), "]");
            s.append(inner);
            s
        },
        _ => sequence_type(lang, inner),
    }
}

/// Spells a tuple whose element types, already joined, are spelled `joined`.
pub fn tuple_type(lang: Language, joined: &str) -> (r: String)
    ensures
        r@ == tuple_of(lang, joined@),
{
    match lang {
        Language::Go => enclosed(
            "struct{} // CANNOT CONVERT THIS TO THE GO PROGRAMMING LANGUAGE. \
             TUPLES ARE UNSUPPORTED BY GO: (",
            joined,
            ")",
        ),
        Language::Python => enclosed("Tuple[", joined, "]"),
        Language::TypeScript => enclosed("[", joined, "]"),
        Language::Java => enclosed("Tuple<", joined, ">"),
        Language::CSharp => enclosed("(", joined, ")"),
    }
}

fn tuple_item_name(lang: Language, inner: String) -> (r: String)
    ensures
        r@ == tuple_item(lang, inner@),
{
    match lang {
        Language::Java => convert_java_primitive_type_to_wrapper_class(inner.as_str()),
        _ => inner,
    }
}

/// The length that the value of an integer literal gives: the value itself,
/// or the fault of a literal that has none.
pub fn literal_length(value: Option<usize>) -> (r: Result<usize, LengthError>)
    ensures
        r == match value {
            Some(n) => Ok::<usize, LengthError>(n),
            None => Err::<usize, LengthError>(LengthError::Unreadable),
        },
{
    match value {
        Some(n) => Ok(n),
        None => Err(LengthError::Unreadable),
    }
}

/// Reads the length of a fixed array.
pub fn array_length(len: &ArrayLen) -> (r: Result<usize, LengthError>)
    ensures
        match r {
            Ok(n) => array_len_error(*len) is None && n as nat == array_len_value(*len),
            Err(e) => array_len_error(*len) == Some(e),
        },
{
    match len {
        ArrayLen::IntLiteral(text) => literal_length(parse_int_literal(text.as_str())),
        ArrayLen::OtherLiteral => Err(LengthError::NotInteger),
        ArrayLen::NotLiteral => Err(LengthError::NotLiteral),
    }
}

/// Spells the type `ty` in `lang`. Fails only in Go, and only where an array
/// length that the spelling needs has a fault.
pub fn render_type(lang: Language, ty: &TypeExpr) -> (r: Result<String, LengthError>)
    ensures
        renders_as(lang, *ty, r),
    decreases ty,
{
    match ty {
        TypeExpr::Path { name, arg } => {
            let shape = classify_path(name.as_str());
            match shape {
                Shape::Optional => match arg {
                    Some(inner) => match render_type(lang, inner) {
                        Ok(s) => Ok(optional_type(lang, s.as_str())),
                        Err(e) => Err(e),
                    },
                    None => Ok(unknown_name(lang)),
                },
                Shape::Sequence => match arg {
                    Some(inner) => match render_type(lang, inner) {
                        Ok(s) => Ok(sequence_type(lang, s.as_str())),
                        Err(e) => Err(e),
                    },
                    None => Ok(unknown_sequence_name(lang)),
                },
                Shape::Primitive => Ok(primitive_name(lang, name.as_str())),
                _ => Ok(String::from_str(name.as_str())),
            }
        },
        TypeExpr::Array { elem, len } => {
            let inner = match render_type(lang, elem) {
                Ok(s) => s,
                Err(e) => {
                    return Err(e);
                },
            };
            match lang {
                Language::Go => match array_length(len) {
                    Ok(n) => Ok(array_type(lang, inner.as_str(), n)),
                    Err(e) => Err(e),
                },
                _ => Ok(array_type(lang, inner.as_str(), 0)),
            }
        },
        TypeExpr::Tuple { elems } => {
            let mut joined = String::new();
            let mut i: usize = 0;
            while i < elems.len()
                invariant
                    i <= elems.len(),
                    *ty == (TypeExpr::Tuple { elems: *elems }),
                    joined@ == list_text(lang, elems@.take(i as int)),
                    lang == Language::Go ==> list_length_error(elems@.take(i as int)) is None,
                decreases elems.len() - i,
            {
                proof {
                    assert(elems@.take(i + 1).drop_last() =~= elems@.take(i as int));
                    assert(elems@.take(i + 1).last() == elems@[i as int]);
                    vstd::std_specs::vec::axiom_vec_index_decreases(*elems, i as int);
                    assert(ty->elems == *elems);
                }
                let item = match render_type(lang, &elems[i]) {
                    Ok(s) => tuple_item_name(lang, s),
                    Err(e) => {
                        proof {
                            lemma_list_error_extends(elems@, i as int + 1);
                        }
                        return Err(e);
                    },
                };
                if i > 0 {
                    joined.append(", ");
                } else {
                    assert(joined@ + item@ =~= item@);
                }
                joined.append(item.as_str());
                i += 1;
            }
            proof {
                assert(elems@.take(elems.len() as int) =~= elems@);
            }
            Ok(tuple_type(lang, joined.as_str()))
        },
        TypeExpr::Other => Ok(unknown_name(lang)),
    }
}

/// A fault found in the first `n` types of `list` is the fault of the list.
pub proof fn lemma_list_error_extends(list: Seq<TypeExpr>, n: int)
    requires
        0 <= n <= list.len(),
        list_length_error(list.take(n)) is Some,
    ensures
        list_length_error(list) == list_length_error(list.take(n)),
    decreases list.len() - n,
{
    if n < list.len() {
        assert(list.take(n + 1).drop_last() =~= list.take(n));
        lemma_list_error_extends(list, n + 1);
    } else {
        assert(list.take(n) =~= list);
    }
}

/// Spells `ty` in TypeScript.
pub fn rust_type_to_ts_type(ty: &TypeExpr) -> (r: String)
    ensures
        r@ == type_text(Language::TypeScript, *ty),
{
    match render_type(Language::TypeScript, ty) {
        Ok(s) => s,
        Err(_) => vstd::pervasive::unreached(),
    }
}

/// Spells `ty` in Python.
pub fn rust_type_to_python_type(ty: &TypeExpr) -> (r: String)
    ensures
        r@ == type_text(Language::Python, *ty),
{
    match render_type(Language::Python, ty) {
        Ok(s) => s,
        Err(_) => vstd::pervasive::unreached(),
    }
}

/// Spells `ty` in Go. Fails exactly where an array length that the spelling
/// reads is no readable integer literal, with the first such fault.
pub fn rust_type_to_go_type(ty: &TypeExpr) -> (r: Result<String, LengthError>)
    ensures
        renders_as(Language::Go, *ty, r),
{
    render_type(Language::Go, ty)
}

/// Spells `ty` in Java.
pub fn rust_type_to_java_type(ty: &TypeExpr) -> (r: String)
    ensures
        r@ == type_text(Language::Java, *ty),
{
    match render_type(Language::Java, ty) {
        Ok(s) => s,
        Err(_) => vstd::pervasive::unreached(),
    }
}

/// Spells `ty` in C#.
pub fn rust_type_to_csharp_type(ty: &TypeExpr) -> (r: String)
    ensures
        r@ == type_text(Language::CSharp, *ty),
{
    match render_type(Language::CSharp, ty) {
        Ok(s) => s,
        Err(_) => vstd::pervasive::unreached(),
    }
}

} // verus!
