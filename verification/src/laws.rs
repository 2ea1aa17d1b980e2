//! What holds of the engine as a whole, proved from the definitions.

use vstd::prelude::*;
use crate::assemble::{
    field_fault, field_lines, field_type_text, first_fault, struct_text, StructStrings, Target,
};
use crate::render::{
    go_tuple_marker, list_text, primitive_spelling, render_error, renders_as, type_text,
    Language,
};
use crate::shape::{
    list_length_error, path_shape, ArrayLen, FieldDescriptor, LengthError, Shape,
    StructDescription, TypeExpr,
};
use crate::text::without_spaces;

verus! {

/// Rendering one type twice in one language gives the same outcome: both
/// calls fail with the same fault, or both give the same text.
pub proof fn lemma_type_rendering_is_deterministic(
    lang: Language,
    t: TypeExpr,
    a: Result<String, LengthError>,
    b: Result<String, LengthError>,
)
    requires
        renders_as(lang, t, a),
        renders_as(lang, t, b),
    ensures
        a is Ok <==> b is Ok,
        a is Ok ==> a->Ok_0@ == b->Ok_0@,
        a is Err ==> a->Err_0 == b->Err_0,
{
}

/// Rendering one struct twice gives the same block in every target, and
/// that block is a function of the description alone.
pub proof fn lemma_struct_rendering_is_deterministic(
    desc: StructDescription,
    a: StructStrings,
    b: StructStrings,
    target: Target,
)
    requires
        a.is_rendering_of(desc),
        b.is_rendering_of(desc),
    ensures
        a.text(target) == b.text(target),
        a.text(target) == struct_text(target, desc),
{
    assert(a.lines(target) == field_lines(target, desc.fields@));
    assert(b.lines(target) == field_lines(target, desc.fields@));
}

/// The field lines follow the order of the fields: the lines of a list of
/// fields are the lines of any front part of it, then those of the rest.
pub proof fn lemma_field_lines_follow_field_order(
    target: Target,
    front: Seq<FieldDescriptor>,
    rest: Seq<FieldDescriptor>,
)
    ensures
        field_lines(target, front + rest) == field_lines(target, front) + field_lines(
            target,
            rest,
        ),
    decreases rest.len(),
{
    if rest.len() == 0 {
        assert(front + rest =~= front);
        assert(field_lines(target, front) + field_lines(target, rest) =~= field_lines(
            target,
            front,
        ));
    } else {
        assert((front + rest).drop_last() =~= front + rest.drop_last());
        assert((front + rest).last() == rest.last());
        lemma_field_lines_follow_field_order(target, front, rest.drop_last());
        assert(field_lines(target, front + rest) =~= field_lines(target, front) + field_lines(
            target,
            rest,
        ));
    }
}

/// The table of the primitive types: a signed 32-bit integer, an unsigned
/// 64-bit integer, a 64-bit float, a boolean, an owned string and a
/// character are primitives, spelled in each language as listed here.
pub proof fn lemma_primitive_table()
    ensures
        path_shape("i32"@) == Shape::Primitive,
        primitive_spelling(Language::Go, "i32"@) == "int32"@,
        primitive_spelling(Language::Python, "i32"@) == "int"@,
        primitive_spelling(Language::TypeScript, "i32"@) == "number"@,
        primitive_spelling(Language::Java, "i32"@) == "int"@,
        primitive_spelling(Language::CSharp, "i32"@) == "int"@,
        path_shape("u64"@) == Shape::Primitive,
        primitive_spelling(Language::Go, "u64"@) == "uint64"@,
        primitive_spelling(Language::Python, "u64"@) == "int"@,
        primitive_spelling(Language::TypeScript, "u64"@) == "number"@,
        primitive_spelling(Language::Java, "u64"@) == "long"@,
        primitive_spelling(Language::CSharp, "u64"@) == "ulong"@,
        path_shape("f64"@) == Shape::Primitive,
        primitive_spelling(Language::Go, "f64"@) == "float64"@,
        primitive_spelling(Language::Python, "f64"@) == "float"@,
        primitive_spelling(Language::TypeScript, "f64"@) == "number"@,
        primitive_spelling(Language::Java, "f64"@) == "double"@,
        primitive_spelling(Language::CSharp, "f64"@) == "double"@,
        path_shape("bool"@) == Shape::Primitive,
        primitive_spelling(Language::Go, "bool"@) == "bool"@,
        primitive_spelling(Language::Python, "bool"@) == "bool"@,
        primitive_spelling(Language::TypeScript, "bool"@) == "boolean"@,
        primitive_spelling(Language::Java, "bool"@) == "boolean"@,
        primitive_spelling(Language::CSharp, "bool"@) == "bool"@,
        path_shape("String"@) == Shape::Primitive,
        primitive_spelling(Language::Go, "String"@) == "string"@,
        primitive_spelling(Language::Python, "String"@) == "str"@,
        primitive_spelling(Language::TypeScript, "String"@) == "string"@,
        primitive_spelling(Language::Java, "String"@) == "String"@,
        primitive_spelling(Language::CSharp, "String"@) == "string"@,
        path_shape("char"@) == Shape::Primitive,
        primitive_spelling(Language::Go, "char"@) == "rune"@,
        primitive_spelling(Language::Python, "char"@) == "str"@,
        primitive_spelling(Language::TypeScript, "char"@) == "string"@,
        primitive_spelling(Language::Java, "char"@) == "char"@,
        primitive_spelling(Language::CSharp, "char"@) == "char"@,
{
    lemma_known_names_differ();
}

/// The length and the first two characters of each type name that the
/// classifier knows: no two of the names agree in all three.
pub proof fn lemma_known_names_differ()
    ensures
        "Option"@.len() == 6 && "Option"@[0] == 'O' && "Option"@[1] == 'p',
        "Vec"@.len() == 3 && "Vec"@[0] == 'V' && "Vec"@[1] == 'e',
        "i8"@.len() == 2 && "i8"@[0] == 'i' && "i8"@[1] == '8',
        "u8"@.len() == 2 && "u8"@[0] == 'u' && "u8"@[1] == '8',
        "i16"@.len() == 3 && "i16"@[0] == 'i' && "i16"@[1] == '1',
        "u16"@.len() == 3 && "u16"@[0] == 'u' && "u16"@[1] == '1',
        "i32"@.len() == 3 && "i32"@[0] == 'i' && "i32"@[1] == '3',
        "u32"@.len() == 3 && "u32"@[0] == 'u' && "u32"@[1] == '3',
        "i64"@.len() == 3 && "i64"@[0] == 'i' && "i64"@[1] == '6',
        "u64"@.len() == 3 && "u64"@[0] == 'u' && "u64"@[1] == '6',
        "i128"@.len() == 4 && "i128"@[0] == 'i' && "i128"@[1] == '1',
        "u128"@.len() == 4 && "u128"@[0] == 'u' && "u128"@[1] == '1',
        "f32"@.len() == 3 && "f32"@[0] == 'f' && "f32"@[1] == '3',
        "f64"@.len() == 3 && "f64"@[0] == 'f' && "f64"@[1] == '6',
        "bool"@.len() == 4 && "bool"@[0] == 'b' && "bool"@[1] == 'o',
        "char"@.len() == 4 && "char"@[0] == 'c' && "char"@[1] == 'h',
        "String"@.len() == 6 && "String"@[0] == 'S' && "String"@[1] == 't',
        "&str"@.len() == 4 && "&str"@[0] == '&' && "&str"@[1] == 's',
{
    reveal_strlit("Option");
    reveal_strlit("Vec");
    reveal_strlit("i8");
    reveal_strlit("u8");
    reveal_strlit("i16");
    reveal_strlit("u16");
    reveal_strlit("i32");
    reveal_strlit("u32");
    reveal_strlit("i64");
    reveal_strlit("u64");
    reveal_strlit("i128");
    reveal_strlit("u128");
    reveal_strlit("f32");
    reveal_strlit("f64");
    reveal_strlit("bool");
    reveal_strlit("char");
    reveal_strlit("String");
    reveal_strlit("&str");
}

/// A fixed array reads as the sequence of the same items in every language
/// but Go: its length is not shown.
pub proof fn lemma_fixed_array_reads_as_sequence(
    lang: Language,
    elem: Box<TypeExpr>,
    len: ArrayLen,
    sequence_name: String,
)
    requires
        lang != Language::Go,
        sequence_name@ == "Vec"@,
    ensures
        type_text(lang, TypeExpr::Array { elem, len }) == type_text(
            lang,
            TypeExpr::Path { name: sequence_name, arg: Some(elem) },
        ),
        render_error(lang, TypeExpr::Array { elem, len }) is None,
{
    lemma_known_names_differ();
}

/// A tuple whose array lengths are all readable never fails in Go: its
/// spelling is the marker of non-support, then the element types as Go
/// spells them, in order, between round brackets.
pub proof fn lemma_go_tuple_degrades(elems: Vec<TypeExpr>)
    requires
        list_length_error(elems@) is None,
    ensures
        render_error(Language::Go, TypeExpr::Tuple { elems }) is None,
        type_text(Language::Go, TypeExpr::Tuple { elems }) == go_tuple_marker() + list_text(
            Language::Go,
            elems@,
        ) + ")"@,
        go_tuple_marker().is_prefix_of(type_text(Language::Go, TypeExpr::Tuple { elems })),
{
    let text = type_text(Language::Go, TypeExpr::Tuple { elems });
    assert(text.subrange(0, go_tuple_marker().len() as int) =~= go_tuple_marker());
}

/// A named type is spelled by its bare name in every language, whatever
/// stands between its angle brackets, and never fails.
pub proof fn lemma_named_type_is_unchanged(
    lang: Language,
    name: String,
    arg: Option<Box<TypeExpr>>,
)
    requires
        path_shape(name@) == Shape::Named,
    ensures
        type_text(lang, TypeExpr::Path { name, arg }) == name@,
        render_error(lang, TypeExpr::Path { name, arg }) is None,
{
}

/// Text without spaces is left as it is, so Rust shows a type that was
/// written without spaces unchanged.
pub proof fn lemma_spaceless_text_is_unchanged(s: Seq<char>)
    requires
        forall|i: int| 0 <= i < s.len() ==> s[i] != ' ',
    ensures
        without_spaces(s) == s,
    decreases s.len(),
{
    if s.len() > 0 {
        lemma_spaceless_text_is_unchanged(s.drop_last());
        assert(s.drop_last().push(s.last()) =~= s);
    }
}

/// The Rust line of a field shows its type as written where that holds no
/// space.
pub proof fn lemma_rust_shows_source_text(f: FieldDescriptor)
    requires
        forall|i: int| 0 <= i < f.type_text@.len() ==> f.type_text@[i] != ' ',
    ensures
        field_type_text(Target::Rust, f) == f.type_text@,
{
    lemma_spaceless_text_is_unchanged(f.type_text@);
}

/// The field that a fault names is one of the fields, and has that fault.
pub proof fn lemma_fault_position(fields: Seq<FieldDescriptor>)
    requires
        fields.len() <= usize::MAX,
        first_fault(fields) is Some,
    ensures
        first_fault(fields).unwrap().field < fields.len(),
        field_fault(fields[first_fault(fields).unwrap().field as int]) == Some(
            first_fault(fields).unwrap().fault,
        ),
    decreases fields.len(),
{
    if first_fault(fields.drop_last()) is Some {
        lemma_fault_position(fields.drop_last());
    }
}

/// A field with a fault makes the whole struct fail, at that field or at an
/// earlier one.
pub proof fn lemma_faulty_field_is_fatal(fields: Seq<FieldDescriptor>, i: int)
    requires
        0 <= i < fields.len() <= usize::MAX,
        field_fault(fields[i]) is Some,
    ensures
        first_fault(fields) is Some,
        first_fault(fields).unwrap().field <= i,
    decreases fields.len(),
{
    if i < fields.len() - 1 {
        lemma_faulty_field_is_fatal(fields.drop_last(), i);
    } else if first_fault(fields.drop_last()) is Some {
        lemma_fault_position(fields.drop_last());
    }
}

/// An array whose length is not a literal is fatal: no struct with such a
/// field is rendered.
pub proof fn lemma_non_literal_length_is_fatal(desc: StructDescription, i: int)
    requires
        0 <= i < desc.fields@.len(),
        desc.fields@[i].ty matches TypeExpr::Array { len, .. } && len is NotLiteral,
    ensures
        first_fault(desc.fields@) is Some,
        first_fault(desc.fields@).unwrap().field <= i,
{
    assert(desc.fields@.len() == desc.fields.len());
    lemma_faulty_field_is_fatal(desc.fields@, i);
}

} // verus!
