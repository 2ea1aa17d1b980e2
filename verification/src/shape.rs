//! The described struct, its field types, and the classifier of type shapes.

use vstd::prelude::*;
use crate::literal::int_literal_value;
use crate::text::same_text;

verus! {

/// The structural category of a type expression.
#[derive(Clone, Copy, Debug, PartialEq, Eq, Structural)]
pub enum Shape {
    /// A built-in scalar or string type.
    Primitive,
    /// `Option`: a value that may be absent.
    Optional,
    /// `Vec`: a homogeneous sequence of any length.
    Sequence,
    /// A bracketed array of fixed length.
    FixedArray,
    /// A parenthesized tuple.
    Tuple,
    /// Any other named type; it is spelled by its bare name everywhere.
    Named,
    /// A type that is neither a path, an array nor a tuple.
    Unsupported,
}

/// Why the length of a fixed array cannot be used.
#[derive(Clone, Copy, Debug, PartialEq, Eq, Structural)]
pub enum LengthError {
    /// The length is an expression other than a literal.
    NotLiteral,
    /// The length is a literal, but not an integer literal.
    NotInteger,
    /// The length is an integer literal whose value cannot be read as a `usize`.
    Unreadable,
}

/// The length expression of a fixed array.
#[derive(Debug)]
pub enum ArrayLen {
    /// An integer literal, as written (`3`, `16usize`, `0x10`).
    IntLiteral(String),
    /// A literal of another kind.
    OtherLiteral,
    /// Any expression that is not a literal.
    NotLiteral,
}

/// The declared type of a field.
#[derive(Debug)]
pub enum TypeExpr {
    /// A path type: the name of its last segment and, where that segment has
    /// angle brackets whose first argument is a type, that argument.
    Path { name: String, arg: Option<Box<TypeExpr>> },
    /// `[elem; len]`.
    Array { elem: Box<TypeExpr>, len: ArrayLen },
    /// `(elems.0, elems.1, ..)`.
    Tuple { elems: Vec<TypeExpr> },
    /// Anything else: a reference, a function pointer, a trait object, ...
    Other,
}

/// One field of the described struct.
#[derive(Debug)]
pub struct FieldDescriptor {
    /// The field's name; `None` for a field that has none.
    pub name: Option<String>,
    /// The field's type as written in the source.
    pub type_text: String,
    /// The field's type as a tree.
    pub ty: TypeExpr,
}

/// A struct's name and its fields in declaration order.
#[derive(Debug)]
pub struct StructDescription {
    pub name: String,
    pub fields: Vec<FieldDescriptor>,
}

/// Whether `name` is one of the primitive type names.
pub open spec fn is_primitive_name(name: Seq<char>) -> bool {
    name == "i8"@ || name == "u8"@ || name == "i16"@ || name == "u16"@ || name == "i32"@ || name
        == "u32"@ || name == "i64"@ || name == "u64"@ || name == "i128"@ || name == "u128"@
        || name == "f32"@ || name == "f64"@ || name == "bool"@ || name == "char"@ || name
        == "String"@ || name == "&str"@
}

/// The shape of a path type whose last segment is `name`.
pub open spec fn path_shape(name: Seq<char>) -> Shape {
    if name == "Option"@ {
        Shape::Optional
    } else if name == "Vec"@ {
        Shape::Sequence
    } else if is_primitive_name(name) {
        Shape::Primitive
    } else {
        Shape::Named
    }
}

/// The fault in a length expression, if it has one.
pub open spec fn array_len_error(len: ArrayLen) -> Option<LengthError> {
    match len {
        ArrayLen::IntLiteral(text) => if int_literal_value(text@) is Some {
            None
        } else {
            Some(LengthError::Unreadable)
        },
        ArrayLen::OtherLiteral => Some(LengthError::NotInteger),
        ArrayLen::NotLiteral => Some(LengthError::NotLiteral),
    }
}

/// The number that a length expression stands for (0 where it has a fault).
pub open spec fn array_len_value(len: ArrayLen) -> nat {
    match len {
        ArrayLen::IntLiteral(text) => match int_literal_value(text@) {
            Some(n) => n as nat,
            None => 0,
        },
        _ => 0,
    }
}

impl TypeExpr {
    /// The shape of this type.
    pub open spec fn shape_spec(self) -> Shape {
        match self {
            TypeExpr::Path { name, arg } => path_shape(name@),
            TypeExpr::Array { elem, len } => Shape::FixedArray,
            TypeExpr::Tuple { elems } => Shape::Tuple,
            TypeExpr::Other => Shape::Unsupported,
        }
    }

    /// The first fault among the array lengths that rendering reads, going
    /// through the type from left to right and from the inside out; `None`
    /// where every such length is a readable integer literal.
    pub open spec fn length_error(self) -> Option<LengthError>
        decreases self,
    {
        match self {
            TypeExpr::Path { name, arg } => match arg {
                Some(inner) => if path_shape(name@) == Shape::Optional || path_shape(name@)
                    == Shape::Sequence {
                    inner.length_error()
                } else {
                    None
                },
                None => None,
            },
            TypeExpr::Array { elem, len } => match elem.length_error() {
                Some(e) => Some(e),
                None => array_len_error(len),
            },
            TypeExpr::Tuple { elems } => list_length_error(elems@),
            TypeExpr::Other => None,
        }
    }

    /// Classifies this type. Never fails.
    pub fn shape(&self) -> (r: Shape)
        ensures
            r == self.shape_spec(),
    {
        match self {
            TypeExpr::Path { name, arg } => classify_path(name.as_str()),
            TypeExpr::Array { elem, len } => Shape::FixedArray,
            TypeExpr::Tuple { elems } => Shape::Tuple,
            TypeExpr::Other => Shape::Unsupported,
        }
    }

    /// Whether this is `Option`, with or without an argument.
    pub open spec fn is_optional(self) -> bool {
        self.shape_spec() == Shape::Optional
    }
}

/// The first fault among the types of `list`, from left to right.
pub open spec fn list_length_error(list: Seq<TypeExpr>) -> Option<LengthError>
    decreases list,
{
    if list.len() == 0 {
        None
    } else {
        match list_length_error(list.drop_last()) {
            Some(e) => Some(e),
            None => list.last().length_error(),
        }
    }
}

/// Classifies a path type by the name of its last segment.
pub fn classify_path(name: &str) -> (r: Shape)
    ensures
        r == path_shape(name@),
{
    if same_text(name, "Option") {
        Shape::Optional
    } else if same_text(name, "Vec") {
        Shape::Sequence
    } else if same_text(name, "i8") || same_text(name, "u8") || same_text(name, "i16")
        || same_text(name, "u16") || same_text(name, "i32") || same_text(name, "u32")
        || same_text(name, "i64") || same_text(name, "u64") || same_text(name, "i128")
        || same_text(name, "u128") || same_text(name, "f32") || same_text(name, "f64")
        || same_text(name, "bool") || same_text(name, "char") || same_text(name, "String")
        || same_text(name, "&str") {
        Shape::Primitive
    } else {
        Shape::Named
    }
}

} // verus!
