//! The aggregator: field lines in declaration order, and the block that each
//! target language wraps around them.

use vstd::prelude::*;
use vstd::string::*;
use crate::render::{
    rust_type_to_csharp_type, rust_type_to_go_type, rust_type_to_java_type,
    rust_type_to_python_type, rust_type_to_ts_type, type_text, Language,
};
use crate::shape::{FieldDescriptor, LengthError, Shape, StructDescription};
use crate::text::{
    comma_newline, decimal_string, decimal_text, remove_spaces, trim_end_matches,
    trim_trailing_separator, without_spaces,
};

verus! {

/// A language in which a whole struct is written out.
#[derive(Clone, Copy, Debug, PartialEq, Eq, Structural)]
pub enum Target {
    Rust,
    Go,
    Python,
    TypeScript,
    Java,
    CSharp,
}

/// What makes a field unusable.
#[derive(Clone, Copy, Debug, PartialEq, Eq, Structural)]
pub enum Fault {
    /// The field has no name.
    MissingName,
    /// An array length in the field's type cannot be used.
    Length(LengthError),
}

/// The first unusable field of a struct, by its position, and its fault.
#[derive(Clone, Copy, Debug, PartialEq, Eq, Structural)]
pub struct RenderError {
    pub field: usize,
    pub fault: Fault,
}

/// The field lines of one struct in the six targets, before they are wrapped.
#[derive(Debug)]
pub struct StructStrings {
    pub name: String,
    pub rust_fields: String,
    pub go_fields: String,
    pub python_fields: String,
    pub ts_fields: String,
    pub java_fields: String,
    pub csharp_fields: String,
}

/// What is said of a fault in an array length.
pub open spec fn length_error_text(e: LengthError) -> Seq<char> {
    match e {
        LengthError::NotLiteral => "Invalid array length expression: not a literal"@,
        LengthError::NotInteger => "Invalid array length expression: not an integer literal"@,
        LengthError::Unreadable => "Invalid array length expression: not readable as usize"@,
    }
}

/// What is said of a fault.
pub open spec fn fault_text(fault: Fault) -> Seq<char> {
    match fault {
        Fault::MissingName => "Field name not found"@,
        Fault::Length(e) => length_error_text(e),
    }
}

/// The message of `error`: its fault, then the position of the field,
/// counted from 0.
pub open spec fn message_text(error: RenderError) -> Seq<char> {
    fault_text(error.fault) + " (field "@ + decimal_text(error.field as nat) + ")"@
}

impl RenderError {
    /// Describes the failure and names the field at which it occurred.
    pub fn message(&self) -> (r: String)
        ensures
            r@ == message_text(*self),
    {
        let what = match self.fault {
            Fault::MissingName => "Field name not found",
            Fault::Length(e) => match e {
                LengthError::NotLiteral => "Invalid array length expression: not a literal",
                LengthError::NotInteger => "Invalid array length expression: not an integer literal",
                LengthError::Unreadable => "Invalid array length expression: not readable as usize",
            },
        };
        let mut res = String::from_str(what);
        res.append(" (field ");
        res.append(decimal_string(self.field).as_str());
        res.append(")");
        res
    }
}

/// The fault of the field `f`, if it has one. A missing name comes first.
pub open spec fn field_fault(f: FieldDescriptor) -> Option<Fault> {
    if f.name is None {
        Some(Fault::MissingName)
    } else {
        match f.ty.length_error() {
            Some(e) => Some(Fault::Length(e)),
            None => None,
        }
    }
}

/// The leftmost field of `fields` that has a fault, with that fault.
pub open spec fn first_fault(fields: Seq<FieldDescriptor>) -> Option<RenderError>
    decreases fields.len(),
{
    if fields.len() == 0 {
        None
    } else {
        match first_fault(fields.drop_last()) {
            Some(e) => Some(e),
            None => match field_fault(fields.last()) {
                Some(fault) => Some(RenderError { field: (fields.len() - 1) as usize, fault }),
                None => None,
            },
        }
    }
}

/// The name of the field `f` (empty where it has none).
pub open spec fn field_name(f: FieldDescriptor) -> Seq<char> {
    match f.name {
        Some(n) => n@,
        None => Seq::empty(),
    }
}

/// The name of `f` as TypeScript shows it: an optional field is marked `?`.
pub open spec fn ts_field_name(f: FieldDescriptor) -> Seq<char> {
    if f.ty.shape_spec() == Shape::Optional {
        field_name(f) + "?"@
    } else {
        field_name(f)
    }
}

/// The type of the field `f` as `target` spells it. Rust shows the type as
/// it was written, without its spaces.
pub open spec fn field_type_text(target: Target, f: FieldDescriptor) -> Seq<char> {
    match target {
        Target::Rust => without_spaces(f.type_text@),
        Target::Go => type_text(Language::Go, f.ty),
        Target::Python => type_text(Language::Python, f.ty),
        Target::TypeScript => type_text(Language::TypeScript, f.ty),
        Target::Java => type_text(Language::Java, f.ty),
        Target::CSharp => type_text(Language::CSharp, f.ty),
    }
}

/// The line of the field `f` in `target`.
pub open spec fn field_line(target: Target, f: FieldDescriptor) -> Seq<char> {
    let ty = field_type_text(target, f);
    match target {
        Target::Rust => "    "@ + field_name(f) + ": "@ + ty + ",\n"@,
        Target::Go => "    "@ + field_name(f) + " "@ + ty + "\n"@,
        Target::Python => "    "@ + field_name(f) + ": "@ + ty + "\n"@,
        Target::TypeScript => "    "@ + ts_field_name(f) + ": "@ + ty + ";\n"@,
        Target::Java => "    public "@ + ty + " "@ + field_name(f) + ";\n"@,
        Target::CSharp => "    public "@ + ty + " "@ + field_name(f) + ";\n"@,
    }
}

/// The lines of `fields` in `target`, one after the other in the order of
/// `fields`.
pub open spec fn field_lines(target: Target, fields: Seq<FieldDescriptor>) -> Seq<char>
    decreases fields.len(),
{
    if fields.len() == 0 {
        Seq::empty()
    } else {
        field_lines(target, fields.drop_last()) + field_line(target, fields.last())
    }
}

/// The block that `target` wraps around the field lines `lines` of the struct
/// `name`. Rust drops the separator after the last field; Python closes
/// nothing.
pub open spec fn block_text(target: Target, name: Seq<char>, lines: Seq<char>) -> Seq<char> {
    match target {
        Target::Rust => "struct "@ + name + " {\n"@ + trim_end_matches(lines, comma_newline())
            + "\n}"@,
        Target::Go => "type "@ + name + " struct {\n"@ + lines + "}"@,
        Target::Python => "@dataclass_json\n@dataclass\nclass "@ + name + ":\n"@ + lines,
        Target::TypeScript => "interface "@ + name + " {\n"@ + lines + "}"@,
        Target::Java => "public class "@ + name + " {\n"@ + lines + "}"@,
        Target::CSharp => "public class "@ + name + " {\n"@ + lines + "}"@,
    }
}

/// The definition of the struct `desc` in `target`.
pub open spec fn struct_text(target: Target, desc: StructDescription) -> Seq<char> {
    block_text(target, desc.name@, field_lines(target, desc.fields@))
}

impl StructStrings {
    /// The field lines held for `target`.
    pub open spec fn lines(self, target: Target) -> Seq<char> {
        match target {
            Target::Rust => self.rust_fields@,
            Target::Go => self.go_fields@,
            Target::Python => self.python_fields@,
            Target::TypeScript => self.ts_fields@,
            Target::Java => self.java_fields@,
            Target::CSharp => self.csharp_fields@,
        }
    }

    /// The block that the accessor of `target` returns.
    pub open spec fn text(self, target: Target) -> Seq<char> {
        block_text(target, self.name@, self.lines(target))
    }

    /// Whether `self` holds the name and the field lines of `desc`.
    pub open spec fn is_rendering_of(self, desc: StructDescription) -> bool {
        &&& self.name@ == desc.name@
        &&& forall|target: Target| #[trigger]
            self.lines(target) == field_lines(target, desc.fields@)
    }

    /// The struct as Rust source.
    pub fn to_rust_string(&self) -> (r: String)
        ensures
            r@ == self.text(Target::Rust),
    {
        let mut res = String::from_str("struct ");
        res.append(self.name.as_str());
        res.append(" {\n");
        res.append(trim_trailing_separator(self.rust_fields.as_str()));
        res.append("\n}");
        res
    }

    /// The struct as a Go struct type.
    pub fn to_go_string(&self) -> (r: String)
        ensures
            r@ == self.text(Target::Go),
    {
        let mut res = String::from_str("type ");
        res.append(self.name.as_str());
        res.append(" struct {\n");
        res.append(self.go_fields.as_str());
        res.append("}");
        res
    }

    /// The struct as a Python dataclass.
    pub fn to_python_string(&self) -> (r: String)
        ensures
            r@ == self.text(Target::Python),
    {
        let mut res = String::from_str("@dataclass_json\n@dataclass\nclass ");
        res.append(self.name.as_str());
        res.append(":\n");
        res.append(self.python_fields.as_str());
        res
    }

    /// The struct as a TypeScript interface.
    pub fn to_typescript_string(&self) -> (r: String)
        ensures
            r@ == self.text(Target::TypeScript),
    {
        let mut res = String::from_str("interface ");
        res.append(self.name.as_str());
        res.append(" {\n");
        res.append(self.ts_fields.as_str());
        res.append("}");
        res
    }

    /// The struct as a Java class.
    pub fn to_java_string(&self) -> (r: String)
        ensures
            r@ == self.text(Target::Java),
    {
        let mut res = String::from_str("public class ");
        res.append(self.name.as_str());
        res.append(" {\n");
        res.append(self.java_fields.as_str());
        res.append("}");
        res
    }

    /// The struct as a C# class.
    pub fn to_csharp_string(&self) -> (r: String)
        ensures
            r@ == self.text(Target::CSharp),
    {
        let mut res = String::from_str("public class ");
        res.append(self.name.as_str());
        res.append(" {\n");
        res.append(self.csharp_fields.as_str());
        res.append("}");
        res
    }
}

fn append_line(out: &mut String, lead: &str, first: &str, mid: &str, second: &str, end: &str)
    ensures
        final(out)@ == old(out)@ + (lead@ + first@ + mid@ + second@ + end@),
{
    let mut line = String::from_str(lead);
    line.append(first);
    line.append(mid);
    line.append(second);
    line.append(end);
    out.append(line.as_str());
}

/// A fault in the field at `n`, after `n` fields without one, is the first
/// fault of `fields`.
pub proof fn lemma_first_fault_at(fields: Seq<FieldDescriptor>, n: int, k: int)
    requires
        0 <= n < k <= fields.len(),
        first_fault(fields.take(n)) is None,
        field_fault(fields[n]) is Some,
    ensures
        first_fault(fields.take(k)) == Some(
            RenderError { field: n as usize, fault: field_fault(fields[n]).unwrap() },
        ),
    decreases k - n,
{
    assert(fields.take(k).drop_last() =~= fields.take(k - 1));
    if k == n + 1 {
        assert(fields.take(k).last() == fields[n]);
    } else {
        lemma_first_fault_at(fields, n, k - 1);
    }
}

/// Renders every field of `desc` in the six targets and collects the lines,
/// in the order of the fields. Fails on the first field that has no name or
/// whose type holds an array length that is no readable integer literal;
/// nothing is produced then.
pub fn struct_to_string(desc: &StructDescription) -> (r: Result<StructStrings, RenderError>)
    ensures
        match r {
            Ok(s) => first_fault(desc.fields@) is None && s.is_rendering_of(*desc),
            Err(e) => first_fault(desc.fields@) == Some(e),
        },
{
    let mut out = StructStrings {
        name: desc.name.clone(),
        rust_fields: String::new(),
        go_fields: String::new(),
        python_fields: String::new(),
        ts_fields: String::new(),
        java_fields: String::new(),
        csharp_fields: String::new(),
    };
    let n: usize = desc.fields.len();
    let mut i: usize = 0;
    while i < n
        invariant
            n == desc.fields@.len(),
            i <= n,
            out.name@ == desc.name@,
            first_fault(desc.fields@.take(i as int)) is None,
            forall|target: Target| #[trigger]
                out.lines(target) == field_lines(target, desc.fields@.take(i as int)),
        decreases n - i,
    {
        let field = &desc.fields[i];
        proof {
            assert(desc.fields@.take(i + 1).drop_last() =~= desc.fields@.take(i as int));
            assert(desc.fields@.take(i + 1).last() == *field);
            assert(desc.fields@.take(n as int) =~= desc.fields@);
            if field_fault(*field) is Some {
                lemma_first_fault_at(desc.fields@, i as int, n as int);
            }
        }
        let name = match &field.name {
            Some(name) => name.as_str(),
            None => {
                return Err(RenderError { field: i, fault: Fault::MissingName });
            },
        };
        let go = match rust_type_to_go_type(&field.ty) {
            Ok(go) => go,
            Err(e) => {
                return Err(RenderError { field: i, fault: Fault::Length(e) });
            },
        };
        let rust = remove_spaces(field.type_text.as_str());
        let ts = rust_type_to_ts_type(&field.ty);
        let python = rust_type_to_python_type(&field.ty);
        let java = rust_type_to_java_type(&field.ty);
        let csharp = rust_type_to_csharp_type(&field.ty);
        let ts_name = match field.ty.shape() {
            Shape::Optional => {
                let mut marked = String::from_str(name);
                marked.append("?");
                marked
            },
            _ => String::from_str(name),
        };
        let ghost before = out;
        append_line(&mut out.rust_fields, "    ", name, ": ", rust.as_str(), ",\n");
        append_line(&mut out.ts_fields, "    ", ts_name.as_str(), ": ", ts.as_str(), ";\n");
        append_line(&mut out.python_fields, "    ", name, ": ", python.as_str(), "\n");
        append_line(&mut out.go_fields, "    ", name, " ", go.as_str(), "\n");
        append_line(&mut out.java_fields, "    public ", java.as_str(), " ", name, ";\n");
        append_line(&mut out.csharp_fields, "    public ", csharp.as_str(), " ", name, ";\n");
        proof {
            assert forall|target: Target| #[trigger]
                out.lines(target) == field_lines(target, desc.fields@.take(i + 1)) by {
                assert(before.lines(target) == field_lines(target, desc.fields@.take(i as int)));
                assert(out.lines(target) == before.lines(target) + field_line(target, *field));
            }
        }
        i += 1;
    }
    proof {
        assert(desc.fields@.take(n as int) =~= desc.fields@);
    }
    Ok(out)
}

} // verus!
