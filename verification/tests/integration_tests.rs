use struct_to_string::assemble::{struct_to_string, StructStrings};
use struct_to_string::shape::{ArrayLen, FieldDescriptor, StructDescription, TypeExpr};

fn path(name: &str) -> TypeExpr {
    TypeExpr::Path { name: name.to_string(), arg: None }
}

fn generic(name: &str, arg: TypeExpr) -> TypeExpr {
    TypeExpr::Path { name: name.to_string(), arg: Some(Box::new(arg)) }
}

fn field(name: &str, type_text: &str, ty: TypeExpr) -> FieldDescriptor {
    FieldDescriptor { name: Some(name.to_string()), type_text: type_text.to_string(), ty }
}

fn comprehensive_test_struct() -> StructStrings {
    let desc = StructDescription {
        name: "ComprehensiveTestStruct".to_string(),
        fields: vec![
            field("int_field", "i32", path("i32")),
            field("uint_field", "u32", path("u32")),
            field("float_field", "f64", path("f64")),
            field("bool_field", "bool", path("bool")),
            field("char_field", "char", path("char")),
            field("str_field", "String", path("String")),
            field("option_field", "Option < i32 >", generic("Option", path("i32"))),
            field(
                "array_field",
                "[i32 ; 3]",
                TypeExpr::Array {
                    elem: Box::new(path("i32")),
                    len: ArrayLen::IntLiteral("3".to_string()),
                },
            ),
            field("slice_field", "Vec < i32 >", generic("Vec", path("i32"))),
            field(
                "tuple_field",
                "(i32 , String)",
                TypeExpr::Tuple { elems: vec![path("i32"), path("String")] },
            ),
            field("tuple_struct_field", "TupleStruct", path("TupleStruct")),
            field("enum_field", "AnEnum", path("AnEnum")),
            field("nested_struct_field", "NestedStruct", path("NestedStruct")),
        ],
    };
    struct_to_string(&desc).unwrap()
}

#[test]
fn to_rust() {
    let expected = r#"struct ComprehensiveTestStruct {
    int_field: i32,
    uint_field: u32,
    float_field: f64,
    bool_field: bool,
    char_field: char,
    str_field: String,
    option_field: Option<i32>,
    array_field: [i32;3],
    slice_field: Vec<i32>,
    tuple_field: (i32,String),
    tuple_struct_field: TupleStruct,
    enum_field: AnEnum,
    nested_struct_field: NestedStruct
}"#;

    let struct_string = comprehensive_test_struct().to_rust_string();

    println!("--- RUST CONVERSION --- ");
    println!("--- WHAT WAS GENERATED --- ");
    println!("{}", struct_string);
    println!("--- WHAT WAS EXPECTED --- ");
    println!("{}", expected);

    assert_eq!(struct_string, expected);
}

#[test]
fn to_typescript() {
    let expected = r#"interface ComprehensiveTestStruct {
    int_field: number;
    uint_field: number;
    float_field: number;
    bool_field: boolean;
    char_field: string;
    str_field: string;
    option_field?: number | null;
    array_field: number[];
    slice_field: number[];
    tuple_field: [number, string];
    tuple_struct_field: TupleStruct;
    enum_field: AnEnum;
    nested_struct_field: NestedStruct;
}"#;

    let struct_string = comprehensive_test_struct().to_typescript_string();

    println!("--- TS CONVERSION --- ");
    println!("--- WHAT WAS GENERATED --- ");
    println!("{}", struct_string);
    println!("--- WHAT WAS EXPECTED --- ");
    println!("{}", expected);

    assert_eq!(struct_string, expected);
}

#[test]
fn to_python() {
    let expected = r#"@dataclass_json
@dataclass
class ComprehensiveTestStruct:
    int_field: int
    uint_field: int
    float_field: float
    bool_field: bool
    char_field: str
    str_field: str
    option_field: Optional[int]
    array_field: List[int]
    slice_field: List[int]
    tuple_field: Tuple[int, str]
    tuple_struct_field: TupleStruct
    enum_field: AnEnum
    nested_struct_field: NestedStruct
"#;

    let struct_string = comprehensive_test_struct().to_python_string();

    println!("--- PYTHON CONVERSION --- ");
    println!("--- WHAT WAS GENERATED --- ");
    println!("{}", struct_string);
    println!("--- WHAT WAS EXPECTED --- ");
    println!("{}", expected);

    assert_eq!(struct_string, expected);
}

#[test]
fn to_go() {
    let expected = r#"type ComprehensiveTestStruct struct {
    int_field int32
    uint_field uint32
    float_field float64
    bool_field bool
    char_field rune
    str_field string
    option_field *int32
    array_field [3]int32
    slice_field []int32
    tuple_field struct{} // CANNOT CONVERT THIS TO THE GO PROGRAMMING LANGUAGE. TUPLES ARE UNSUPPORTED BY GO: (int32, string)
    tuple_struct_field TupleStruct
    enum_field AnEnum
    nested_struct_field NestedStruct
}"#;

    let struct_string = comprehensive_test_struct().to_go_string();

    println!("--- GO CONVERSION --- ");
    println!("--- WHAT WAS GENERATED --- ");
    println!("{}", struct_string);
    println!("--- WHAT WAS EXPECTED --- ");
    println!("{}", expected);

    assert_eq!(struct_string, expected);
}

#[test]
fn to_java() {
    let expected = r#"public class ComprehensiveTestStruct {
    public int int_field;
    public long uint_field;
    public double float_field;
    public boolean bool_field;
    public char char_field;
    public String str_field;
    public Integer option_field;
    public List<Integer> array_field;
    public List<Integer> slice_field;
    public Tuple<Integer, String> tuple_field;
    public TupleStruct tuple_struct_field;
    public AnEnum enum_field;
    public NestedStruct nested_struct_field;
}"#;

    let struct_string = comprehensive_test_struct().to_java_string();

    println!("--- JAVA CONVERSION --- ");
    println!("--- WHAT WAS GENERATED --- ");
    println!("{}", struct_string);
    println!("--- WHAT WAS EXPECTED --- ");
    println!("{}", expected);

    assert_eq!(struct_string, expected);
}

#[test]
fn to_csharp() {
    let expected = r#"public class ComprehensiveTestStruct {
    public int int_field;
    public uint uint_field;
    public double float_field;
    public bool bool_field;
    public char char_field;
    public string str_field;
    public int? option_field;
    public List<int> array_field;
    public List<int> slice_field;
    public (int, string) tuple_field;
    public TupleStruct tuple_struct_field;
    public AnEnum enum_field;
    public NestedStruct nested_struct_field;
}"#;

    let struct_string = comprehensive_test_struct().to_csharp_string();

    println!("--- C# CONVERSION --- ");
    println!("--- WHAT WAS GENERATED --- ");
    println!("{}", struct_string);
    println!("--- WHAT WAS EXPECTED --- ");
    println!("{}", expected);

    assert_eq!(struct_string, expected);
}
