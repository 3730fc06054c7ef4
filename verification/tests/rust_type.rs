use hack_bindgen::ast::{
    ArrayDeclarator, ArraySize, Constant, DeclarationSpecifier, Declarator, DerivedDeclarator,
    Ellipsis, EnumType, Expression, FloatFormat, FloatSuffix, FunctionDeclarator, Identifier,
    Integer, IntegerBase, IntegerSize, IntegerSuffix, Node, ParameterDeclaration,
    PointerQualifier, SpecifierQualifier, StructType, TypeName, TypeQualifier, TypeSpecifier,
};
use hack_bindgen::translate::{HackBindgenContext, InlineFn, RustType};

type Ctx = HackBindgenContext<InlineFn>;

fn node<T>(t: T) -> Node<T> {
    Node::new(t)
}

fn ident(name: &str) -> Node<Identifier> {
    node(Identifier { name: name.to_string() })
}

fn int_suffix(size: IntegerSize, unsigned: bool) -> IntegerSuffix {
    IntegerSuffix { size, unsigned, imaginary: false }
}

fn int_const(number: &str) -> Node<Expression> {
    node(Expression::Constant(Box::new(node(Constant::Integer(Integer {
        base: IntegerBase::Decimal,
        number: number.to_string(),
        suffix: int_suffix(IntegerSize::Int, false),
    })))))
}

fn named_type(name: &str) -> RustType {
    RustType::from_name(name)
}

fn declarator(derived: Vec<DerivedDeclarator>) -> Node<Declarator> {
    node(Declarator { derived: derived.into_iter().map(node).collect() })
}

#[test]
fn new_type_is_empty() {
    let t = RustType::new();
    assert_eq!(t.name(), "");
    assert!(!t.is_array());
    let d = RustType::default();
    assert_eq!(d.name(), "");
}

#[test]
fn from_name_keeps_the_name() {
    let t = RustType::from_name("core::ffi::c_int");
    assert_eq!(t.name(), "core::ffi::c_int");
    assert!(!t.is_array());
}

#[test]
fn integer_suffix_types() {
    let cases = [
        (IntegerSize::Int, false, "core::ffi::c_int"),
        (IntegerSize::Int, true, "core::ffi::c_uint"),
        (IntegerSize::Long, false, "core::ffi::c_long"),
        (IntegerSize::Long, true, "core::ffi::c_ulong"),
        (IntegerSize::LongLong, false, "core::ffi::c_longlong"),
        (IntegerSize::LongLong, true, "core::ffi::c_ulonglong"),
    ];
    for (size, unsigned, expected) in cases {
        assert_eq!(RustType::from_integer_suffix(&int_suffix(size, unsigned)).name(), expected);
    }
}

#[test]
fn float_suffix_types() {
    let cases = [
        (FloatFormat::Float, "core::ffi::c_float"),
        (FloatFormat::Double, "core::ffi::c_double"),
        (FloatFormat::LongDouble, "LongDouble"),
        (FloatFormat::TS18661Format, "TS18661Format"),
    ];
    for (format, expected) in cases {
        let suffix = FloatSuffix { format, imaginary: false };
        assert_eq!(RustType::from_float_suffix(&suffix).name(), expected);
    }
}

#[test]
fn type_specifiers() {
    let cases: Vec<(TypeSpecifier, &str)> = vec![
        (TypeSpecifier::Void, "core::ffi::c_void"),
        (TypeSpecifier::Char, "core::ffi::c_char"),
        (TypeSpecifier::Short, "core::ffi::c_short"),
        (TypeSpecifier::Int, "core::ffi::c_int"),
        (TypeSpecifier::Long, "core::ffi::c_long"),
        (TypeSpecifier::Float, "core::ffi::c_float"),
        (TypeSpecifier::Double, "core::ffi::c_double"),
        (TypeSpecifier::Bool, "bool"),
        (TypeSpecifier::Struct(node(StructType { identifier: Some(ident("point")) })), "point"),
        (TypeSpecifier::Enum(node(EnumType { identifier: Some(ident("color")) })), "color"),
        (TypeSpecifier::TypedefName(ident("size_t")), "size_t"),
    ];
    for (spec, expected) in cases {
        let mut t = RustType::new();
        t.with_type_specifier(&node(spec));
        assert_eq!(t.name(), expected);
    }
}

#[test]
fn anonymous_struct_keeps_the_name() {
    let mut t = named_type("before");
    t.with_type_specifier(&node(TypeSpecifier::Struct(node(StructType { identifier: None }))));
    assert_eq!(t.name(), "before");
    t.with_type_specifier(&node(TypeSpecifier::Enum(node(EnumType { identifier: None }))));
    assert_eq!(t.name(), "before");
}

#[test]
fn qualifiers_steer_pointers() {
    let ctx = Ctx::new();
    let mut t = named_type("core::ffi::c_char");
    t.with_type_qualifier(&node(TypeQualifier::Volatile));
    t.with_declarator(&declarator(vec![DerivedDeclarator::Pointer(vec![])]), &ctx);
    assert_eq!(t.name(), "*mut core::ffi::c_char");

    let mut t = named_type("core::ffi::c_char");
    t.with_type_qualifier(&node(TypeQualifier::Const));
    t.with_declarator(&declarator(vec![DerivedDeclarator::Pointer(vec![])]), &ctx);
    assert_eq!(t.name(), "*const core::ffi::c_char");
}

#[test]
fn const_pointer_qualifier_applies_to_the_next_level() {
    let ctx = Ctx::new();
    let mut t = named_type("core::ffi::c_int");
    let const_q = node(PointerQualifier::TypeQualifier(node(TypeQualifier::Const)));
    t.with_declarator(
        &declarator(vec![
            DerivedDeclarator::Pointer(vec![const_q]),
            DerivedDeclarator::Pointer(vec![]),
        ]),
        &ctx,
    );
    assert_eq!(t.name(), "*const *mut core::ffi::c_int");
}

#[test]
fn array_declarators() {
    let ctx = Ctx::new();
    let mut t = named_type("core::ffi::c_int");
    t.with_declarator(
        &declarator(vec![DerivedDeclarator::Array(node(ArrayDeclarator { size: ArraySize::Unknown }))]),
        &ctx,
    );
    assert_eq!(t.name(), "[core::ffi::c_int]");
    assert!(t.is_array());

    let mut t = named_type("u8");
    t.with_declarator(
        &declarator(vec![DerivedDeclarator::Array(node(ArrayDeclarator {
            size: ArraySize::VariableExpression(Box::new(int_const("4"))),
        }))]),
        &ctx,
    );
    assert_eq!(t.name(), "[u8; 4 as core::ffi::c_int]");

    let mut t = named_type("u8");
    t.with_declarator(
        &declarator(vec![DerivedDeclarator::Array(node(ArrayDeclarator {
            size: ArraySize::StaticExpression(Box::new(int_const("2"))),
        }))]),
        &ctx,
    );
    assert_eq!(t.name(), "[u8; 2 as core::ffi::c_int]");

    let mut t = named_type("u8");
    t.with_declarator(
        &declarator(vec![DerivedDeclarator::Array(node(ArrayDeclarator { size: ArraySize::VariableUnknown }))]),
        &ctx,
    );
    assert_eq!(t.name(), "[u8]");
}

fn param(specs: Vec<DeclarationSpecifier>) -> Node<ParameterDeclaration> {
    node(ParameterDeclaration { specifiers: specs.into_iter().map(node).collect() })
}

#[test]
fn function_declarators() {
    let ctx = Ctx::new();
    let mut t = named_type("core::ffi::c_void");
    t.with_declarator(
        &declarator(vec![DerivedDeclarator::Function(node(FunctionDeclarator {
            parameters: vec![
                param(vec![DeclarationSpecifier::TypeSpecifier(node(TypeSpecifier::Int))]),
                param(vec![DeclarationSpecifier::TypeSpecifier(node(TypeSpecifier::Double))]),
            ],
            ellipsis: Ellipsis::Present,
        }))]),
        &ctx,
    );
    assert_eq!(
        t.name(),
        "Option<extern \"C\" fn(core::ffi::c_int, core::ffi::c_double, ...) -> core::ffi::c_void>"
    );

    let mut t = named_type("core::ffi::c_int");
    t.with_declarator(
        &declarator(vec![DerivedDeclarator::Function(node(FunctionDeclarator {
            parameters: vec![],
            ellipsis: Ellipsis::Absent,
        }))]),
        &ctx,
    );
    assert_eq!(t.name(), "Option<extern \"C\" fn() -> core::ffi::c_int>");
}

#[test]
fn lone_void_parameter_is_no_parameter() {
    let ctx = Ctx::new();
    let mut t = named_type("core::ffi::c_int");
    t.with_declarator(
        &declarator(vec![DerivedDeclarator::Function(node(FunctionDeclarator {
            parameters: vec![param(vec![DeclarationSpecifier::TypeSpecifier(node(
                TypeSpecifier::TypedefName(ident("void")),
            ))])],
            ellipsis: Ellipsis::Absent,
        }))]),
        &ctx,
    );
    assert_eq!(t.name(), "Option<extern \"C\" fn() -> core::ffi::c_int>");
}

#[test]
fn parameter_declaration_types() {
    let p = param(vec![
        DeclarationSpecifier::StorageClass,
        DeclarationSpecifier::TypeQualifier(node(TypeQualifier::Const)),
        DeclarationSpecifier::TypeSpecifier(node(TypeSpecifier::Double)),
    ]);
    assert_eq!(RustType::from_parameter_declaration(&p).name(), "core::ffi::c_double");
}

#[test]
fn type_names() {
    let ctx = Ctx::new();
    let tn = node(TypeName {
        specifiers: vec![
            node(SpecifierQualifier::TypeQualifier(node(TypeQualifier::Const))),
            node(SpecifierQualifier::TypeSpecifier(node(TypeSpecifier::Char))),
        ],
        declarator: Some(declarator(vec![DerivedDeclarator::Pointer(vec![])])),
    });
    assert_eq!(RustType::from_type_name(&tn, &ctx).name(), "*const core::ffi::c_char");

    let mut t = RustType::new();
    t.with_specifier_qualifier(&node(SpecifierQualifier::Extension));
    t.with_specifier_qualifier(&node(SpecifierQualifier::TypeSpecifier(node(TypeSpecifier::Long))));
    assert_eq!(t.name(), "core::ffi::c_long");

    let mut t = RustType::new();
    t.with_declaration_specifier(&node(DeclarationSpecifier::TypeSpecifier(node(TypeSpecifier::Short))));
    assert_eq!(t.name(), "core::ffi::c_short");
}

#[test]
fn declarators_apply_in_parts() {
    let ctx = Ctx::new();
    let pointer = || DerivedDeclarator::Pointer(vec![]);
    let array = || DerivedDeclarator::Array(node(ArrayDeclarator { size: ArraySize::VariableExpression(Box::new(int_const("4"))) }));
    let mut whole = named_type("core::ffi::c_char");
    whole.with_declarator(&declarator(vec![pointer(), array(), pointer()]), &ctx);
    let mut parts = named_type("core::ffi::c_char");
    parts.with_declarator(&declarator(vec![pointer()]), &ctx);
    parts.with_declarator(&declarator(vec![array(), pointer()]), &ctx);
    assert_eq!(whole.name(), parts.name());
    assert_eq!(whole.is_array(), parts.is_array());
}

#[test]
fn inert_declarators_change_nothing() {
    let ctx = Ctx::new();
    let mut t = named_type("core::ffi::c_int");
    t.with_declarator(&declarator(vec![DerivedDeclarator::KRFunction, DerivedDeclarator::Block]), &ctx);
    assert_eq!(t.name(), "core::ffi::c_int");
    assert!(!t.is_array());
    t.with_declarator(&declarator(vec![]), &ctx);
    assert_eq!(t.name(), "core::ffi::c_int");
}

#[test]
fn specifier_wrappers_act_as_the_specifier() {
    let mut direct = RustType::new();
    direct.with_type_qualifier(&node(TypeQualifier::Const));
    direct.with_type_specifier(&node(TypeSpecifier::Char));
    let mut declared = RustType::new();
    declared.with_declaration_specifier(&node(DeclarationSpecifier::TypeQualifier(node(TypeQualifier::Const))));
    declared.with_declaration_specifier(&node(DeclarationSpecifier::TypeSpecifier(node(TypeSpecifier::Char))));
    let mut qualified = RustType::new();
    qualified.with_specifier_qualifier(&node(SpecifierQualifier::TypeQualifier(node(TypeQualifier::Const))));
    qualified.with_specifier_qualifier(&node(SpecifierQualifier::TypeSpecifier(node(TypeSpecifier::Char))));
    assert_eq!(declared.name(), direct.name());
    assert_eq!(qualified.name(), direct.name());
}
