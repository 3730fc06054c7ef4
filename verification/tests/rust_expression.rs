use hack_bindgen::ast::{
    AlignOf, BinaryOperator, BinaryOperatorExpression, CallExpression, CastExpression,
    CompoundLiteral, ConditionalExpression, Constant, Declarator, DerivedDeclarator, Designator,
    Expression, Float, FloatBase, FloatFormat, FloatSuffix, GenericSelection, Identifier,
    Initializer, InitializerListItem, Integer, IntegerBase, IntegerSize, IntegerSuffix,
    MemberExpression, MemberOperator, Node, RangeDesignator, SizeOfTy, SizeOfVal,
    SpecifierQualifier, StringLiteral, StructType, TypeName, TypeSpecifier, UnaryOperator,
    UnaryOperatorExpression,
};
use hack_bindgen::translate::{HackBindgenContext, InlineFn, RustExpression, RustType};

type Ctx = HackBindgenContext<InlineFn>;

fn node<T>(t: T) -> Node<T> {
    Node::new(t)
}

fn ident(name: &str) -> Node<Expression> {
    node(Expression::Identifier(Box::new(node(Identifier { name: name.to_string() }))))
}

fn integer(base: IntegerBase, number: &str, size: IntegerSize, unsigned: bool) -> Node<Expression> {
    node(Expression::Constant(Box::new(node(Constant::Integer(Integer {
        base,
        number: number.to_string(),
        suffix: IntegerSuffix { size, unsigned, imaginary: false },
    })))))
}

fn int_const(number: &str) -> Node<Expression> {
    integer(IntegerBase::Decimal, number, IntegerSize::Int, false)
}

fn float(base: FloatBase, number: &str, format: FloatFormat) -> Node<Expression> {
    node(Expression::Constant(Box::new(node(Constant::Float(Float {
        base,
        number: number.to_string(),
        suffix: FloatSuffix { format, imaginary: false },
    })))))
}

fn binary(op: BinaryOperator, lhs: Node<Expression>, rhs: Node<Expression>) -> Node<Expression> {
    node(Expression::BinaryOperator(Box::new(node(BinaryOperatorExpression {
        operator: node(op),
        lhs: Box::new(lhs),
        rhs: Box::new(rhs),
    }))))
}

fn unary(op: UnaryOperator, operand: Node<Expression>) -> Node<Expression> {
    node(Expression::UnaryOperator(Box::new(node(UnaryOperatorExpression {
        operator: node(op),
        operand: Box::new(operand),
    }))))
}

fn call(callee: Node<Expression>, args: Vec<Node<Expression>>) -> Node<Expression> {
    node(Expression::Call(Box::new(node(CallExpression { callee: Box::new(callee), arguments: args }))))
}

fn tyname(spec: TypeSpecifier, derived: Vec<DerivedDeclarator>) -> Node<TypeName> {
    node(TypeName {
        specifiers: vec![node(SpecifierQualifier::TypeSpecifier(node(spec)))],
        declarator: if derived.is_empty() {
            None
        } else {
            Some(node(Declarator { derived: derived.into_iter().map(node).collect() }))
        },
    })
}

fn translate(e: &Node<Expression>, ctx: &Ctx) -> (String, Option<String>) {
    let r = RustExpression::from_node(e, ctx);
    (r.expression().to_string(), r.type_info().map(|t| t.name().to_string()))
}

fn text(e: &Node<Expression>) -> String {
    translate(e, &Ctx::new()).0
}

fn ty(e: &Node<Expression>) -> Option<String> {
    translate(e, &Ctx::new()).1
}

#[test]
fn integer_constants() {
    let e = integer(IntegerBase::Hexadecimal, "1F", IntegerSize::Long, true);
    assert_eq!(text(&e), "0x1F as core::ffi::c_ulong");
    assert_eq!(ty(&e).as_deref(), Some("core::ffi::c_ulong"));
    assert_eq!(text(&integer(IntegerBase::Octal, "17", IntegerSize::Int, false)), "017 as core::ffi::c_int");
    assert_eq!(text(&integer(IntegerBase::Binary, "101", IntegerSize::LongLong, false)), "0b101 as core::ffi::c_longlong");
    assert_eq!(text(&int_const("42")), "42 as core::ffi::c_int");
}

#[test]
fn float_constants() {
    let e = float(FloatBase::Decimal, "1.5", FloatFormat::Double);
    assert_eq!(text(&e), "1.5 as core::ffi::c_double");
    assert_eq!(ty(&e).as_deref(), Some("core::ffi::c_double"));
    // cexpr does not read hexadecimal floating constants: the digits are kept.
    let h = float(FloatBase::Hexadecimal, "1p3", FloatFormat::Float);
    assert_eq!(text(&h), "1p3 as core::ffi::c_float");
}

#[test]
fn character_constants() {
    let e = node(Expression::Constant(Box::new(node(Constant::Character("'a'".to_string())))));
    assert_eq!(text(&e), "'a' as core::ffi::c_char");
    assert_eq!(ty(&e).as_deref(), Some("core::ffi::c_char"));
}

#[test]
fn string_literals() {
    let e = node(Expression::StringLiteral(Box::new(node(StringLiteral {
        pieces: vec!["\"ab\"".to_string(), "\"c\\n\"".to_string()],
    }))));
    assert_eq!(text(&e), "b\"abc\\n\\x00\"");
    assert_eq!(ty(&e).as_deref(), Some("&[u8; 5]"));
    let r = RustExpression::from_node(&e, &Ctx::new());
    assert!(r.type_info().unwrap().is_array());
}

#[test]
fn unreadable_string_literal_is_refused() {
    let e = node(Expression::StringLiteral(Box::new(node(StringLiteral { pieces: vec!["abc".to_string()] }))));
    assert!(RustExpression::try_from_node(&e, &Ctx::new()).is_none());
    let ok = node(Expression::StringLiteral(Box::new(node(StringLiteral { pieces: vec!["\"\"".to_string()] }))));
    let r = RustExpression::try_from_node(&ok, &Ctx::new()).unwrap();
    assert_eq!(r.expression(), "b\"\\x00\"");
}

#[test]
fn unsupported_specifier_is_refused() {
    let e = node(Expression::Cast(Box::new(node(CastExpression {
        ty: tyname(TypeSpecifier::Signed, vec![]),
        expression: Box::new(ident("x")),
    }))));
    assert!(RustExpression::try_from_node(&e, &Ctx::new()).is_none());
}

#[test]
fn identifiers_take_macro_types() {
    let mut ctx = Ctx::new();
    assert_eq!(translate(&ident("x"), &ctx), ("x".to_string(), None));
    ctx.define_inline_fn_type("x", RustType::from_name("u8"));
    // inline functions give no type to bare identifiers
    assert_eq!(translate(&ident("x"), &ctx), ("x".to_string(), None));
}

#[test]
fn members() {
    let direct = node(Expression::Member(Box::new(node(MemberExpression {
        operator: node(MemberOperator::Direct),
        expression: Box::new(ident("s")),
        identifier: node(Identifier { name: "x".to_string() }),
    }))));
    assert_eq!(text(&direct), "(s).x");
    let indirect = node(Expression::Member(Box::new(node(MemberExpression {
        operator: node(MemberOperator::Indirect),
        expression: Box::new(ident("p")),
        identifier: node(Identifier { name: "x".to_string() }),
    }))));
    assert_eq!(text(&indirect), "(*(p)).x");
    assert_eq!(ty(&indirect), None);
}

#[test]
fn calls() {
    let mut ctx = Ctx::new();
    let e = call(ident("BIT"), vec![int_const("3")]);
    assert_eq!(translate(&e, &ctx), ("BIT(3 as core::ffi::c_int)".to_string(), None));
    ctx.define_inline_fn_type("BIT", RustType::from_name("core::ffi::c_int"));
    assert_eq!(
        translate(&e, &ctx),
        ("BIT(3 as core::ffi::c_int)".to_string(), Some("core::ffi::c_int".to_string()))
    );
    ctx.define_inline_fn("BIT", InlineFn { name: "bit32".to_string(), result_type: RustType::from_name("u32") });
    assert_eq!(translate(&e, &ctx), ("bit32(3 as core::ffi::c_int)".to_string(), Some("u32".to_string())));
    let two = call(ident("f"), vec![int_const("1"), ident("y")]);
    assert_eq!(text(&two), "f(1 as core::ffi::c_int, y)");
    let indirect = call(unary(UnaryOperator::Indirection, ident("fp")), vec![]);
    assert_eq!(text(&indirect), "(*(fp))()");
}

#[test]
fn sizes_and_alignments() {
    let s = node(Expression::SizeOfTy(Box::new(node(SizeOfTy { ty: tyname(TypeSpecifier::Int, vec![]) }))));
    assert_eq!(translate(&s, &Ctx::new()), ("size_of::<core::ffi::c_int>()".to_string(), Some("usize".to_string())));
    let a = node(Expression::AlignOf(Box::new(node(AlignOf {
        ty: Box::new(tyname(TypeSpecifier::Double, vec![DerivedDeclarator::Pointer(vec![])])),
    }))));
    assert_eq!(text(&a), "align_of::<*mut core::ffi::c_double>()");
    let v = node(Expression::SizeOfVal(Box::new(node(SizeOfVal { expression: Box::new(ident("x")) }))));
    assert_eq!(translate(&v, &Ctx::new()), (String::new(), None));
}

#[test]
fn unary_operators() {
    let cases = [
        (UnaryOperator::PostIncrement, "{let p = &mut (x); let v = *p; *p += 1; v}"),
        (UnaryOperator::PostDecrement, "{let p = &mut (x); let v = *p; *p -= 1; v}"),
        (UnaryOperator::PreIncrement, "{let p = &mut (x); *p += 1; *p}"),
        (UnaryOperator::PreDecrement, "{let p = &mut (x); *p -= 1; *p}"),
        (UnaryOperator::Address, "(&raw const (x)).cast_mut()"),
        (UnaryOperator::Indirection, "*(x)"),
        (UnaryOperator::Plus, "(x)"),
        (UnaryOperator::Minus, "-(x)"),
        (UnaryOperator::Complement, "!(x)"),
        (UnaryOperator::Negate, "((x) == 0) as core::ffi::c_int"),
    ];
    for (op, expected) in cases {
        assert_eq!(text(&unary(op, ident("x"))), expected);
    }
    assert_eq!(ty(&unary(UnaryOperator::Address, int_const("1"))).as_deref(), Some("*mut (core::ffi::c_int)"));
    assert_eq!(ty(&unary(UnaryOperator::Indirection, int_const("1"))), None);
    assert_eq!(ty(&unary(UnaryOperator::Negate, ident("x"))).as_deref(), Some("bool"));
    assert_eq!(ty(&unary(UnaryOperator::Minus, int_const("1"))).as_deref(), Some("core::ffi::c_int"));
}

#[test]
fn casts() {
    let e = node(Expression::Cast(Box::new(node(CastExpression {
        ty: tyname(TypeSpecifier::Char, vec![DerivedDeclarator::Pointer(vec![])]),
        expression: Box::new(ident("x")),
    }))));
    assert_eq!(translate(&e, &Ctx::new()), ("x as *mut core::ffi::c_char".to_string(), Some("*mut core::ffi::c_char".to_string())));
}

#[test]
fn binary_operators() {
    let one = || int_const("1");
    let x = || ident("x");
    let cases = [
        (BinaryOperator::Index, "(1 as core::ffi::c_int)[x]"),
        (BinaryOperator::Multiply, "(1 as core::ffi::c_int) * (x)"),
        (BinaryOperator::Divide, "(1 as core::ffi::c_int) / (x)"),
        (BinaryOperator::Modulo, "(1 as core::ffi::c_int) % (x)"),
        (BinaryOperator::Plus, "(1 as core::ffi::c_int) + (x)"),
        (BinaryOperator::Minus, "(1 as core::ffi::c_int) - (x)"),
        (BinaryOperator::ShiftLeft, "((1 as core::ffi::c_int) << ((x) as i32))"),
        (BinaryOperator::ShiftRight, "((1 as core::ffi::c_int) >> ((x) as i32))"),
        (BinaryOperator::Less, "((1 as core::ffi::c_int) < (x)) as core::ffi::c_int"),
        (BinaryOperator::Greater, "((1 as core::ffi::c_int) > (x)) as core::ffi::c_int"),
        (BinaryOperator::LessOrEqual, "((1 as core::ffi::c_int) <= (x)) as core::ffi::c_int"),
        (BinaryOperator::GreaterOrEqual, "((1 as core::ffi::c_int) >= (x)) as core::ffi::c_int"),
        (BinaryOperator::Equals, "((1 as core::ffi::c_int) == (x)) as core::ffi::c_int"),
        (BinaryOperator::NotEquals, "((1 as core::ffi::c_int) != (x)) as core::ffi::c_int"),
        (BinaryOperator::BitwiseAnd, "((1 as core::ffi::c_int) & (x))"),
        (BinaryOperator::BitwiseXor, "((1 as core::ffi::c_int) ^ (x))"),
        (BinaryOperator::BitwiseOr, "((1 as core::ffi::c_int) | (x))"),
        (BinaryOperator::LogicalAnd, "(((1 as core::ffi::c_int) as bool) && ((x) as bool)) as core::ffi::c_int"),
        (BinaryOperator::LogicalOr, "(((1 as core::ffi::c_int) as bool) || ((x) as bool)) as core::ffi::c_int"),
        (BinaryOperator::Assign, "{let p = &mut 1 as core::ffi::c_int; *p = x; *p}"),
        (BinaryOperator::AssignMultiply, "{let p = &mut 1 as core::ffi::c_int; *p += x; *p}"),
        (BinaryOperator::AssignDivide, "{let p = &mut 1 as core::ffi::c_int; *p /= x; *p}"),
        (BinaryOperator::AssignModulo, "{let p = &mut 1 as core::ffi::c_int; *p %= x; *p}"),
        (BinaryOperator::AssignPlus, "{let p = &mut 1 as core::ffi::c_int; *p += x; *p}"),
        (BinaryOperator::AssignMinus, "{let p = &mut 1 as core::ffi::c_int; *p -= x; *p}"),
        (BinaryOperator::AssignShiftLeft, "{let p = &mut 1 as core::ffi::c_int; *p <<= (x as i32); *p}"),
        (BinaryOperator::AssignShiftRight, "{let p = &mut 1 as core::ffi::c_int; *p >>= (x as i32); *p}"),
        (BinaryOperator::AssignBitwiseAnd, "{let p = &mut 1 as core::ffi::c_int; *p &= x; *p}"),
        (BinaryOperator::AssignBitwiseXor, "{let p = &mut 1 as core::ffi::c_int; *p ^= x; *p}"),
        (BinaryOperator::AssignBitwiseOr, "{let p = &mut 1 as core::ffi::c_int; *p |= x; *p}"),
    ];
    for (op, expected) in cases {
        assert_eq!(text(&binary(op, one(), x())), expected);
    }
    assert_eq!(ty(&binary(BinaryOperator::Index, one(), x())), None);
    assert_eq!(ty(&binary(BinaryOperator::Plus, x(), one())).as_deref(), Some("core::ffi::c_int"));
    assert_eq!(ty(&binary(BinaryOperator::ShiftLeft, x(), one())), None);
    assert_eq!(ty(&binary(BinaryOperator::Less, x(), x())).as_deref(), Some("core::ffi::c_int"));
    assert_eq!(ty(&binary(BinaryOperator::Plus, x(), x())), None);
}

#[test]
fn conditionals_and_commas() {
    let c = node(Expression::Conditional(Box::new(node(ConditionalExpression {
        condition: Box::new(ident("c")),
        then_expression: Box::new(ident("a")),
        else_expression: Box::new(int_const("1")),
    }))));
    assert_eq!(translate(&c, &Ctx::new()), ("if c {a} else {1 as core::ffi::c_int}".to_string(), Some("core::ffi::c_int".to_string())));
    let comma = node(Expression::Comma(Box::new(vec![int_const("1"), ident("x")])));
    assert_eq!(translate(&comma, &Ctx::new()), ("{1 as core::ffi::c_int;x}".to_string(), None));
    let comma2 = node(Expression::Comma(Box::new(vec![ident("x"), int_const("2")])));
    assert_eq!(ty(&comma2).as_deref(), Some("core::ffi::c_int"));
}

#[test]
fn generic_selection_and_unhandled_forms() {
    let g = node(Expression::GenericSelection(Box::new(node(GenericSelection { rendered: "Generic(x)".to_string() }))));
    assert_eq!(translate(&g, &Ctx::new()), ("Generic(x)".to_string(), None));
    for e in [Expression::OffsetOf, Expression::VaArg, Expression::Statement] {
        assert_eq!(translate(&node(e), &Ctx::new()), (String::new(), None));
    }
}

fn item(designation: Vec<Designator>, value: Node<Expression>) -> Node<InitializerListItem> {
    node(InitializerListItem {
        designation: designation.into_iter().map(node).collect(),
        initializer: Box::new(node(Initializer::Expression(Box::new(value)))),
    })
}

#[test]
fn compound_literals() {
    let e = node(Expression::CompoundLiteral(Box::new(node(CompoundLiteral {
        ty: tyname(TypeSpecifier::Struct(node(StructType { identifier: Some(node(Identifier { name: "foo".to_string() })) })), vec![]),
        initializer_list: vec![
            item(vec![], int_const("1")),
            item(vec![Designator::Member(node(Identifier { name: "y".to_string() }))], int_const("2")),
            item(vec![Designator::Index(int_const("3"))], int_const("4")),
            item(vec![Designator::Index(ident("7"))], int_const("5")),
            item(vec![], int_const("6")),
            item(vec![Designator::Range(node(RangeDesignator { from: ident("a"), to: ident("b") }))], int_const("8")),
        ],
    }))));
    let expected = "unsafe {let mut v = core::mem::zeroed::<foo>(); v0 = 1 as core::ffi::c_int;\n\
                    v.y = 2 as core::ffi::c_int;\n\
                    v[3 as core::ffi::c_int] = 4 as core::ffi::c_int;\n\
                    v[7] = 5 as core::ffi::c_int;\n\
                    v7 = 6 as core::ffi::c_int;\n\
                    va..b] = 8 as core::ffi::c_int;\n v}";
    assert_eq!(translate(&e, &Ctx::new()), (expected.to_string(), Some("foo".to_string())));
}

#[test]
fn nested_initializer_lists_restart_the_index() {
    let nested = node(InitializerListItem {
        designation: vec![],
        initializer: Box::new(node(Initializer::List(vec![item(vec![], int_const("1"))]))),
    });
    let e = node(Expression::CompoundLiteral(Box::new(node(CompoundLiteral {
        ty: tyname(TypeSpecifier::Int, vec![]),
        initializer_list: vec![item(vec![Designator::Index(ident("'a'"))], int_const("2")), nested, item(vec![], int_const("3"))],
    }))));
    let expected = "unsafe {let mut v = core::mem::zeroed::<core::ffi::c_int>(); v['a'] = 2 as core::ffi::c_int;\n\
                    v0 = 1 as core::ffi::c_int;\n\
                    v97 = 3 as core::ffi::c_int;\n v}";
    assert_eq!(text(&e), expected);
}
