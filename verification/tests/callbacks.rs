use hack_bindgen::ast::{
    BinaryOperator, BinaryOperatorExpression, Constant, Declarator, DerivedDeclarator, Expression,
    Identifier, Integer, IntegerBase, IntegerSize, IntegerSuffix, Node, SpecifierQualifier,
    StringLiteral, TypeName, TypeSpecifier,
};
use hack_bindgen::callbacks::{
    const_decl_replacement, HackBindgenCallbacks, MacroDefinition, MacroToken, TokenKind,
    MACRO_CONST_PATTERN,
};
use hack_bindgen::translate::{HackBindgenContext, InlineFn, RustExpression, RustType};

type Ctx = HackBindgenContext<InlineFn>;
type Callbacks = HackBindgenCallbacks<InlineFn>;

fn node<T>(t: T) -> Node<T> {
    Node::new(t)
}

fn ident(name: &str) -> Node<Expression> {
    node(Expression::Identifier(Box::new(node(Identifier { name: name.to_string() }))))
}

fn int_const(number: &str) -> Node<Expression> {
    node(Expression::Constant(Box::new(node(Constant::Integer(Integer {
        base: IntegerBase::Decimal,
        number: number.to_string(),
        suffix: IntegerSuffix { size: IntegerSize::Int, unsigned: false, imaginary: false },
    })))))
}

fn shift(a: Node<Expression>, b: Node<Expression>) -> Node<Expression> {
    node(Expression::BinaryOperator(Box::new(node(BinaryOperatorExpression {
        operator: node(BinaryOperator::ShiftLeft),
        lhs: Box::new(a),
        rhs: Box::new(b),
    }))))
}

fn char_pointer() -> Node<TypeName> {
    node(TypeName {
        specifiers: vec![node(SpecifierQualifier::TypeSpecifier(node(TypeSpecifier::Char)))],
        declarator: Some(node(Declarator { derived: vec![node(DerivedDeclarator::Pointer(vec![]))] })),
    })
}

fn token(kind: TokenKind, raw: &str) -> MacroToken {
    MacroToken { kind, raw: raw.as_bytes().to_vec() }
}

fn macro_tokens(name: &str, body: &[&str]) -> Vec<MacroToken> {
    let mut v = vec![token(TokenKind::Identifier, name)];
    for b in body {
        v.push(token(TokenKind::Punctuation, b));
    }
    v
}

#[test]
fn define_stores_translations() {
    let mut cb = Callbacks::new(Ctx::new());
    assert!(cb.define("FLAG", Some(shift(int_const("1"), int_const("3"))), None));
    assert!(cb.define("PTR", None, Some(char_pointer())));
    assert!(!cb.define("EMPTY", None, None));
    let r = RustExpression::from_node(&ident("FLAG"), cb.context());
    assert_eq!(r.type_info().map(|t| t.name()), Some("core::ffi::c_int"));
    let r = RustExpression::from_node(&ident("PTR"), cb.context());
    assert!(r.type_info().is_none());
    assert_eq!(
        const_decl_replacement(cb.context(), "FLAG", "FLAG"),
        "pub const FLAG: core::ffi::c_int = unsafe {((1 as core::ffi::c_int) << ((3 as core::ffi::c_int) as i32))};"
    );
    assert_eq!(const_decl_replacement(cb.context(), "T", "PTR"), "pub type T = *mut core::ffi::c_char;");
    assert_eq!(const_decl_replacement(cb.context(), "X", "EMPTY"), "// X unknown macro define");
}

#[test]
fn later_definitions_replace_earlier_ones() {
    let mut cb = Callbacks::new(Ctx::new());
    cb.define("A", Some(int_const("1")), None);
    cb.define("A", Some(ident("y")), None);
    assert_eq!(const_decl_replacement(cb.context(), "A", "A"), "// pub const A: unknown = unsafe {y};");
}

#[test]
fn macros_refer_to_earlier_macros() {
    let mut cb = Callbacks::new(Ctx::new());
    cb.define("ONE", Some(int_const("1")), None);
    cb.define("TWO", Some(shift(ident("ONE"), int_const("1"))), None);
    assert_eq!(
        const_decl_replacement(cb.context(), "TWO", "TWO"),
        "pub const TWO: core::ffi::c_int = unsafe {((ONE) << ((1 as core::ffi::c_int) as i32))};"
    );
}

#[test]
fn modify_macro_marks_translated_macros() {
    let mut cb = Callbacks::default();
    let mut tokens = macro_tokens("FOO", &["1"]);
    cb.modify_macro("FOO", &mut tokens, Some(int_const("1")), None);
    assert_eq!(tokens.len(), 2);
    assert_eq!(tokens[0].raw, b"FOO".to_vec());
    assert!(tokens[1].kind == TokenKind::Literal);
    assert_eq!(tokens[1].raw, b"\"hack_bindgen_macro:FOO\"".to_vec());
    assert_eq!(
        const_decl_replacement(cb.context(), "FOO", "FOO"),
        "pub const FOO: core::ffi::c_int = unsafe {1 as core::ffi::c_int};"
    );
}

#[test]
fn modify_macro_escapes_the_name() {
    let mut cb = Callbacks::default();
    let mut tokens = macro_tokens("N\u{e9}", &["1", "+", "1"]);
    cb.modify_macro("N\u{e9}", &mut tokens, Some(int_const("1")), None);
    assert_eq!(tokens[1].raw, b"\"hack_bindgen_macro:N\\xc3\\xa9\"".to_vec());
}

#[test]
fn modify_macro_leaves_other_macros() {
    let mut cb = Callbacks::default();
    let mut tokens = macro_tokens("ONLY_NAME", &[]);
    cb.modify_macro("ONLY_NAME", &mut tokens, Some(int_const("1")), None);
    assert_eq!(tokens.len(), 1);
    assert_eq!(const_decl_replacement(cb.context(), "X", "ONLY_NAME"), "// X unknown macro define");

    let mut tokens = macro_tokens("UNPARSED", &["#", "x"]);
    cb.modify_macro("UNPARSED", &mut tokens, None, None);
    assert_eq!(tokens.len(), 3);
    assert_eq!(tokens[2].raw, b"x".to_vec());

    let bad = node(Expression::StringLiteral(Box::new(node(StringLiteral { pieces: vec!["oops".to_string()] }))));
    let mut tokens = macro_tokens("BAD", &["oops"]);
    cb.modify_macro("BAD", &mut tokens, Some(bad), None);
    assert_eq!(tokens.len(), 2);
    assert_eq!(tokens[1].raw, b"oops".to_vec());
    assert_eq!(const_decl_replacement(cb.context(), "X", "BAD"), "// X unknown macro define");
}

#[test]
fn macro_code_joins_the_body() {
    let tokens = macro_tokens("FOO", &["(", "1", "<<", "3", ")"]);
    assert_eq!(Callbacks::macro_code(&tokens), "( 1 << 3 )");
    assert_eq!(Callbacks::macro_code(&macro_tokens("FOO", &[])), "");
    assert_eq!(Callbacks::macro_code(&[]), "");
    let odd = vec![token(TokenKind::Identifier, "X"), MacroToken { kind: TokenKind::Literal, raw: vec![0xff, b'a'] }];
    assert_eq!(Callbacks::macro_code(&odd), "\u{fffd}a");
}

#[test]
fn post_processing_rewrites_marked_constants() {
    let mut cb = Callbacks::default();
    cb.define("FLAG", Some(shift(int_const("1"), int_const("3"))), None);
    cb.define("PTR", None, Some(char_pointer()));
    cb.define("UNTYPED", Some(ident("y")), None);
    let mut code = String::from(
        "pub type uint8_t = u8;\n\
         pub const FLAG: &[u8; 24] = b\"hack_bindgen_macro:FLAG\\0\";\n\
         pub const PTR: &[u8; 23] = b\"hack_bindgen_macro:PTR\\0\";\n\
         pub const UNTYPED: &[u8; 27] = b\"hack_bindgen_macro:UNTYPED\\0\";\n\
         pub const OTHER: &[u8; 25] = b\"hack_bindgen_macro:OTHER\\0\";\n\
         pub const PLAIN: u32 = 3;\n",
    );
    cb.post_processing(&mut code);
    assert_eq!(
        code,
        "pub type uint8_t = u8;\n\
         pub const FLAG: core::ffi::c_int = unsafe {((1 as core::ffi::c_int) << ((3 as core::ffi::c_int) as i32))};\n\
         pub type PTR = *mut core::ffi::c_char;\n\
         // pub const UNTYPED: unknown = unsafe {y};\n\
         // OTHER unknown macro define\n\
         pub const PLAIN: u32 = 3;\n"
    );
}

#[test]
fn post_processing_without_markers_changes_nothing() {
    let cb = Callbacks::default();
    let mut code = String::from("pub const A: u32 = 1;\n");
    cb.post_processing(&mut code);
    assert_eq!(code, "pub const A: u32 = 1;\n");
}

#[test]
fn pattern_compiles() {
    assert!(regex::Regex::new(MACRO_CONST_PATTERN).is_ok());
}

#[test]
fn prelude_lines() {
    let lines = Callbacks::prelude();
    assert_eq!(
        lines,
        vec![
            "pub type uint8_t = u8;",
            "pub type int8_t = i8;",
            "pub type uint16_t = u16;",
            "pub type int16_t = i16;",
            "pub type uint32_t = u32;",
            "pub type int32_t = i32;",
            "pub type uint64_t = u64;",
            "pub type int64_t = i64;",
            "pub type uint128_t = u128;",
            "pub type int128_t = i128;",
        ]
    );
}

#[test]
fn inline_function_types_flow_into_constants() {
    let mut ctx = Ctx::default();
    ctx.define_inline_fn_type("BIT", RustType::from_name("core::ffi::c_int"));
    let mut cb = Callbacks::new(ctx);
    let call = node(Expression::Call(Box::new(node(hack_bindgen::ast::CallExpression {
        callee: Box::new(ident("BIT")),
        arguments: vec![int_const("4")],
    }))));
    cb.define("FLAG4", Some(call), None);
    assert_eq!(
        const_decl_replacement(cb.context(), "FLAG4", "FLAG4"),
        "pub const FLAG4: core::ffi::c_int = unsafe {BIT(4 as core::ffi::c_int)};"
    );
}

#[test]
fn expression_reading_wins_over_type_name() {
    let mut cb = Callbacks::default();
    assert!(cb.define("BOTH", Some(int_const("2")), Some(char_pointer())));
    assert_eq!(
        const_decl_replacement(cb.context(), "BOTH", "BOTH"),
        "pub const BOTH: core::ffi::c_int = unsafe {2 as core::ffi::c_int};"
    );
    assert!(matches!(
        MacroDefinition::from_parses(Some(int_const("2")), Some(char_pointer())),
        Some(MacroDefinition::Expression(_))
    ));
    assert!(matches!(MacroDefinition::from_parses(None, Some(char_pointer())), Some(MacroDefinition::TypeName(_))));
    assert!(MacroDefinition::from_parses(None, None).is_none());
}

#[test]
fn marked_macro_round_trips_through_post_processing() {
    let mut cb = Callbacks::default();
    let mut tokens = macro_tokens("MASK_2", &["(", "1", "<<", "3", ")"]);
    cb.modify_macro("MASK_2", &mut tokens, Some(shift(int_const("1"), int_const("3"))), None);
    assert_eq!(tokens[1].raw, b"\"hack_bindgen_macro:MASK_2\"".to_vec());
    let mut code = String::from("pub const MASK_2: &[u8; 26] = b\"hack_bindgen_macro:MASK_2\\0\";\n");
    cb.post_processing(&mut code);
    assert_eq!(
        code,
        "pub const MASK_2: core::ffi::c_int = unsafe {((1 as core::ffi::c_int) << ((3 as core::ffi::c_int) as i32))};\n"
    );
}

#[test]
fn rewrite_bindings_decodes_and_rewrites() {
    let mut cb = Callbacks::default();
    cb.define("ONE", Some(int_const("1")), None);
    let bytes = b"pub const ONE: &[u8; 23] = b\"hack_bindgen_macro:ONE\\0\";\n// \xff\n".to_vec();
    assert_eq!(
        cb.rewrite_bindings(&bytes),
        "pub const ONE: core::ffi::c_int = unsafe {1 as core::ffi::c_int};\n// \u{fffd}\n"
    );
}
