//! The mathematical model of the translation: what a C type name or expression
//! translates into, as functions on the syntax tree, and when the translation completes.
use crate::ast::{
    ArraySize, BinaryOperator, Constant, DeclarationSpecifier, DerivedDeclarator, Designator,
    Ellipsis, Expression, Float, FloatBase, FloatFormat, FloatSuffix, FunctionDeclarator,
    Initializer, InitializerListItem, IntegerBase, IntegerSize, IntegerSuffix, MemberOperator,
    Node, ParameterDeclaration, PointerQualifier, SpecifierQualifier, TypeName, TypeQualifier,
    TypeSpecifier, UnaryOperator,
};
use crate::literal::{LiteralChar, LiteralInfo, c_literal};
use crate::text::{decimal, escape_ascii, join};
use crate::translate::InlineFunction;
use vstd::prelude::*;
use vstd::utf8::encode_utf8;

verus! {

/// A Rust type being built from C specifiers and declarators.
pub struct TypeInfo {
    /// The Rust type, as source text.
    pub name: Seq<char>,
    pub is_array: bool,
    /// Qualifiers met so far; they steer the translation and are not part of the result.
    pub has_const: bool,
    pub has_signed: bool,
    pub has_unsigned: bool,
}

/// A translated expression: its Rust type when known, and its Rust source text.
pub struct ExprInfo {
    pub ty: Option<TypeInfo>,
    pub text: Seq<char>,
}

/// What a macro definition was translated into.
pub enum MacroInfo {
    Expression(ExprInfo),
    TypeName(TypeInfo),
}

/// The definitions that a translation can refer to: translated macros, and the inline
/// functions that translate calls of their names.
pub struct Scope<F> {
    pub macros: Map<Seq<char>, MacroInfo>,
    pub inline_fns: Map<Seq<char>, F>,
}

/// A type with name `n` and no flags set.
pub open spec fn named(n: Seq<char>) -> TypeInfo {
    TypeInfo { name: n, is_array: false, has_const: false, has_signed: false, has_unsigned: false }
}

/// `t` with its name replaced by `n`.
pub open spec fn renamed(t: TypeInfo, n: Seq<char>) -> TypeInfo {
    TypeInfo { name: n, ..t }
}

/// The Rust name of C's `int`.
pub open spec fn c_int_name() -> Seq<char> {
    "core::ffi::c_int"@
}

/// The Rust type of an integer constant with the given suffix.
pub open spec fn integer_type_name(s: IntegerSuffix) -> Seq<char> {
    match (s.size, s.unsigned) {
        (IntegerSize::Int, false) => "core::ffi::c_int"@,
        (IntegerSize::Int, true) => "core::ffi::c_uint"@,
        (IntegerSize::Long, false) => "core::ffi::c_long"@,
        (IntegerSize::Long, true) => "core::ffi::c_ulong"@,
        (IntegerSize::LongLong, false) => "core::ffi::c_longlong"@,
        (IntegerSize::LongLong, true) => "core::ffi::c_ulonglong"@,
    }
}

/// The Rust type of a floating constant with the given suffix.
pub open spec fn float_type_name(s: FloatSuffix) -> Seq<char> {
    match s.format {
        FloatFormat::Float => "core::ffi::c_float"@,
        FloatFormat::Double => "core::ffi::c_double"@,
        FloatFormat::LongDouble => "LongDouble"@,
        FloatFormat::TS18661Format => "TS18661Format"@,
    }
}

/// Whether the translation handles the type specifier (the others abort it).
pub open spec fn specifier_supported(s: TypeSpecifier) -> bool {
    match s {
        TypeSpecifier::Signed | TypeSpecifier::Unsigned | TypeSpecifier::Complex
        | TypeSpecifier::Atomic | TypeSpecifier::TypeOf | TypeSpecifier::TS18661Float => false,
        _ => true,
    }
}

/// The effect of a type specifier.
pub open spec fn specifier_type(t: TypeInfo, s: TypeSpecifier) -> TypeInfo {
    match s {
        TypeSpecifier::Void => renamed(t, "core::ffi::c_void"@),
        TypeSpecifier::Char => if t.has_unsigned {
            renamed(t, "core::ffi::c_uchar"@)
        } else if t.has_signed {
            renamed(t, "core::ffi::c_schar"@)
        } else {
            renamed(t, "core::ffi::c_char"@)
        },
        TypeSpecifier::Short => if t.has_unsigned {
            renamed(t, "core::ffi::c_ushort"@)
        } else {
            renamed(t, "core::ffi::c_short"@)
        },
        TypeSpecifier::Int => if t.has_unsigned {
            renamed(t, "core::ffi::c_uint"@)
        } else {
            renamed(t, "core::ffi::c_int"@)
        },
        TypeSpecifier::Long => if t.has_unsigned {
            renamed(t, "core::ffi::c_ulong"@)
        } else {
            renamed(t, "core::ffi::c_long"@)
        },
        TypeSpecifier::Float => renamed(t, "core::ffi::c_float"@),
        TypeSpecifier::Double => renamed(t, "core::ffi::c_double"@),
        TypeSpecifier::Bool => renamed(t, "bool"@),
        TypeSpecifier::Struct(v) => match v.node.identifier {
            Some(id) => renamed(t, id.node.name@),
            None => t,
        },
        TypeSpecifier::Enum(v) => match v.node.identifier {
            Some(id) => renamed(t, id.node.name@),
            None => t,
        },
        TypeSpecifier::TypedefName(v) => renamed(t, v.node.name@),
        _ => t,
    }
}

/// The effect of a type qualifier: `const` is remembered.
pub open spec fn qualifier_type(t: TypeInfo, q: TypeQualifier) -> TypeInfo {
    if q == TypeQualifier::Const {
        TypeInfo { has_const: true, ..t }
    } else {
        t
    }
}

pub open spec fn declaration_specifier_supported(d: DeclarationSpecifier) -> bool {
    match d {
        DeclarationSpecifier::TypeSpecifier(p) => specifier_supported(p.node),
        _ => true,
    }
}

/// The effect of a declaration specifier.
pub open spec fn declaration_specifier_type(t: TypeInfo, d: DeclarationSpecifier) -> TypeInfo {
    match d {
        DeclarationSpecifier::TypeSpecifier(p) => specifier_type(t, p.node),
        DeclarationSpecifier::TypeQualifier(q) => qualifier_type(t, q.node),
        _ => t,
    }
}

pub open spec fn specifier_qualifier_supported(s: SpecifierQualifier) -> bool {
    match s {
        SpecifierQualifier::TypeSpecifier(p) => specifier_supported(p.node),
        _ => true,
    }
}

/// The effect of a specifier or qualifier of a type name.
pub open spec fn specifier_qualifier_type(t: TypeInfo, s: SpecifierQualifier) -> TypeInfo {
    match s {
        SpecifierQualifier::TypeSpecifier(p) => specifier_type(t, p.node),
        SpecifierQualifier::TypeQualifier(q) => qualifier_type(t, q.node),
        SpecifierQualifier::Extension => t,
    }
}

/// The effect of declaration specifiers, applied in order.
pub open spec fn declaration_specifiers_type(
    t: TypeInfo,
    ds: Seq<Node<DeclarationSpecifier>>,
) -> TypeInfo
    decreases ds.len(),
{
    if ds.len() == 0 {
        t
    } else {
        declaration_specifier_type(declaration_specifiers_type(t, ds.drop_last()), ds.last().node)
    }
}

pub open spec fn declaration_specifiers_supported(ds: Seq<Node<DeclarationSpecifier>>) -> bool {
    forall|i: int| 0 <= i < ds.len() ==> declaration_specifier_supported(#[trigger] ds[i].node)
}

/// The effect of the specifiers and qualifiers of a type name, applied in order.
pub open spec fn specifier_qualifiers_type(t: TypeInfo, ss: Seq<Node<SpecifierQualifier>>) -> TypeInfo
    decreases ss.len(),
{
    if ss.len() == 0 {
        t
    } else {
        specifier_qualifier_type(specifier_qualifiers_type(t, ss.drop_last()), ss.last().node)
    }
}

pub open spec fn specifier_qualifiers_supported(ss: Seq<Node<SpecifierQualifier>>) -> bool {
    forall|i: int| 0 <= i < ss.len() ==> specifier_qualifier_supported(#[trigger] ss[i].node)
}

/// The type that a parameter declaration names (its declarator is not read).
pub open spec fn parameter_type(p: ParameterDeclaration) -> TypeInfo {
    declaration_specifiers_type(named(Seq::empty()), p.specifiers@)
}

/// The argument list of a function declarator: the parameter types, then `...` for a
/// variadic function; a lone `void` stands for no arguments.
pub open spec fn function_arguments(f: FunctionDeclarator) -> Seq<Seq<char>> {
    let params = f.parameters@.map_values(|p: Node<ParameterDeclaration>| parameter_type(p.node).name);
    let args = if f.ellipsis == Ellipsis::Present {
        params.push("..."@)
    } else {
        params
    };
    if args.len() == 1 && args[0] == "void"@ {
        Seq::empty()
    } else {
        args
    }
}

/// The effect of the qualifiers of a pointer: `const` is remembered.
pub open spec fn pointer_qualifiers_type(t: TypeInfo, qs: Seq<Node<PointerQualifier>>) -> TypeInfo
    decreases qs.len(),
{
    if qs.len() == 0 {
        t
    } else {
        let t1 = pointer_qualifiers_type(t, qs.drop_last());
        match qs.last().node {
            PointerQualifier::TypeQualifier(q) => if q.node == TypeQualifier::Const {
                TypeInfo { has_const: true, ..t1 }
            } else {
                t1
            },
            PointerQualifier::Extension => t1,
        }
    }
}

/// The Rust type of a pointer to `t`.
pub open spec fn pointer_name(t: TypeInfo) -> Seq<char> {
    if t.has_const {
        "*const "@ + t.name
    } else {
        "*mut "@ + t.name
    }
}

/// The Rust type of a function returning `t`.
pub open spec fn function_name(t: TypeInfo, f: FunctionDeclarator) -> Seq<char> {
    "Option<extern \"C\" fn("@ + join(function_arguments(f), ", "@) + ") -> "@ + t.name + ">"@
}

/// The prefix that marks the base of an integer constant.
pub open spec fn base_prefix(b: IntegerBase) -> Seq<char> {
    match b {
        IntegerBase::Decimal => ""@,
        IntegerBase::Octal => "0"@,
        IntegerBase::Hexadecimal => "0x"@,
        IntegerBase::Binary => "0b"@,
    }
}

/// The width suffix of a floating constant.
pub open spec fn float_width(f: FloatFormat) -> Seq<char> {
    match f {
        FloatFormat::Float => "f"@,
        FloatFormat::Double => ""@,
        FloatFormat::LongDouble => "l"@,
        FloatFormat::TS18661Format => ""@,
    }
}

/// The text of a floating constant.
pub open spec fn float_text(f: Float) -> Seq<char> {
    let ty = float_type_name(f.suffix);
    if f.base == FloatBase::Hexadecimal {
        let w = float_width(f.suffix.format);
        match c_literal(encode_utf8("0x"@ + f.number@ + w)) {
            Some(LiteralInfo::Float(s)) => s + w + " as "@ + ty,
            _ => f.number@ + " as "@ + ty,
        }
    } else {
        f.number@ + " as "@ + ty
    }
}

/// The translation of a constant.
pub open spec fn constant_info(c: Constant) -> ExprInfo {
    match c {
        Constant::Integer(i) => ExprInfo {
            ty: Some(named(integer_type_name(i.suffix))),
            text: base_prefix(i.base) + i.number@ + " as "@ + integer_type_name(i.suffix),
        },
        Constant::Float(f) => ExprInfo {
            ty: Some(named(float_type_name(f.suffix))),
            text: float_text(f),
        },
        Constant::Character(s) => ExprInfo {
            ty: Some(named("core::ffi::c_char"@)),
            text: s@ + " as "@ + "core::ffi::c_char"@,
        },
    }
}

/// The bytes of a string literal token, when `cexpr` reads it as a string.
pub open spec fn string_piece_bytes(piece: String) -> Seq<u8> {
    match c_literal(encode_utf8(piece@)) {
        Some(LiteralInfo::Str(v)) => v,
        _ => Seq::empty(),
    }
}

/// Whether `cexpr` reads the token as a string.
pub open spec fn string_piece_ok(piece: String) -> bool {
    c_literal(encode_utf8(piece@)) matches Some(LiteralInfo::Str(_))
}

/// The bytes of adjacent string literal tokens, concatenated.
pub open spec fn string_bytes(pieces: Seq<String>) -> Seq<u8>
    decreases pieces.len(),
{
    if pieces.len() == 0 {
        Seq::empty()
    } else {
        string_bytes(pieces.drop_last()) + string_piece_bytes(pieces.last())
    }
}

/// The translation of a string literal: a byte string with a terminating NUL.
pub open spec fn string_literal_info(pieces: Seq<String>) -> ExprInfo {
    let bytes = string_bytes(pieces).push(0u8);
    ExprInfo {
        ty: Some(
            TypeInfo {
                name: "&[u8; "@ + decimal(bytes.len()) + "]"@,
                is_array: true,
                has_const: false,
                has_signed: false,
                has_unsigned: false,
            },
        ),
        text: "b\""@ + escape_ascii(bytes) + "\""@,
    }
}

/// The text around the operand of a unary operator.
pub open spec fn unary_parts(op: UnaryOperator) -> (Seq<char>, Seq<char>) {
    match op {
        UnaryOperator::PostIncrement => ("{let p = &mut ("@, "); let v = *p; *p += 1; v}"@),
        UnaryOperator::PostDecrement => ("{let p = &mut ("@, "); let v = *p; *p -= 1; v}"@),
        UnaryOperator::PreIncrement => ("{let p = &mut ("@, "); *p += 1; *p}"@),
        UnaryOperator::PreDecrement => ("{let p = &mut ("@, "); *p -= 1; *p}"@),
        UnaryOperator::Address => ("(&raw const ("@, ")).cast_mut()"@),
        UnaryOperator::Indirection => ("*("@, ")"@),
        UnaryOperator::Plus => ("("@, ")"@),
        UnaryOperator::Minus => ("-("@, ")"@),
        UnaryOperator::Complement => ("!("@, ")"@),
        UnaryOperator::Negate => ("(("@, ") == 0) as core::ffi::c_int"@),
    }
}

/// The type of a unary expression, from the type of its operand.
pub open spec fn unary_type(op: UnaryOperator, t: Option<TypeInfo>) -> Option<TypeInfo> {
    match op {
        UnaryOperator::Address => match t {
            Some(i) => Some(named("*mut ("@ + i.name + ")"@)),
            None => None,
        },
        UnaryOperator::Indirection => None,
        UnaryOperator::Negate => Some(named("bool"@)),
        _ => t,
    }
}

/// The text before, between and after the operands of a binary operator.
pub open spec fn binary_parts(op: BinaryOperator) -> (Seq<char>, Seq<char>, Seq<char>) {
    match op {
        BinaryOperator::Index => ("("@, ")["@, "]"@),
        BinaryOperator::Multiply => ("("@, ") * ("@, ")"@),
        BinaryOperator::Divide => ("("@, ") / ("@, ")"@),
        BinaryOperator::Modulo => ("("@, ") % ("@, ")"@),
        BinaryOperator::Plus => ("("@, ") + ("@, ")"@),
        BinaryOperator::Minus => ("("@, ") - ("@, ")"@),
        BinaryOperator::ShiftLeft => ("(("@, ") << (("@, ") as i32))"@),
        BinaryOperator::ShiftRight => ("(("@, ") >> (("@, ") as i32))"@),
        BinaryOperator::Less => ("(("@, ") < ("@, ")) as core::ffi::c_int"@),
        BinaryOperator::Greater => ("(("@, ") > ("@, ")) as core::ffi::c_int"@),
        BinaryOperator::LessOrEqual => ("(("@, ") <= ("@, ")) as core::ffi::c_int"@),
        BinaryOperator::GreaterOrEqual => ("(("@, ") >= ("@, ")) as core::ffi::c_int"@),
        BinaryOperator::Equals => ("(("@, ") == ("@, ")) as core::ffi::c_int"@),
        BinaryOperator::NotEquals => ("(("@, ") != ("@, ")) as core::ffi::c_int"@),
        BinaryOperator::BitwiseAnd => ("(("@, ") & ("@, "))"@),
        BinaryOperator::BitwiseXor => ("(("@, ") ^ ("@, "))"@),
        BinaryOperator::BitwiseOr => ("(("@, ") | ("@, "))"@),
        BinaryOperator::LogicalAnd => ("((("@, ") as bool) && (("@, ") as bool)) as core::ffi::c_int"@),
        BinaryOperator::LogicalOr => ("((("@, ") as bool) || (("@, ") as bool)) as core::ffi::c_int"@),
        BinaryOperator::Assign => ("{let p = &mut "@, "; *p = "@, "; *p}"@),
        BinaryOperator::AssignMultiply => ("{let p = &mut "@, "; *p += "@, "; *p}"@),
        BinaryOperator::AssignDivide => ("{let p = &mut "@, "; *p /= "@, "; *p}"@),
        BinaryOperator::AssignModulo => ("{let p = &mut "@, "; *p %= "@, "; *p}"@),
        BinaryOperator::AssignPlus => ("{let p = &mut "@, "; *p += "@, "; *p}"@),
        BinaryOperator::AssignMinus => ("{let p = &mut "@, "; *p -= "@, "; *p}"@),
        BinaryOperator::AssignShiftLeft => ("{let p = &mut "@, "; *p <<= ("@, " as i32); *p}"@),
        BinaryOperator::AssignShiftRight => ("{let p = &mut "@, "; *p >>= ("@, " as i32); *p}"@),
        BinaryOperator::AssignBitwiseAnd => ("{let p = &mut "@, "; *p &= "@, "; *p}"@),
        BinaryOperator::AssignBitwiseXor => ("{let p = &mut "@, "; *p ^= "@, "; *p}"@),
        BinaryOperator::AssignBitwiseOr => ("{let p = &mut "@, "; *p |= "@, "; *p}"@),
    }
}

/// The first of two optional types that is present.
pub open spec fn either(a: Option<TypeInfo>, b: Option<TypeInfo>) -> Option<TypeInfo> {
    match a {
        Some(t) => Some(t),
        None => b,
    }
}

/// The type of a binary expression, from the types of its operands.
pub open spec fn binary_type(
    op: BinaryOperator,
    l: Option<TypeInfo>,
    r: Option<TypeInfo>,
) -> Option<TypeInfo> {
    match op {
        BinaryOperator::Index => None,
        BinaryOperator::ShiftLeft | BinaryOperator::ShiftRight | BinaryOperator::AssignShiftLeft
        | BinaryOperator::AssignShiftRight => l,
        BinaryOperator::Less | BinaryOperator::Greater | BinaryOperator::LessOrEqual
        | BinaryOperator::GreaterOrEqual | BinaryOperator::Equals | BinaryOperator::NotEquals
        | BinaryOperator::LogicalAnd | BinaryOperator::LogicalOr => Some(named(c_int_name())),
        _ => either(l, r),
    }
}

/// The texts of a sequence of translations.
pub open spec fn texts(es: Seq<ExprInfo>) -> Seq<Seq<char>> {
    es.map_values(|e: ExprInfo| e.text)
}

/// The index that a designator list sets for the following items, when its first
/// designator is an index that `cexpr` reads as an integer or a character.
pub open spec fn designated_index(text: Seq<char>, index: u128) -> u128 {
    match c_literal(encode_utf8(text)) {
        Some(LiteralInfo::Int(s)) => s as u128,
        Some(LiteralInfo::Char(LiteralChar::Char(c))) => c as u128,
        Some(LiteralInfo::Char(LiteralChar::Raw(r))) => r as u128,
        _ => index,
    }
}

// ---------------------------------------------------------------------------
// Translation of expressions and type names
// ---------------------------------------------------------------------------
/// The translation of an expression.
pub open spec fn expr_info<F: InlineFunction>(e: Expression, scope: Scope<F>) -> ExprInfo
    decreases e,
{
    match e {
        Expression::Identifier(v) => ExprInfo {
            ty: if scope.macros.contains_key(v.node.name@) {
                match scope.macros[v.node.name@] {
                    MacroInfo::Expression(m) => m.ty,
                    MacroInfo::TypeName(_) => None,
                }
            } else {
                None
            },
            text: v.node.name@,
        },
        Expression::Constant(v) => constant_info(v.node),
        Expression::StringLiteral(v) => string_literal_info(v.node.pieces@),
        Expression::GenericSelection(v) => ExprInfo { ty: None, text: v.node.rendered@ },
        Expression::Member(v) => {
            let inner = expr_info(v.node.expression.node, scope).text;
            if v.node.operator.node == MemberOperator::Direct {
                ExprInfo { ty: None, text: "("@ + inner + ")."@ + v.node.identifier.node.name@ }
            } else {
                ExprInfo {
                    ty: None,
                    text: "(*("@ + inner + "))."@ + v.node.identifier.node.name@,
                }
            }
        },
        Expression::Call(v) => {
            let args = join(texts(exprs_info(v.node.arguments@, scope)), ", "@);
            match v.node.callee.node {
                Expression::Identifier(f) => if scope.inline_fns.contains_key(f.node.name@) {
                    scope.inline_fns[f.node.name@].translate_call(
                        exprs_info(v.node.arguments@, scope),
                        scope,
                    )
                } else {
                    ExprInfo { ty: None, text: f.node.name@ + "("@ + args + ")"@ }
                },
                _ => ExprInfo {
                    ty: None,
                    text: "("@ + expr_info(v.node.callee.node, scope).text + ")("@ + args + ")"@,
                },
            }
        },
        Expression::CompoundLiteral(v) => {
            let ty = type_name_info(v.node.ty.node, scope);
            ExprInfo {
                ty: Some(ty),
                text: "unsafe {let mut v = core::mem::zeroed::<"@ + ty.name + ">(); "@ + init_items(
                    v.node.initializer_list@,
                    scope,
                    0,
                ).0 + " v}"@,
            }
        },
        Expression::SizeOfTy(v) => ExprInfo {
            ty: Some(named("usize"@)),
            text: "size_of::<"@ + type_name_info(v.node.ty.node, scope).name + ">()"@,
        },
        Expression::SizeOfVal(_) => ExprInfo { ty: None, text: Seq::empty() },
        Expression::AlignOf(v) => ExprInfo {
            ty: Some(named("usize"@)),
            text: "align_of::<"@ + type_name_info(v.node.ty.node, scope).name + ">()"@,
        },
        Expression::UnaryOperator(v) => {
            let o = expr_info(v.node.operand.node, scope);
            let parts = unary_parts(v.node.operator.node);
            ExprInfo { ty: unary_type(v.node.operator.node, o.ty), text: parts.0 + o.text + parts.1 }
        },
        Expression::Cast(v) => {
            let o = expr_info(v.node.expression.node, scope);
            let ty = type_name_info(v.node.ty.node, scope);
            ExprInfo { ty: Some(ty), text: o.text + " as "@ + ty.name }
        },
        Expression::BinaryOperator(v) => {
            let l = expr_info(v.node.lhs.node, scope);
            let r = expr_info(v.node.rhs.node, scope);
            let parts = binary_parts(v.node.operator.node);
            ExprInfo {
                ty: binary_type(v.node.operator.node, l.ty, r.ty),
                text: parts.0 + l.text + parts.1 + r.text + parts.2,
            }
        },
        Expression::Conditional(v) => {
            let c = expr_info(v.node.condition.node, scope);
            let t = expr_info(v.node.then_expression.node, scope);
            let f = expr_info(v.node.else_expression.node, scope);
            ExprInfo {
                ty: either(t.ty, f.ty),
                text: "if "@ + c.text + " {"@ + t.text + "} else {"@ + f.text + "}"@,
            }
        },
        Expression::Comma(v) => {
            let es = exprs_info(v@, scope);
            ExprInfo {
                ty: if es.len() == 0 {
                    None
                } else {
                    es.last().ty
                },
                text: "{"@ + join(texts(es), ";"@) + "}"@,
            }
        },
        Expression::OffsetOf => ExprInfo { ty: None, text: Seq::empty() },
        Expression::VaArg => ExprInfo { ty: None, text: Seq::empty() },
        Expression::Statement => ExprInfo { ty: None, text: Seq::empty() },
    }
}

/// The translations of a sequence of expressions.
pub open spec fn exprs_info<F: InlineFunction>(es: Seq<Node<Expression>>, scope: Scope<F>) -> Seq<ExprInfo>
    decreases es,
{
    if es.len() == 0 {
        Seq::empty()
    } else {
        exprs_info(es.drop_last(), scope).push(expr_info(es.last().node, scope))
    }
}

/// The Rust type that a type name denotes.
pub open spec fn type_name_info<F: InlineFunction>(tn: TypeName, scope: Scope<F>) -> TypeInfo
    decreases tn,
{
    let t = specifier_qualifiers_type(named(Seq::empty()), tn.specifiers@);
    match tn.declarator {
        Some(d) => derived_type(t, d.node.derived@, scope),
        None => t,
    }
}

/// The effect of one derived declarator (pointer, array, function).
pub open spec fn derived_step<F: InlineFunction>(t: TypeInfo, d: DerivedDeclarator, scope: Scope<F>) -> TypeInfo
    decreases d,
{
    match d {
        DerivedDeclarator::Pointer(qs) => pointer_qualifiers_type(renamed(t, pointer_name(t)), qs@),
        DerivedDeclarator::Array(a) => match a.node.size {
            ArraySize::VariableExpression(e) => TypeInfo {
                name: "["@ + t.name + "; "@ + expr_info(e.node, scope).text + "]"@,
                is_array: true,
                ..t
            },
            ArraySize::StaticExpression(e) => TypeInfo {
                name: "["@ + t.name + "; "@ + expr_info(e.node, scope).text + "]"@,
                is_array: true,
                ..t
            },
            _ => TypeInfo { name: "["@ + t.name + "]"@, is_array: true, ..t },
        },
        DerivedDeclarator::Function(f) => renamed(t, function_name(t, f.node)),
        _ => t,
    }
}

/// The effect of derived declarators, applied in order.
pub open spec fn derived_type<F: InlineFunction>(t: TypeInfo, ds: Seq<Node<DerivedDeclarator>>, scope: Scope<F>) -> TypeInfo
    decreases ds,
{
    if ds.len() == 0 {
        t
    } else {
        derived_step(derived_type(t, ds.drop_last(), scope), ds.last().node, scope)
    }
}

/// One designator, as text.
pub open spec fn designator_text<F: InlineFunction>(d: Designator, scope: Scope<F>) -> Seq<char>
    decreases d,
{
    match d {
        Designator::Index(e) => "["@ + expr_info(e.node, scope).text + "]"@,
        Designator::Member(id) => "."@ + id.node.name@,
        Designator::Range(r) => expr_info(r.node.from.node, scope).text + ".."@ + expr_info(
            r.node.to.node,
            scope,
        ).text + "]"@,
    }
}

/// The designators of an initializer list item, as text.
pub open spec fn designator_texts<F: InlineFunction>(ds: Seq<Node<Designator>>, scope: Scope<F>) -> Seq<Seq<char>>
    decreases ds,
{
    if ds.len() == 0 {
        Seq::empty()
    } else {
        designator_texts(ds.drop_last(), scope).push(designator_text(ds.last().node, scope))
    }
}

/// The statements that initialize `v` for one initializer list item, and the index
/// that the following items use. Items without designation are written to `v<index>`.
pub open spec fn init_item<F: InlineFunction>(item: InitializerListItem, scope: Scope<F>, index: u128) -> (
    Seq<char>,
    u128,
)
    decreases item,
{
    let (new_index, target) = if item.designation@.len() == 0 {
        (index, decimal(index as nat))
    } else {
        let new_index = match item.designation@[0].node {
            Designator::Index(e) => designated_index(expr_info(e.node, scope).text, index),
            _ => index,
        };
        (new_index, join(designator_texts(item.designation@, scope), ""@))
    };
    let code = match item.initializer.node {
        Initializer::Expression(e) => "v"@ + target + " = "@ + expr_info(e.node, scope).text
            + ";\n"@,
        Initializer::List(l) => init_items(l@, scope, 0).0,
    };
    (code, new_index)
}

/// The statements of initializer list items, with the index threaded through them.
pub open spec fn init_items<F: InlineFunction>(items: Seq<Node<InitializerListItem>>, scope: Scope<F>, index: u128) -> (
    Seq<char>,
    u128,
)
    decreases items,
{
    if items.len() == 0 {
        (Seq::empty(), index)
    } else {
        let (code, i1) = init_items(items.drop_last(), scope, index);
        let (code2, i2) = init_item(items.last().node, scope, i1);
        (code + code2, i2)
    }
}

// ---------------------------------------------------------------------------
// When the translation completes
// ---------------------------------------------------------------------------
/// Whether the translation of the expression completes: every type specifier in it is
/// supported and every string literal token in it is read by `cexpr` as a string.
pub open spec fn expr_ok(e: Expression) -> bool
    decreases e,
{
    match e {
        Expression::StringLiteral(v) => forall|i: int|
            0 <= i < v.node.pieces@.len() ==> string_piece_ok(#[trigger] v.node.pieces@[i]),
        Expression::Member(v) => expr_ok(v.node.expression.node),
        Expression::Call(v) => exprs_ok(v.node.arguments@) && match v.node.callee.node {
            Expression::Identifier(_) => true,
            _ => expr_ok(v.node.callee.node),
        },
        Expression::CompoundLiteral(v) => type_name_ok(v.node.ty.node) && items_ok(
            v.node.initializer_list@,
        ),
        Expression::SizeOfTy(v) => type_name_ok(v.node.ty.node),
        Expression::AlignOf(v) => type_name_ok(v.node.ty.node),
        Expression::UnaryOperator(v) => expr_ok(v.node.operand.node),
        Expression::Cast(v) => expr_ok(v.node.expression.node) && type_name_ok(v.node.ty.node),
        Expression::BinaryOperator(v) => expr_ok(v.node.lhs.node) && expr_ok(v.node.rhs.node),
        Expression::Conditional(v) => expr_ok(v.node.condition.node) && expr_ok(
            v.node.then_expression.node,
        ) && expr_ok(v.node.else_expression.node),
        Expression::Comma(v) => exprs_ok(v@),
        _ => true,
    }
}

/// Whether the translations of all the expressions complete.
pub open spec fn exprs_ok(es: Seq<Node<Expression>>) -> bool
    decreases es,
{
    if es.len() == 0 {
        true
    } else {
        exprs_ok(es.drop_last()) && expr_ok(es.last().node)
    }
}

/// Whether the translation of the type name completes.
pub open spec fn type_name_ok(tn: TypeName) -> bool
    decreases tn,
{
    specifier_qualifiers_supported(tn.specifiers@) && match tn.declarator {
        Some(d) => derived_ok(d.node.derived@),
        None => true,
    }
}

/// Whether the translation of one derived declarator completes.
pub open spec fn derived_step_ok(d: DerivedDeclarator) -> bool
    decreases d,
{
    match d {
        DerivedDeclarator::Array(a) => match a.node.size {
            ArraySize::VariableExpression(e) => expr_ok(e.node),
            ArraySize::StaticExpression(e) => expr_ok(e.node),
            _ => true,
        },
        DerivedDeclarator::Function(f) => forall|i: int|
            0 <= i < f.node.parameters@.len() ==> declaration_specifiers_supported(
                (#[trigger] f.node.parameters@[i]).node.specifiers@,
            ),
        _ => true,
    }
}

/// Whether the translation of the derived declarators completes.
pub open spec fn derived_ok(ds: Seq<Node<DerivedDeclarator>>) -> bool
    decreases ds,
{
    if ds.len() == 0 {
        true
    } else {
        derived_ok(ds.drop_last()) && derived_step_ok(ds.last().node)
    }
}

/// Whether the translation of one designator completes.
pub open spec fn designator_ok(d: Designator) -> bool
    decreases d,
{
    match d {
        Designator::Index(e) => expr_ok(e.node),
        Designator::Member(_) => true,
        Designator::Range(r) => expr_ok(r.node.from.node) && expr_ok(r.node.to.node),
    }
}

/// Whether the translation of the designators completes.
pub open spec fn designators_ok(ds: Seq<Node<Designator>>) -> bool
    decreases ds,
{
    if ds.len() == 0 {
        true
    } else {
        designators_ok(ds.drop_last()) && designator_ok(ds.last().node)
    }
}

/// Whether the translation of an initializer list item completes.
pub open spec fn item_ok(item: InitializerListItem) -> bool
    decreases item,
{
    designators_ok(item.designation@) && match item.initializer.node {
        Initializer::Expression(e) => expr_ok(e.node),
        Initializer::List(l) => items_ok(l@),
    }
}

/// Whether the translations of initializer list items complete.
pub open spec fn items_ok(items: Seq<Node<InitializerListItem>>) -> bool
    decreases items,
{
    if items.len() == 0 {
        true
    } else {
        items_ok(items.drop_last()) && item_ok(items.last().node)
    }
}


pub(crate) proof fn lemma_exprs_ok(es: Seq<Node<Expression>>)
    requires
        exprs_ok(es),
    ensures
        forall|i: int| 0 <= i < es.len() ==> expr_ok(#[trigger] es[i].node),
    decreases es.len(),
{
    if es.len() > 0 {
        lemma_exprs_ok(es.drop_last());
        assert forall|i: int| 0 <= i < es.len() implies expr_ok(#[trigger] es[i].node) by {
            if i < es.len() - 1 {
                assert(es.drop_last()[i] == es[i]);
            }
        }
    }
}

pub(crate) proof fn lemma_derived_ok(ds: Seq<Node<DerivedDeclarator>>)
    requires
        derived_ok(ds),
    ensures
        forall|i: int| 0 <= i < ds.len() ==> derived_step_ok(#[trigger] ds[i].node),
    decreases ds.len(),
{
    if ds.len() > 0 {
        lemma_derived_ok(ds.drop_last());
        assert forall|i: int| 0 <= i < ds.len() implies derived_step_ok(#[trigger] ds[i].node) by {
            if i < ds.len() - 1 {
                assert(ds.drop_last()[i] == ds[i]);
            }
        }
    }
}

pub(crate) proof fn lemma_designators_ok(ds: Seq<Node<Designator>>)
    requires
        designators_ok(ds),
    ensures
        forall|i: int| 0 <= i < ds.len() ==> designator_ok(#[trigger] ds[i].node),
    decreases ds.len(),
{
    if ds.len() > 0 {
        lemma_designators_ok(ds.drop_last());
        assert forall|i: int| 0 <= i < ds.len() implies designator_ok(#[trigger] ds[i].node) by {
            if i < ds.len() - 1 {
                assert(ds.drop_last()[i] == ds[i]);
            }
        }
    }
}

pub(crate) proof fn lemma_items_ok(items: Seq<Node<InitializerListItem>>)
    requires
        items_ok(items),
    ensures
        forall|i: int| 0 <= i < items.len() ==> item_ok(#[trigger] items[i].node),
    decreases items.len(),
{
    if items.len() > 0 {
        lemma_items_ok(items.drop_last());
        assert forall|i: int| 0 <= i < items.len() implies item_ok(#[trigger] items[i].node) by {
            if i < items.len() - 1 {
                assert(items.drop_last()[i] == items[i]);
            }
        }
    }
}

} // verus!
