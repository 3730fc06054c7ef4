//! Properties that hold across the translation functions.
use crate::ast::{
    AlignOf, ArrayDeclarator, Integer, IntegerBase, ArraySize, BinaryOperator, BinaryOperatorExpression,
    CallExpression, CastExpression, CompoundLiteral, ConditionalExpression, Constant,
    DeclarationSpecifier, DerivedDeclarator, Designator, Ellipsis, Expression, Float, FloatBase,
    FunctionDeclarator, Identifier, Initializer, InitializerListItem, Node,
    ParameterDeclaration, PointerQualifier, SizeOfTy, SpecifierQualifier, TypeQualifier,
    TypeSpecifier, UnaryOperator, UnaryOperatorExpression,
};
use crate::callbacks::{
    const_replacement, definition_info, marker_text, rejoin, replaced, translation_item,
    unknown_macro_comment, ConstDeclMatch, MacroDefinition,
};
use crate::model::{
    constant_info, declaration_specifier_supported, declaration_specifier_type, derived_ok,
    derived_step, derived_step_ok, derived_type, designator_text, designator_texts, expr_info,
    expr_ok, exprs_info, exprs_ok, float_type_name, function_arguments, integer_type_name, init_item, init_items, named,
    parameter_type, pointer_name, pointer_qualifiers_type, qualifier_type, renamed,
    specifier_qualifier_supported, specifier_qualifier_type, specifier_qualifiers_supported,
    specifier_supported, specifier_type, texts, type_name_info, type_name_ok, ExprInfo,
    MacroInfo, Scope, TypeInfo,
};
use crate::text::{decimal, escape_ascii, escape_byte, join};
use crate::translate::{InlineFn, InlineFunction};
use vstd::prelude::*;
use vstd::utf8::{encode_scalar, encode_utf8};

verus! {

/// An identifier that names a macro translated as an expression has that expression's
/// type; its text is the identifier itself.
pub proof fn law_macro_identifier<F: InlineFunction>(scope: Scope<F>, id: Identifier, def: ExprInfo)
    ensures
        ({
            let s = Scope {
                macros: scope.macros.insert(id.name@, MacroInfo::Expression(def)),
                inline_fns: scope.inline_fns,
            };
            let e = expr_info(Expression::Identifier(Box::new(Node { node: id })), s);
            e.ty == def.ty && e.text == id.name@
        }),
{
}

/// A call of a name under which an inline function is registered translates into what
/// that function makes of the call's translated arguments, in order.
pub proof fn law_inline_call<F: InlineFunction>(
    scope: Scope<F>,
    f: Identifier,
    g: F,
    args: Seq<Node<Expression>>,
    call: CallExpression,
)
    requires
        call.callee.node == Expression::Identifier(Box::new(Node { node: f })),
        call.arguments@ == args,
    ensures
        ({
            let s = Scope { macros: scope.macros, inline_fns: scope.inline_fns.insert(f.name@, g) };
            expr_info(Expression::Call(Box::new(Node { node: call })), s) == g.translate_call(
                exprs_info(args, s),
                s,
            )
        }),
{
}

/// A call of an inline function registered with a result type under its own name keeps
/// the call as written, with that result type.
pub proof fn law_typed_inline_call(
    scope: Scope<InlineFn>,
    f: Identifier,
    g: InlineFn,
    args: Seq<Node<Expression>>,
    call: CallExpression,
)
    requires
        g.name@ == f.name@,
        call.callee.node == Expression::Identifier(Box::new(Node { node: f })),
        call.arguments@ == args,
    ensures
        ({
            let s = Scope { macros: scope.macros, inline_fns: scope.inline_fns.insert(f.name@, g) };
            expr_info(Expression::Call(Box::new(Node { node: call })), s) == ExprInfo {
                ty: Some(g.result_type@),
                text: f.name@ + "("@ + join(texts(exprs_info(args, s)), ", "@) + ")"@,
            }
        }),
{
}

/// A generated constant whose marker names a macro translated as a typed expression is
/// replaced by a constant of that type whose value is the translation.
pub proof fn law_defined_macro_constant<F: InlineFunction>(
    scope: Scope<F>,
    id: Seq<char>,
    def: MacroDefinition,
    name: Seq<char>,
)
    requires
        definition_info(def, scope) matches MacroInfo::Expression(e) && e.ty is Some,
    ensures
        ({
            let e = definition_info(def, scope)->Expression_0;
            let s = Scope {
                macros: scope.macros.insert(id, definition_info(def, scope)),
                inline_fns: scope.inline_fns,
            };
            const_replacement(s, name, id) == "pub const "@ + name + ": "@ + e.ty->0.name
                + " = unsafe {"@ + e.text + "};"@
        }),
{
}

/// A generated constant whose marker names a macro translated as a type name is replaced
/// by a type alias.
pub proof fn law_defined_macro_type<F: InlineFunction>(scope: Scope<F>, id: Seq<char>, def: MacroDefinition, name: Seq<char>)
    requires
        definition_info(def, scope) is TypeName,
    ensures
        ({
            let t = definition_info(def, scope)->TypeName_0;
            let s = Scope {
                macros: scope.macros.insert(id, definition_info(def, scope)),
                inline_fns: scope.inline_fns,
            };
            const_replacement(s, name, id) == "pub type "@ + name + " = "@ + t.name + ";"@
        }),
{
}

/// Text in which the pattern does not match is left as it is by the rewriting.
pub proof fn law_no_match_unchanged<F>(scope: Scope<F>, ms: Seq<ConstDeclMatch>, tail: Seq<char>)
    requires
        ms.len() == 0,
    ensures
        replaced(scope, ms, tail) == rejoin(ms, tail),
{
}

/// Every character of an ASCII escape is printable ASCII (0x20..=0x7e).
pub proof fn law_escape_printable(bytes: Seq<u8>)
    ensures
        forall|i: int|
            0 <= i < escape_ascii(bytes).len() ==> 32 <= (#[trigger] escape_ascii(bytes)[i]) as u32
                <= 126,
    decreases bytes.len(),
{
    if bytes.len() > 0 {
        law_escape_printable(bytes.drop_last());
        let b = bytes.last();
        let e = escape_byte(b);
        assert(forall|i: int| 0 <= i < e.len() ==> 32 <= (#[trigger] e[i]) as u32 <= 126) by {
            if b / 16 < 10 {
            }
        }
        let whole = escape_ascii(bytes);
        assert(whole == escape_ascii(bytes.drop_last()) + e);
        assert forall|i: int| 0 <= i < whole.len() implies 32 <= (#[trigger] whole[i]) as u32 <= 126 by {
            if i < escape_ascii(bytes.drop_last()).len() {
                assert(whole[i] == escape_ascii(bytes.drop_last())[i]);
            } else {
                assert(whole[i] == e[i - escape_ascii(bytes.drop_last()).len()]);
            }
        }
    }
}

/// The marker that stands in for a macro is enclosed in double quotes and made of
/// printable ASCII only.
pub proof fn law_marker_is_string_literal(name: Seq<char>)
    ensures
        marker_text(name).len() >= 2,
        marker_text(name)[0] == '"',
        marker_text(name).last() == '"',
        forall|i: int|
            0 <= i < marker_text(name).len() ==> 32 <= (#[trigger] marker_text(name)[i]) as u32
                <= 126,
{
    reveal_strlit("\"");
    let inner = escape_ascii(encode_utf8("hack_bindgen_macro:"@ + name));
    law_escape_printable(encode_utf8("hack_bindgen_macro:"@ + name));
    let m = marker_text(name);
    assert(m == "\""@ + inner + "\""@);
    assert forall|i: int| 0 <= i < m.len() implies 32 <= (#[trigger] m[i]) as u32 <= 126 by {
        if i == 0 || i == m.len() - 1 {
        } else {
            assert(m[i] == inner[i - 1]);
        }
    }
}

/// A character that C allows in an identifier: an ASCII letter, digit or underscore.
pub open spec fn is_identifier_char(c: char) -> bool {
    ('a' <= c && c <= 'z') || ('A' <= c && c <= 'Z') || ('0' <= c && c <= '9') || c == '_'
}

/// A printable ASCII character that `escape_ascii` leaves as it is.
spec fn is_plain_char(c: char) -> bool {
    32 <= c as u32 <= 126 && c != '"' && c != '\'' && c != '\\'
}

proof fn lemma_encode_ascii(s: Seq<char>)
    requires
        forall|i: int| 0 <= i < s.len() ==> (#[trigger] s[i]) as u32 <= 127,
    ensures
        encode_utf8(s).len() == s.len(),
        forall|i: int| 0 <= i < s.len() ==> encode_utf8(s)[i] == #[trigger] s[i] as u32 as u8,
    decreases s.len(),
{
    if s.len() > 0 {
        let v = s[0] as u32;
        assert(v & 0x7f == v) by (bit_vector)
            requires
                v <= 127,
        ;
        assert(encode_scalar(v) =~= seq![v as u8]);
        lemma_encode_ascii(s.drop_first());
        assert forall|i: int| 0 <= i < s.len() implies encode_utf8(s)[i] == #[trigger] s[i] as u32 as u8 by {
            if i > 0 {
                assert(s[i] == s.drop_first()[i - 1]);
            }
        }
    }
}

proof fn lemma_escape_plain(bytes: Seq<u8>)
    requires
        forall|i: int| 0 <= i < bytes.len() ==> is_plain_char((#[trigger] bytes[i]) as char),
    ensures
        escape_ascii(bytes) =~= bytes.map_values(|b: u8| b as char),
    decreases bytes.len(),
{
    if bytes.len() > 0 {
        let b = bytes.last();
        assert(is_plain_char(bytes[bytes.len() - 1] as char));
        lemma_escape_plain(bytes.drop_last());
        assert(escape_byte(b) =~= seq![b as char]);
    }
}

proof fn lemma_ascii_char(c: char)
    requires
        c as u32 <= 127,
    ensures
        (c as u32 as u8) as char == c,
        (c as u32 as u8) as u32 == c as u32,
{
}

/// A text of characters that `escape_ascii` leaves alone comes out of UTF-8 encoding and
/// escaping as it went in.
proof fn lemma_escape_plain_text(s: Seq<char>)
    requires
        forall|i: int| 0 <= i < s.len() ==> is_plain_char(#[trigger] s[i]),
    ensures
        escape_ascii(encode_utf8(s)) == s,
{
    lemma_encode_ascii(s);
    let bytes = encode_utf8(s);
    assert forall|i: int| 0 <= i < bytes.len() implies is_plain_char((#[trigger] bytes[i]) as char) by {
        assert(bytes[i] == s[i] as u32 as u8);
        assert(is_plain_char(s[i]));
        lemma_ascii_char(s[i]);
    }
    lemma_escape_plain(bytes);
    let chars = bytes.map_values(|b: u8| b as char);
    assert forall|i: int| 0 <= i < s.len() implies #[trigger] chars[i] == s[i] by {
        lemma_ascii_char(s[i]);
    }
    assert(chars =~= s);
}

/// For a macro whose name is a C identifier, the marker that stands in for it is the
/// string literal `"hack_bindgen_macro:NAME"` with the name as it is; and once the
/// macro's translation is stored under that name, a generated constant whose marker
/// names it is replaced by the translation, whatever the constant is called, and never
/// by the comment for an unknown macro.
pub proof fn law_marker_round_trip<F>(scope: Scope<F>, name: Seq<char>, info: MacroInfo, constant: Seq<char>)
    requires
        forall|i: int| 0 <= i < name.len() ==> is_identifier_char(#[trigger] name[i]),
    ensures
        marker_text(name) == "\"hack_bindgen_macro:"@ + name + "\""@,
        ({
            let s = Scope { macros: scope.macros.insert(name, info), inline_fns: scope.inline_fns };
            &&& const_replacement(s, constant, name) == translation_item(info, constant)
            &&& const_replacement(s, constant, name) != unknown_macro_comment(constant)
        }),
{
    reveal_strlit("hack_bindgen_macro:");
    reveal_strlit("\"hack_bindgen_macro:");
    reveal_strlit("\"");
    let prefix = "hack_bindgen_macro:"@;
    let text = prefix + name;
    assert forall|i: int| 0 <= i < text.len() implies is_plain_char(#[trigger] text[i]) by {
        if i < prefix.len() {
            assert(text[i] == prefix[i]);
        } else {
            assert(text[i] == name[i - prefix.len()]);
            assert(is_identifier_char(name[i - prefix.len()]));
        }
    }
    lemma_escape_plain_text(text);
    assert("\"hack_bindgen_macro:"@ =~= "\""@ + prefix);
    assert(marker_text(name) =~= "\"hack_bindgen_macro:"@ + name + "\""@);
    let s = Scope { macros: scope.macros.insert(name, info), inline_fns: scope.inline_fns };
    let item = translation_item(info, constant);
    reveal_strlit("};");
    reveal_strlit(";");
    reveal_strlit(" unknown macro define");
    assert(item.last() == ';');
    assert(unknown_macro_comment(constant).last() == 'e');
}

/// A declaration specifier that is a type specifier or a type qualifier has the effect of
/// that specifier or qualifier, and is translatable exactly when it is; any other one
/// leaves the type as it is.
pub proof fn law_declaration_specifier_delegates(t: TypeInfo, d: DeclarationSpecifier)
    ensures
        match d {
            DeclarationSpecifier::TypeSpecifier(p) => {
                &&& declaration_specifier_type(t, d) == specifier_type(t, p.node)
                &&& declaration_specifier_supported(d) == specifier_supported(p.node)
            },
            DeclarationSpecifier::TypeQualifier(q) => {
                &&& declaration_specifier_type(t, d) == qualifier_type(t, q.node)
                &&& declaration_specifier_supported(d)
            },
            _ => declaration_specifier_type(t, d) == t && declaration_specifier_supported(d),
        },
{
}

/// A specifier or qualifier of a type name has the effect of the type specifier or type
/// qualifier it holds, and is translatable exactly when that is.
pub proof fn law_specifier_qualifier_delegates(t: TypeInfo, s: SpecifierQualifier)
    ensures
        match s {
            SpecifierQualifier::TypeSpecifier(p) => {
                &&& specifier_qualifier_type(t, s) == specifier_type(t, p.node)
                &&& specifier_qualifier_supported(s) == specifier_supported(p.node)
            },
            SpecifierQualifier::TypeQualifier(q) => {
                &&& specifier_qualifier_type(t, s) == qualifier_type(t, q.node)
                &&& specifier_qualifier_supported(s)
            },
            SpecifierQualifier::Extension => specifier_qualifier_type(t, s) == t
                && specifier_qualifier_supported(s),
        },
{
}

/// Applying derived declarators in one go is applying a first part of them, then the
/// rest; and the whole is translatable exactly when both parts are.
pub proof fn law_derived_split<F: InlineFunction>(
    t: TypeInfo,
    first: Seq<Node<DerivedDeclarator>>,
    rest: Seq<Node<DerivedDeclarator>>,
    scope: Scope<F>,
)
    ensures
        derived_type(t, first + rest, scope) == derived_type(derived_type(t, first, scope), rest, scope),
        derived_ok(first + rest) == (derived_ok(first) && derived_ok(rest)),
    decreases rest.len(),
{
    if rest.len() == 0 {
        assert(first + rest =~= first);
    } else {
        assert((first + rest).drop_last() =~= first + rest.drop_last());
        assert((first + rest).last() == rest.last());
        law_derived_split(t, first, rest.drop_last(), scope);
    }
}

/// Derived declarators that are all K&R function or block declarators leave the type as
/// it is (so does an empty list).
pub proof fn law_derived_inert<F: InlineFunction>(
    t: TypeInfo,
    ds: Seq<Node<DerivedDeclarator>>,
    scope: Scope<F>,
)
    requires
        forall|i: int|
            0 <= i < ds.len() ==> (#[trigger] ds[i]).node is KRFunction || ds[i].node is Block,
    ensures
        derived_type(t, ds, scope) == t,
    decreases ds.len(),
{
    if ds.len() > 0 {
        assert(ds.last() == ds[ds.len() - 1]);
        law_derived_inert(t, ds.drop_last(), scope);
        let d = ds.last().node;
        assert(d is KRFunction || d is Block);
        assert(derived_step(t, d, scope) == t);
    }
}

/// The argument list of a function declarator names every parameter's type, in order,
/// followed by `...` for a variadic function; it is empty exactly when there are no
/// parameters and no `...`, or the only parameter is `void` and there is no `...`.
pub proof fn law_function_arguments(f: FunctionDeclarator)
    ensures
        ({
            let ps = f.parameters@;
            let args = function_arguments(f);
            let lone_void = ps.len() == 1 && f.ellipsis == Ellipsis::Absent
                && parameter_type(ps[0].node).name == "void"@;
            &&& lone_void ==> args.len() == 0
            &&& !lone_void ==> {
                &&& args.len() == ps.len() + if f.ellipsis == Ellipsis::Present { 1int } else { 0 }
                &&& forall|i: int|
                    0 <= i < ps.len() ==> args[i] == parameter_type((#[trigger] ps[i]).node).name
                &&& f.ellipsis == Ellipsis::Present ==> args[ps.len() as int] == "..."@
            }
        }),
{
    reveal_strlit("void");
    reveal_strlit("...");
    let ps = f.parameters@;
    let params = ps.map_values(|p: Node<ParameterDeclaration>| parameter_type(p.node).name);
    if f.ellipsis == Ellipsis::Present && ps.len() == 0 {
        assert(params.push("..."@)[0] == "..."@);
    }
}

/// A function declarator with one parameter that is not `void` makes the type a
/// nullable C function pointer taking that parameter's type and returning the type
/// declared so far.
pub proof fn law_function_one_parameter<F: InlineFunction>(
    t: TypeInfo,
    f: FunctionDeclarator,
    scope: Scope<F>,
)
    requires
        f.parameters@.len() == 1,
        f.ellipsis == Ellipsis::Absent,
        parameter_type(f.parameters@[0].node).name != "void"@,
    ensures
        derived_step(t, DerivedDeclarator::Function(Node { node: f }), scope).name
            == "Option<extern \"C\" fn("@ + parameter_type(f.parameters@[0].node).name + ") -> "@
            + t.name + ">"@,
{
    law_function_arguments(f);
    let args = function_arguments(f);
    assert(args =~= seq![parameter_type(f.parameters@[0].node).name]);
}

/// Concatenating texts with an empty separator puts them one after another.
proof fn lemma_join_empty(parts: Seq<Seq<char>>)
    ensures
        join(parts, ""@) == parts.flatten(),
    decreases parts.len(),
{
    reveal_strlit("");
    parts.lemma_flatten_and_flatten_alt_are_equivalent();
    if parts.len() == 1 {
        assert(parts.drop_last().flatten_alt() =~= Seq::<char>::empty());
        assert(parts.flatten_alt() =~= parts[0]);
    } else if parts.len() > 1 {
        lemma_join_empty(parts.drop_last());
        parts.drop_last().lemma_flatten_and_flatten_alt_are_equivalent();
        assert(join(parts, ""@) =~= join(parts.drop_last(), ""@) + parts.last());
    }
}

/// An initializer list item with designators and an expression assigns the expression's
/// translation to `v` followed by the texts of all its designators, one after another:
/// `.m` for a member, `[i]` for an index.
pub proof fn law_designated_target<F: InlineFunction>(
    item: InitializerListItem,
    e: Node<Expression>,
    scope: Scope<F>,
    index: u128,
)
    requires
        item.designation@.len() > 0,
        item.initializer.node == Initializer::Expression(Box::new(e)),
    ensures
        ({
            let ds = item.designation@;
            let texts = designator_texts(ds, scope);
            &&& init_item(item, scope, index).0 == "v"@ + texts.flatten() + " = "@ + expr_info(
                e.node,
                scope,
            ).text + ";\n"@
            &&& texts.len() == ds.len()
            &&& forall|i: int|
                0 <= i < ds.len() ==> texts[i] == match (#[trigger] ds[i]).node {
                    Designator::Member(m) => "."@ + m.node.name@,
                    Designator::Index(x) => "["@ + expr_info(x.node, scope).text + "]"@,
                    Designator::Range(r) => designator_text(Designator::Range(r), scope),
                }
        }),
{
    let ds = item.designation@;
    lemma_join_empty(designator_texts(ds, scope));
    lemma_designator_texts(ds, scope);
}

proof fn lemma_designator_texts<F: InlineFunction>(ds: Seq<Node<Designator>>, scope: Scope<F>)
    ensures
        designator_texts(ds, scope).len() == ds.len(),
        forall|i: int|
            0 <= i < ds.len() ==> designator_texts(ds, scope)[i] == designator_text(
                (#[trigger] ds[i]).node,
                scope,
            ),
    decreases ds.len(),
{
    if ds.len() > 0 {
        lemma_designator_texts(ds.drop_last(), scope);
        assert forall|i: int| 0 <= i < ds.len() implies designator_texts(ds, scope)[i]
            == designator_text((#[trigger] ds[i]).node, scope) by {
            if i < ds.len() - 1 {
                assert(ds[i] == ds.drop_last()[i]);
            }
        }
    }
}

/// Every unary operator but `&`, `*` and `!` gives the expression the type of its
/// operand (so `~e`, `-e`, `+e`, `++e`, `e--` have the type of `e`).
pub proof fn law_unary_keeps_type<F: InlineFunction>(
    u: UnaryOperatorExpression,
    scope: Scope<F>,
)
    requires
        u.operator.node != UnaryOperator::Address,
        u.operator.node != UnaryOperator::Indirection,
        u.operator.node != UnaryOperator::Negate,
    ensures
        expr_info(Expression::UnaryOperator(Box::new(Node { node: u })), scope).ty == expr_info(
            u.operand.node,
            scope,
        ).ty,
{
}

/// A cast translates whenever its operand does and its type name's specifiers are all
/// supported and its derived declarators translate, whatever those declarators are.
pub proof fn law_cast_completes(c: CastExpression)
    ensures
        expr_ok(Expression::Cast(Box::new(Node { node: c }))) == (expr_ok(c.expression.node)
            && specifier_qualifiers_supported(c.ty.node.specifiers@) && match c.ty.node.declarator {
            Some(d) => derived_ok(d.node.derived@),
            None => true,
        }),
{
    let e = Expression::Cast(Box::new(Node { node: c }));
    assert(expr_ok(e) == (expr_ok(c.expression.node) && type_name_ok(c.ty.node)));
}

/// Derived declarators made of pointers alone always translate; so a cast to a pointer
/// type such as `(void *)` translates whenever its operand does and its specifiers are
/// supported.
pub proof fn law_pointer_declarators_complete(ds: Seq<Node<DerivedDeclarator>>)
    requires
        forall|i: int| 0 <= i < ds.len() ==> (#[trigger] ds[i]).node is Pointer,
    ensures
        derived_ok(ds),
    decreases ds.len(),
{
    if ds.len() > 0 {
        assert(ds.last() == ds[ds.len() - 1]);
        law_pointer_declarators_complete(ds.drop_last());
        assert(ds.last().node is Pointer);
        assert(derived_step_ok(ds.last().node));
    }
}

/// A decimal floating constant translates into its digits as written, ` as ` and the
/// Rust type of its suffix, and has that type.
pub proof fn law_decimal_float(f: Float)
    requires
        f.base == FloatBase::Decimal,
    ensures
        constant_info(Constant::Float(f)) == (ExprInfo {
            ty: Some(named(float_type_name(f.suffix))),
            text: f.number@ + " as "@ + float_type_name(f.suffix),
        }),
{
}

/// Whether a pointer qualifier is `const`.
pub open spec fn is_const_qualifier(q: PointerQualifier) -> bool {
    match q {
        PointerQualifier::TypeQualifier(t) => t.node == TypeQualifier::Const,
        PointerQualifier::Extension => false,
    }
}

/// A pointer declarator points to the type declared so far: `*const T` when a `const`
/// was met before it, `*mut T` otherwise; a `const` among its own qualifiers applies to
/// the declarators after it. It never makes an array.
pub proof fn law_pointer_step<F: InlineFunction>(
    t: TypeInfo,
    qs: Vec<Node<PointerQualifier>>,
    scope: Scope<F>,
)
    ensures
        ({
            let r = derived_step(t, DerivedDeclarator::Pointer(qs), scope);
            &&& r.name == if t.has_const { "*const "@ + t.name } else { "*mut "@ + t.name }
            &&& r.is_array == t.is_array
            &&& r.has_const == (t.has_const || exists|i: int|
                0 <= i < qs@.len() && is_const_qualifier((#[trigger] qs@[i]).node))
        }),
{
    lemma_pointer_qualifiers(renamed(t, pointer_name(t)), qs@);
}

proof fn lemma_pointer_qualifiers(t: TypeInfo, qs: Seq<Node<PointerQualifier>>)
    ensures
        ({
            let r = pointer_qualifiers_type(t, qs);
            &&& r.name == t.name
            &&& r.is_array == t.is_array
            &&& r.has_const == (t.has_const || exists|i: int|
                0 <= i < qs.len() && is_const_qualifier((#[trigger] qs[i]).node))
        }),
    decreases qs.len(),
{
    if qs.len() > 0 {
        let init = qs.drop_last();
        lemma_pointer_qualifiers(t, init);
        if exists|i: int| 0 <= i < init.len() && is_const_qualifier((#[trigger] init[i]).node) {
            let i = choose|i: int| 0 <= i < init.len() && is_const_qualifier((#[trigger] init[i]).node);
            assert(qs[i] == init[i]);
        }
        if exists|i: int| 0 <= i < qs.len() && is_const_qualifier((#[trigger] qs[i]).node) {
            let i = choose|i: int| 0 <= i < qs.len() && is_const_qualifier((#[trigger] qs[i]).node);
            if i < qs.len() - 1 {
                assert(qs[i] == init[i]);
            }
        }
        assert(qs.last() == qs[qs.len() - 1]);
    }
}

/// An array declarator makes an array of the type declared so far: `[T; N]` with the
/// translation of its size expression, `[T]` when it has none.
pub proof fn law_array_step<F: InlineFunction>(t: TypeInfo, a: ArrayDeclarator, scope: Scope<F>)
    ensures
        ({
            let r = derived_step(t, DerivedDeclarator::Array(Node { node: a }), scope);
            &&& r.is_array
            &&& r.has_const == t.has_const
            &&& r.name == match a.size {
                ArraySize::VariableExpression(e) => "["@ + t.name + "; "@ + expr_info(e.node, scope).text
                    + "]"@,
                ArraySize::StaticExpression(e) => "["@ + t.name + "; "@ + expr_info(e.node, scope).text
                    + "]"@,
                _ => "["@ + t.name + "]"@,
            }
        }),
{
}

/// A cast writes its operand followed by ` as ` and the target type, and has the target
/// type.
pub proof fn law_cast_text<F: InlineFunction>(c: CastExpression, scope: Scope<F>)
    ensures
        ({
            let r = expr_info(Expression::Cast(Box::new(Node { node: c })), scope);
            let ty = type_name_info(c.ty.node, scope);
            &&& r.ty == Some(ty)
            &&& r.text == expr_info(c.expression.node, scope).text + " as "@ + ty.name
        }),
{
}

/// An initializer list item without designators assigns its expression to `v` followed by
/// the current index in decimal, and leaves the index as it is.
pub proof fn law_undesignated_item<F: InlineFunction>(
    item: InitializerListItem,
    e: Node<Expression>,
    scope: Scope<F>,
    index: u128,
)
    requires
        item.designation@.len() == 0,
        item.initializer.node == Initializer::Expression(Box::new(e)),
    ensures
        init_item(item, scope, index) == ("v"@ + decimal(index as nat) + " = "@ + expr_info(
            e.node,
            scope,
        ).text + ";\n"@, index),
{
}

/// The type of a binary expression: `int` for comparisons and logical operators, the left
/// operand's type for shifts, none for indexing, and for the other operators the left
/// operand's type when known, else the right one's.
pub proof fn law_binary_type<F: InlineFunction>(b: BinaryOperatorExpression, scope: Scope<F>)
    ensures
        ({
            let r = expr_info(Expression::BinaryOperator(Box::new(Node { node: b })), scope).ty;
            let l = expr_info(b.lhs.node, scope).ty;
            let rt = expr_info(b.rhs.node, scope).ty;
            match b.operator.node {
                BinaryOperator::Less | BinaryOperator::Greater | BinaryOperator::LessOrEqual
                | BinaryOperator::GreaterOrEqual | BinaryOperator::Equals
                | BinaryOperator::NotEquals | BinaryOperator::LogicalAnd
                | BinaryOperator::LogicalOr => r == Some(named("core::ffi::c_int"@)),
                BinaryOperator::ShiftLeft | BinaryOperator::ShiftRight
                | BinaryOperator::AssignShiftLeft | BinaryOperator::AssignShiftRight => r == l,
                BinaryOperator::Index => r is None,
                _ => r == if l is Some { l } else { rt },
            }
        }),
{
}

/// A type specifier changes only the name of the type being built: whether it is an
/// array and the qualifiers met so far stay as they were.
pub proof fn law_specifier_keeps_flags(t: TypeInfo, s: TypeSpecifier)
    ensures
        specifier_type(t, s).is_array == t.is_array,
        specifier_type(t, s).has_const == t.has_const,
        specifier_type(t, s).has_signed == t.has_signed,
        specifier_type(t, s).has_unsigned == t.has_unsigned,
{
}

/// After `unsigned`, the integer specifiers `char`, `short`, `int` and `long` name the
/// unsigned variant of the Rust type they name otherwise: `core::ffi::c_u...` in place of
/// `core::ffi::c_...`.
pub proof fn law_unsigned_variant(t: TypeInfo, s: TypeSpecifier)
    requires
        s == TypeSpecifier::Char || s == TypeSpecifier::Short || s == TypeSpecifier::Int || s
            == TypeSpecifier::Long,
        t.has_unsigned,
    ensures
        ({
            let plain = TypeInfo { has_signed: false, has_unsigned: false, ..t };
            let prefix = "core::ffi::c_"@;
            let name = specifier_type(plain, s).name;
            &&& name.take(prefix.len() as int) == prefix
            &&& specifier_type(t, s).name == prefix + "u"@ + name.skip(prefix.len() as int)
        }),
{
    reveal_strlit("core::ffi::c_");
    reveal_strlit("u");
    reveal_strlit("core::ffi::c_char");
    reveal_strlit("core::ffi::c_uchar");
    reveal_strlit("core::ffi::c_short");
    reveal_strlit("core::ffi::c_ushort");
    reveal_strlit("core::ffi::c_int");
    reveal_strlit("core::ffi::c_uint");
    reveal_strlit("core::ffi::c_long");
    reveal_strlit("core::ffi::c_ulong");
    let plain = TypeInfo { has_signed: false, has_unsigned: false, ..t };
    let prefix = "core::ffi::c_"@;
    let name = specifier_type(plain, s).name;
    assert(name.take(prefix.len() as int) =~= prefix);
    assert(specifier_type(t, s).name =~= prefix + "u"@ + name.skip(prefix.len() as int));
}

/// A conditional expression has the type of its `then` branch when known, else that of
/// its `else` branch; a comma expression has the type of its last expression.
pub proof fn law_conditional_and_comma_types<F: InlineFunction>(
    c: ConditionalExpression,
    es: Vec<Node<Expression>>,
    scope: Scope<F>,
)
    ensures
        ({
            let t = expr_info(c.then_expression.node, scope).ty;
            let f = expr_info(c.else_expression.node, scope).ty;
            expr_info(Expression::Conditional(Box::new(Node { node: c })), scope).ty == if t is Some {
                t
            } else {
                f
            }
        }),
        es@.len() > 0 ==> expr_info(Expression::Comma(Box::new(es)), scope).ty == expr_info(
            es@.last().node,
            scope,
        ).ty,
        es@.len() == 0 ==> expr_info(Expression::Comma(Box::new(es)), scope).ty is None,
{
    if es@.len() > 0 {
        assert(exprs_info(es@, scope).last() == expr_info(es@.last().node, scope));
    }
}

/// A compound literal has the type it names; its translation starts from a zeroed value
/// of that type, runs the statements of its initializer list (from index 0) and yields
/// the value.
pub proof fn law_compound_literal<F: InlineFunction>(c: CompoundLiteral, scope: Scope<F>)
    ensures
        ({
            let ty = type_name_info(c.ty.node, scope);
            let r = expr_info(Expression::CompoundLiteral(Box::new(Node { node: c })), scope);
            &&& r.ty == Some(ty)
            &&& r.text == "unsafe {let mut v = core::mem::zeroed::<"@ + ty.name + ">(); "@
                + init_items(c.initializer_list@, scope, 0).0 + " v}"@
        }),
{
}

/// `sizeof` and `_Alignof` of a type name have type `usize` and ask Rust for the size or
/// alignment of the translated type.
pub proof fn law_size_and_align<F: InlineFunction>(s: SizeOfTy, a: AlignOf, scope: Scope<F>)
    ensures
        expr_info(Expression::SizeOfTy(Box::new(Node { node: s })), scope) == (ExprInfo {
            ty: Some(named("usize"@)),
            text: "size_of::<"@ + type_name_info(s.ty.node, scope).name + ">()"@,
        }),
        expr_info(Expression::AlignOf(Box::new(Node { node: a })), scope) == (ExprInfo {
            ty: Some(named("usize"@)),
            text: "align_of::<"@ + type_name_info(a.ty.node, scope).name + ">()"@,
        }),
{
}

/// Whether no string literal and no type name (cast, compound literal, `sizeof`,
/// `_Alignof`) occurs in the expression.
pub open spec fn without_types_or_strings(e: Expression) -> bool
    decreases e,
{
    match e {
        Expression::StringLiteral(_) | Expression::CompoundLiteral(_) | Expression::SizeOfTy(_)
        | Expression::AlignOf(_) | Expression::Cast(_) => false,
        Expression::Member(v) => without_types_or_strings(v.node.expression.node),
        Expression::Call(v) => all_without_types_or_strings(v.node.arguments@)
            && without_types_or_strings(v.node.callee.node),
        Expression::UnaryOperator(v) => without_types_or_strings(v.node.operand.node),
        Expression::BinaryOperator(v) => without_types_or_strings(v.node.lhs.node)
            && without_types_or_strings(v.node.rhs.node),
        Expression::Conditional(v) => without_types_or_strings(v.node.condition.node)
            && without_types_or_strings(v.node.then_expression.node) && without_types_or_strings(
            v.node.else_expression.node,
        ),
        Expression::Comma(v) => all_without_types_or_strings(v@),
        _ => true,
    }
}

/// Whether no string literal and no type name occurs in any of the expressions.
pub open spec fn all_without_types_or_strings(es: Seq<Node<Expression>>) -> bool
    decreases es,
{
    if es.len() == 0 {
        true
    } else {
        all_without_types_or_strings(es.drop_last()) && without_types_or_strings(es.last().node)
    }
}

/// The translation of an expression in which no string literal and no type name occurs
/// always completes: identifiers, constants, calls, members and operators never abort
/// it.
pub proof fn law_plain_expressions_complete(e: Expression)
    requires
        without_types_or_strings(e),
    ensures
        expr_ok(e),
    decreases e,
{
    match e {
        Expression::Member(v) => {
            law_plain_expressions_complete(v.node.expression.node);
        },
        Expression::Call(v) => {
            lemma_plain_expressions_complete(v.node.arguments@);
            law_plain_expressions_complete(v.node.callee.node);
        },
        Expression::UnaryOperator(v) => {
            law_plain_expressions_complete(v.node.operand.node);
        },
        Expression::BinaryOperator(v) => {
            law_plain_expressions_complete(v.node.lhs.node);
            law_plain_expressions_complete(v.node.rhs.node);
        },
        Expression::Conditional(v) => {
            law_plain_expressions_complete(v.node.condition.node);
            law_plain_expressions_complete(v.node.then_expression.node);
            law_plain_expressions_complete(v.node.else_expression.node);
        },
        Expression::Comma(v) => {
            lemma_plain_expressions_complete(v@);
        },
        _ => {},
    }
}

proof fn lemma_plain_expressions_complete(es: Seq<Node<Expression>>)
    requires
        all_without_types_or_strings(es),
    ensures
        exprs_ok(es),
    decreases es,
{
    if es.len() > 0 {
        lemma_plain_expressions_complete(es.drop_last());
        assert(decreases_to!(es => es.last()));
        law_plain_expressions_complete(es.last().node);
    }
}

/// An integer constant translates into its base's Rust prefix (none, `0`, `0x`, `0b`),
/// its digits as written, ` as ` and the Rust type of its suffix, and has that type; a
/// character constant is written as it is, as a `c_char`.
pub proof fn law_integer_and_character_constants(i: Integer, c: String)
    ensures
        ({
            let ty = integer_type_name(i.suffix);
            let prefix = match i.base {
                IntegerBase::Decimal => ""@,
                IntegerBase::Octal => "0"@,
                IntegerBase::Hexadecimal => "0x"@,
                IntegerBase::Binary => "0b"@,
            };
            constant_info(Constant::Integer(i)) == (ExprInfo {
                ty: Some(named(ty)),
                text: prefix + i.number@ + " as "@ + ty,
            })
        }),
        constant_info(Constant::Character(c)) == (ExprInfo {
            ty: Some(named("core::ffi::c_char"@)),
            text: c@ + " as core::ffi::c_char"@,
        }),
{
    reveal_strlit(" as ");
    reveal_strlit("core::ffi::c_char");
    reveal_strlit(" as core::ffi::c_char");
    assert(" as "@ + "core::ffi::c_char"@ =~= " as core::ffi::c_char"@);
    assert(c@ + " as "@ + "core::ffi::c_char"@ =~= c@ + " as core::ffi::c_char"@);
}

} // verus!
