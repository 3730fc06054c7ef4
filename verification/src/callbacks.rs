//! Macro handling around binding generation: translating macro definitions as they are
//! met, marking them in the token stream, and rewriting the generated constants.
use crate::ast::{Expression, Node, TypeName};
use crate::literal::{string_from_utf8_lossy, utf8_lossy};
use crate::text::{escape_ascii, escape_ascii_string, join, join_strings, views};
use crate::completion::{check_expr, check_type_name};
use crate::model::{expr_info, expr_ok, type_name_info, type_name_ok, MacroInfo, Scope};
use crate::translate::{HackBindgenContext, InlineFunction, MacroItem, RustExpression, RustType};
use regex::{Captures, Regex};
use vstd::prelude::*;
use vstd::slice::slice_to_vec;
use vstd::utf8::encode_utf8;

verus! {

/// What the C parser made of a macro's body: an expression, or else a type name.
#[derive(Debug)]
pub enum MacroDefinition {
    Expression(Node<Expression>),
    TypeName(Node<TypeName>),
}

/// Whether the translation of the definition completes.
pub open spec fn definition_ok(d: MacroDefinition) -> bool {
    match d {
        MacroDefinition::Expression(e) => expr_ok(e.node),
        MacroDefinition::TypeName(t) => type_name_ok(t.node),
    }
}

/// The translation of a macro definition.
pub open spec fn definition_info<F: InlineFunction>(d: MacroDefinition, scope: Scope<F>) -> MacroInfo {
    match d {
        MacroDefinition::Expression(e) => MacroInfo::Expression(expr_info(e.node, scope)),
        MacroDefinition::TypeName(t) => MacroInfo::TypeName(type_name_info(t.node, scope)),
    }
}

/// The reading that a macro's body gets from the C parser's two attempts: as an
/// expression when that parse succeeded, else as a type name when that one did.
pub open spec fn reading(expression: Option<Node<Expression>>, ty: Option<Node<TypeName>>) -> Option<
    MacroDefinition,
> {
    match expression {
        Some(e) => Some(MacroDefinition::Expression(e)),
        None => match ty {
            Some(t) => Some(MacroDefinition::TypeName(t)),
            None => None,
        },
    }
}

impl MacroDefinition {
    /// The reading of a macro's body from the results of parsing it as an expression and
    /// as a type name: the expression wins.
    pub fn from_parses(expression: Option<Node<Expression>>, ty: Option<Node<TypeName>>) -> (r: Option<
        MacroDefinition,
    >)
        ensures
            r == reading(expression, ty),
    {
        match expression {
            Some(e) => Some(MacroDefinition::Expression(e)),
            None => match ty {
                Some(t) => Some(MacroDefinition::TypeName(t)),
                None => None,
            },
        }
    }
}

/// The kind of a preprocessor token.
#[derive(Debug, PartialEq, Eq, Structural, Clone, Copy)]
pub enum TokenKind {
    Punctuation,
    Keyword,
    Identifier,
    Literal,
    Comment,
}

/// A preprocessor token of a macro definition: its kind and its bytes.
#[derive(Debug)]
pub struct MacroToken {
    pub kind: TokenKind,
    pub raw: Vec<u8>,
}

/// The string literal that stands in for a translated macro in the token stream.
pub open spec fn marker_text(name: Seq<char>) -> Seq<char> {
    "\""@ + escape_ascii(encode_utf8("hack_bindgen_macro:"@ + name)) + "\""@
}

/// The text of a macro's body as handed to the C parser: the tokens after the macro's
/// name, each decoded as UTF-8 (lossily), separated by spaces.
pub open spec fn macro_body_text(tokens: Seq<MacroToken>) -> Seq<char> {
    let body = if tokens.len() == 0 {
        Seq::empty()
    } else {
        tokens.skip(1)
    };
    join(body.map_values(|t: MacroToken| utf8_lossy(t.raw@)), " "@)
}

/// The pattern of a generated constant that carries a macro marker: the constant's name
/// is group `NAME`, the macro's name is group `ID`.
pub const MACRO_CONST_PATTERN: &'static str =
    r###"pub[ \r\n]+const[ \r\n]+(?P<NAME>.*)[ \r\n]*:[ \r\n]*.*[ \r\n]*=[ \r\n]*b"hack_bindgen_macro:(?P<ID>.*)\\0"[ \r\n]*;"###;

/// The Rust item that holds the translation `info` of a macro under the name `name`: a
/// constant of the expression's type, a commented-out constant when that type is unknown,
/// or a type alias.
pub open spec fn translation_item(info: MacroInfo, name: Seq<char>) -> Seq<char> {
    match info {
        MacroInfo::Expression(e) => match e.ty {
            Some(t) => "pub const "@ + name + ": "@ + t.name + " = unsafe {"@ + e.text + "};"@,
            None => "// pub const "@ + name + ": unknown = unsafe {"@ + e.text + "};"@,
        },
        MacroInfo::TypeName(t) => "pub type "@ + name + " = "@ + t.name + ";"@,
    }
}

/// The comment that replaces the generated constant `name` whose marker names no known
/// macro.
pub open spec fn unknown_macro_comment(name: Seq<char>) -> Seq<char> {
    "// "@ + name + " unknown macro define"@
}

/// The Rust item that replaces the generated constant `name` whose marker names the
/// macro `id`.
pub open spec fn const_replacement<F>(scope: Scope<F>, name: Seq<char>, id: Seq<char>) -> Seq<char> {
    if scope.macros.contains_key(id) {
        translation_item(scope.macros[id], name)
    } else {
        unknown_macro_comment(name)
    }
}

/// A match of [`MACRO_CONST_PATTERN`]: the text since the previous match, the matched
/// text, and the `NAME` and `ID` groups.
pub type ConstDeclMatch = (Seq<char>, Seq<char>, Seq<char>, Seq<char>);

/// The text that the matches and the tail make up.
pub open spec fn rejoin(ms: Seq<ConstDeclMatch>, tail: Seq<char>) -> Seq<char>
    decreases ms.len(),
{
    if ms.len() == 0 {
        tail
    } else {
        ms[0].0 + ms[0].1 + rejoin(ms.drop_first(), tail)
    }
}

/// The text with each match replaced by its [`const_replacement`].
pub open spec fn replaced<F>(scope: Scope<F>, ms: Seq<ConstDeclMatch>, tail: Seq<char>) -> Seq<char>
    decreases ms.len(),
{
    if ms.len() == 0 {
        tail
    } else {
        ms[0].0 + const_replacement(scope, ms[0].2, ms[0].3) + replaced(scope, ms.drop_first(), tail)
    }
}

/// The leftmost-first, non-overlapping matches of [`MACRO_CONST_PATTERN`] in a text, in
/// order, and the text after the last one, as `regex::Regex::replace_all` finds them.
pub uninterp spec fn const_decl_matches(code: Seq<char>) -> (Seq<ConstDeclMatch>, Seq<char>);

/// Compiles `pattern` with `regex::Regex::new` and, when it compiles, rewrites `code`
/// with `Regex::replace_all`, each match replaced by [`const_decl_replacement`] of its
/// `NAME` and `ID` groups. The pattern is the fixed [`MACRO_CONST_PATTERN`], a valid
/// regular expression with both groups, so it compiles. The contract names where it
/// matches; that the matches and the text between them make up `code`, and that the
/// result puts each replacement in the place of its match, is what `replace_all`
/// documents. The regular expression semantics are not stated.
#[verifier::external_body]
fn replace_const_decls<F>(pattern: &str, code: &str, ctx: &HackBindgenContext<F>) -> (r: Option<String>)
    requires
        pattern@ == MACRO_CONST_PATTERN@,
    ensures
        r is Some,
        r matches Some(out) ==> {
            let (ms, tail) = const_decl_matches(code@);
            &&& code@ == rejoin(ms, tail)
            &&& out@ == replaced(ctx.scope(), ms, tail)
        },
{
    let re = Regex::new(pattern).ok()?;
    Some(
        re.replace_all(code, |x: &Captures| const_decl_replacement(ctx, &x["NAME"], &x["ID"])).into_owned(),
    )
}

/// The Rust item that replaces the generated constant `name` whose marker names the
/// macro `id`: a constant or a type alias holding the macro's translation, or a comment
/// when its type or the macro is unknown.
pub fn const_decl_replacement<F>(ctx: &HackBindgenContext<F>, name: &str, id: &str) -> (r: String)
    ensures
        r@ == const_replacement(ctx.scope(), name@, id@),
{
    let mut r = String::new();
    match ctx.macro_item(id) {
        Some(MacroItem::Expression(e)) => match e.type_info() {
            Some(ty) => {
                r.append("pub const ");
                r.append(name);
                r.append(": ");
                r.append(ty.name());
                r.append(" = unsafe {");
                r.append(e.expression());
                r.append("};");
            },
            None => {
                r.append("// pub const ");
                r.append(name);
                r.append(": unknown = unsafe {");
                r.append(e.expression());
                r.append("};");
            },
        },
        Some(MacroItem::TypeName(t)) => {
            r.append("pub type ");
            r.append(name);
            r.append(" = ");
            r.append(t.name());
            r.append(";");
        },
        None => {
            r.append("// ");
            r.append(name);
            r.append(" unknown macro define");
        },
    }
    r
}

/// The lines that open the generated bindings: aliases for the fixed-width C integers.
pub open spec fn prelude_lines() -> Seq<Seq<char>> {
    seq![
        "pub type uint8_t = u8;"@,
        "pub type int8_t = i8;"@,
        "pub type uint16_t = u16;"@,
        "pub type int16_t = i16;"@,
        "pub type uint32_t = u32;"@,
        "pub type int32_t = i32;"@,
        "pub type uint64_t = u64;"@,
        "pub type int64_t = i64;"@,
        "pub type uint128_t = u128;"@,
        "pub type int128_t = i128;"@,
    ]
}

/// Macro handling for binding generation, around a translation context.
#[derive(Debug)]
pub struct HackBindgenCallbacks<F> {
    ctx: HackBindgenContext<F>,
}

impl<F: InlineFunction> HackBindgenCallbacks<F> {
    /// What translations can refer to.
    pub closed spec fn scope(&self) -> Scope<F> {
        self.ctx.scope()
    }

    /// Macro handling around the given context.
    pub fn new(ctx: HackBindgenContext<F>) -> (r: Self)
        ensures
            r.scope() == ctx.scope(),
    {
        HackBindgenCallbacks { ctx }
    }

    /// The translation context.
    pub fn context(&self) -> (r: &HackBindgenContext<F>)
        ensures
            r.scope() == self.scope(),
    {
        &self.ctx
    }

    /// The text of a macro's body (the tokens after its name), to be parsed as C.
    pub fn macro_code(tokens: &[MacroToken]) -> (r: String)
        ensures
            r@ == macro_body_text(tokens@),
    {
        let mut parts: Vec<String> = Vec::new();
        if tokens.len() == 0 {
            assert(views(parts@) =~= Seq::<MacroToken>::empty().map_values(
                |t: MacroToken| utf8_lossy(t.raw@),
            ));
            return join_strings(&parts, " ");
        }
        let mut i: usize = 1;
        let ghost body = tokens@.skip(1).map_values(|t: MacroToken| utf8_lossy(t.raw@));
        while i < tokens.len()
            invariant
                1 <= i <= tokens@.len(),
                body == tokens@.skip(1).map_values(|t: MacroToken| utf8_lossy(t.raw@)),
                views(parts@) =~= body.take(i - 1),
            decreases tokens@.len() - i,
        {
            let part = string_from_utf8_lossy(tokens[i].raw.as_slice());
            parts.push(part);
            assert(body.take(i as int) =~= body.take(i - 1).push(utf8_lossy(tokens@[i as int].raw@)));
            i = i + 1;
        }
        assert(body.take(i - 1) =~= body);
        join_strings(&parts, " ")
    }

    /// Stores the translation of the macro `name` when the C parser read its body as an
    /// expression or, failing that, as a type name (translated in the context as it was),
    /// and says whether it did.
    pub fn define(
        &mut self,
        name: &str,
        expression: Option<Node<Expression>>,
        ty: Option<Node<TypeName>>,
    ) -> (r: bool)
        requires
            reading(expression, ty) matches Some(d) ==> definition_ok(d),
        ensures
            r == reading(expression, ty) is Some,
            final(self).scope().inline_fns == old(self).scope().inline_fns,
            final(self).scope().macros == match reading(expression, ty) {
                Some(d) => old(self).scope().macros.insert(
                    name@,
                    definition_info(d, old(self).scope()),
                ),
                None => old(self).scope().macros,
            },
    {
        match MacroDefinition::from_parses(expression, ty) {
            Some(MacroDefinition::Expression(v)) => {
                let expr = RustExpression::from_node(&v, &self.ctx);
                self.ctx.insert_macro(name, MacroItem::Expression(expr));
                true
            },
            Some(MacroDefinition::TypeName(v)) => {
                let ty = RustType::from_type_name(&v, &self.ctx);
                self.ctx.insert_macro(name, MacroItem::TypeName(ty));
                true
            },
            None => false,
        }
    }

    /// Handles a macro met during binding generation. When its definition has a body
    /// (more than the name token) that the C parser read (as an expression, else as a
    /// type name) and whose translation completes, the translation is stored and the body
    /// is replaced by a string literal marker that carries the macro's name; otherwise
    /// nothing changes.
    pub fn modify_macro(
        &mut self,
        name: &str,
        tokens: &mut Vec<MacroToken>,
        expression: Option<Node<Expression>>,
        ty: Option<Node<TypeName>>,
    )
        ensures
            ({
                let handled = old(tokens)@.len() > 1 && (reading(expression, ty) matches Some(d)
                    && definition_ok(d));
                &&& final(self).scope().inline_fns == old(self).scope().inline_fns
                &&& handled ==> {
                    &&& final(self).scope().macros == old(self).scope().macros.insert(
                        name@,
                        definition_info(reading(expression, ty)->0, old(self).scope()),
                    )
                    &&& final(tokens)@.len() == 2
                    &&& final(tokens)@[0] == old(tokens)@[0]
                    &&& final(tokens)@[1].kind == TokenKind::Literal
                    &&& final(tokens)@[1].raw@ == encode_utf8(marker_text(name@))
                }
                &&& !handled ==> {
                    &&& final(self).scope().macros == old(self).scope().macros
                    &&& final(tokens)@ == old(tokens)@
                }
            }),
    {
        if tokens.len() > 1 {
            let translatable = match &expression {
                Some(e) => check_expr(e),
                None => match &ty {
                    Some(t) => check_type_name(t),
                    None => false,
                },
            };
            if translatable {
                let defined = self.define(name, expression, ty);
                if defined {
                    let mut marker = String::from_str("hack_bindgen_macro:");
                    marker.append(name);
                    let mut text = String::from_str("\"");
                    text.append(escape_ascii_string(marker.as_str().as_bytes()).as_str());
                    text.append("\"");
                    tokens.truncate(1);
                    tokens.push(
                        MacroToken { kind: TokenKind::Literal, raw: slice_to_vec(text.as_str().as_bytes()) },
                    );
                }
            }
        }
    }

    /// Rewrites generated bindings: each constant that carries a macro marker becomes
    /// the macro's translation ([`const_decl_replacement`]).
    pub fn post_processing(&self, code: &mut String)
        ensures
            ({
                let (ms, tail) = const_decl_matches(old(code)@);
                &&& old(code)@ == rejoin(ms, tail)
                &&& final(code)@ == replaced(self.scope(), ms, tail)
            }),
    {
        match replace_const_decls(MACRO_CONST_PATTERN, code.as_str(), &self.ctx) {
            Some(result) => {
                *code = result;
            },
            None => {},
        }
    }

    /// The text of generated bindings from their bytes, decoded as UTF-8 (lossily), with
    /// each constant that carries a macro marker rewritten as in `post_processing`.
    pub fn rewrite_bindings(&self, bytes: &[u8]) -> (r: String)
        ensures
            ({
                let code = utf8_lossy(bytes@);
                let (ms, tail) = const_decl_matches(code);
                &&& code == rejoin(ms, tail)
                &&& r@ == replaced(self.scope(), ms, tail)
            }),
    {
        let mut code = string_from_utf8_lossy(bytes);
        self.post_processing(&mut code);
        code
    }

    /// The lines that open the generated bindings.
    pub fn prelude() -> (r: Vec<&'static str>)
        ensures
            r@.map_values(|s: &str| s@) == prelude_lines(),
    {
        let r = vec![
            "pub type uint8_t = u8;",
            "pub type int8_t = i8;",
            "pub type uint16_t = u16;",
            "pub type int16_t = i16;",
            "pub type uint32_t = u32;",
            "pub type int32_t = i32;",
            "pub type uint64_t = u64;",
            "pub type int64_t = i64;",
            "pub type uint128_t = u128;",
            "pub type int128_t = i128;",
        ];
        assert(r@.map_values(|s: &str| s@) =~= prelude_lines());
        r
    }
}

impl<F: InlineFunction> Default for HackBindgenCallbacks<F> {
    fn default() -> (r: Self)
        ensures
            r.scope().macros == Map::<Seq<char>, MacroInfo>::empty(),
            r.scope().inline_fns == Map::<Seq<char>, F>::empty(),
    {
        HackBindgenCallbacks::new(HackBindgenContext::new())
    }
}

} // verus!
