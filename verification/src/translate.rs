//! Translation of C types and expressions into Rust source text.
use crate::ast::{
    ArraySize, BinaryOperator, Constant, DeclarationSpecifier, Declarator, DerivedDeclarator,
    Designator, Ellipsis, Expression, Float, FloatBase, FloatFormat, FloatSuffix,
    FunctionDeclarator, Initializer, InitializerListItem, IntegerBase, IntegerSize,
    IntegerSuffix, MemberOperator, Node, ParameterDeclaration, PointerQualifier,
    SpecifierQualifier, TypeName, TypeQualifier, TypeSpecifier, UnaryOperator,
};
use crate::literal::{LiteralChar, LiteralValue, parse_c_literal};
use crate::model::{
    ExprInfo, MacroInfo, Scope, TypeInfo, base_prefix, binary_parts, binary_type, constant_info,
    declaration_specifier_supported, declaration_specifier_type,
    declaration_specifiers_supported, declaration_specifiers_type, derived_ok, derived_step,
    derived_step_ok, derived_type, designator_ok, designator_text, designator_texts,
    designators_ok, either, expr_info, expr_ok, exprs_info, exprs_ok, float_type_name,
    float_width, function_arguments, function_name, init_item, init_items, integer_type_name,
    item_ok, items_ok, lemma_derived_ok, lemma_designators_ok, lemma_exprs_ok, lemma_items_ok,
    named, parameter_type, pointer_name, pointer_qualifiers_type, qualifier_type, renamed,
    specifier_qualifier_supported, specifier_qualifier_type, specifier_qualifiers_supported,
    specifier_qualifiers_type, specifier_supported, specifier_type, string_bytes,
    string_literal_info, string_piece_ok, texts, type_name_info, type_name_ok, unary_parts,
};
use crate::name_map::NameMap;
use crate::text::{decimal_string, escape_ascii_string, join, join_strings, push_decimal, views};
use vstd::prelude::*;

verus! {

// ---------------------------------------------------------------------------
// Rust types
// ---------------------------------------------------------------------------
/// A Rust type, built from C specifiers, qualifiers and declarators.
#[derive(Debug)]
pub struct RustType {
    name: String,
    is_array: bool,
    has_const: bool,
    has_signed: bool,
    has_unsigned: bool,
}

impl View for RustType {
    type V = TypeInfo;

    closed spec fn view(&self) -> TypeInfo {
        TypeInfo {
            name: self.name@,
            is_array: self.is_array,
            has_const: self.has_const,
            has_signed: self.has_signed,
            has_unsigned: self.has_unsigned,
        }
    }
}

impl Clone for RustType {
    fn clone(&self) -> (r: Self)
        ensures
            r@ == self@,
    {
        RustType {
            name: self.name.clone(),
            is_array: self.is_array,
            has_const: self.has_const,
            has_signed: self.has_signed,
            has_unsigned: self.has_unsigned,
        }
    }
}

impl Default for RustType {
    fn default() -> (r: Self)
        ensures
            r@ == named(Seq::empty()),
    {
        RustType::new()
    }
}

/// The views of optional types.
pub open spec fn type_opt(t: Option<RustType>) -> Option<TypeInfo> {
    match t {
        Some(t) => Some(t@),
        None => None,
    }
}

fn clone_type_opt(t: &Option<RustType>) -> (r: Option<RustType>)
    ensures
        type_opt(r) == type_opt(*t),
{
    match t {
        Some(t) => Some(t.clone()),
        None => None,
    }
}

fn either_type(a: Option<RustType>, b: Option<RustType>) -> (r: Option<RustType>)
    ensures
        type_opt(r) == either(type_opt(a), type_opt(b)),
{
    match a {
        Some(t) => Some(t),
        None => b,
    }
}

fn concat2(a: &str, b: &str) -> (r: String)
    ensures
        r@ == a@ + b@,
{
    let mut r = String::from_str(a);
    r.append(b);
    r
}

fn concat3(a: &str, b: &str, c: &str) -> (r: String)
    ensures
        r@ == a@ + b@ + c@,
{
    let mut r = String::from_str(a);
    r.append(b);
    r.append(c);
    r
}

fn concat4(a: &str, b: &str, c: &str, d: &str) -> (r: String)
    ensures
        r@ == a@ + b@ + c@ + d@,
{
    let mut r = concat3(a, b, c);
    r.append(d);
    r
}

fn concat5(a: &str, b: &str, c: &str, d: &str, e: &str) -> (r: String)
    ensures
        r@ == a@ + b@ + c@ + d@ + e@,
{
    let mut r = concat4(a, b, c, d);
    r.append(e);
    r
}

fn integer_type_str(s: IntegerSuffix) -> (r: &'static str)
    ensures
        r@ == integer_type_name(s),
{
    match (s.size, s.unsigned) {
        (IntegerSize::Int, false) => "core::ffi::c_int",
        (IntegerSize::Int, true) => "core::ffi::c_uint",
        (IntegerSize::Long, false) => "core::ffi::c_long",
        (IntegerSize::Long, true) => "core::ffi::c_ulong",
        (IntegerSize::LongLong, false) => "core::ffi::c_longlong",
        (IntegerSize::LongLong, true) => "core::ffi::c_ulonglong",
    }
}

fn float_type_str(s: FloatSuffix) -> (r: &'static str)
    ensures
        r@ == float_type_name(s),
{
    match s.format {
        FloatFormat::Float => "core::ffi::c_float",
        FloatFormat::Double => "core::ffi::c_double",
        FloatFormat::LongDouble => "LongDouble",
        FloatFormat::TS18661Format => "TS18661Format",
    }
}

impl RustType {
    /// A type with an empty name and no flags set.
    pub fn new() -> (r: Self)
        ensures
            r@ == named(Seq::empty()),
    {
        RustType {
            name: String::new(),
            is_array: false,
            has_const: false,
            has_signed: false,
            has_unsigned: false,
        }
    }

    /// The type named `name`.
    pub fn from_name(name: &str) -> (r: Self)
        ensures
            r@ == named(name@),
    {
        RustType { name: String::from_str(name), ..RustType::new() }
    }

    /// The Rust type of an integer constant with this suffix.
    pub fn from_integer_suffix(suffix: &IntegerSuffix) -> (r: Self)
        ensures
            r@ == named(integer_type_name(*suffix)),
    {
        RustType::from_name(integer_type_str(*suffix))
    }

    /// The Rust type of a floating constant with this suffix.
    pub fn from_float_suffix(suffix: &FloatSuffix) -> (r: Self)
        ensures
            r@ == named(float_type_name(*suffix)),
    {
        RustType::from_name(float_type_str(*suffix))
    }

    /// The type, as Rust source text.
    pub fn name(&self) -> (r: &str)
        ensures
            r@ == self@.name,
    {
        self.name.as_str()
    }

    /// Whether the type is an array type.
    pub fn is_array(&self) -> (r: bool)
        ensures
            r == self@.is_array,
    {
        self.is_array
    }

    fn rename(&mut self, name: String)
        ensures
            final(self)@ == renamed(old(self)@, name@),
    {
        self.name = name;
    }

    /// Applies a type specifier. Type specifiers outside [`specifier_supported`] are not
    /// handled.
    pub fn with_type_specifier(&mut self, node: &Node<TypeSpecifier>)
        requires
            specifier_supported(node.node),
        ensures
            final(self)@ == specifier_type(old(self)@, node.node),
    {
        match &node.node {
            TypeSpecifier::Void => self.rename(String::from_str("core::ffi::c_void")),
            TypeSpecifier::Char => {
                if self.has_unsigned {
                    self.rename(String::from_str("core::ffi::c_uchar"));
                } else if self.has_signed {
                    self.rename(String::from_str("core::ffi::c_schar"));
                } else {
                    self.rename(String::from_str("core::ffi::c_char"));
                }
            },
            TypeSpecifier::Short => {
                if self.has_unsigned {
                    self.rename(String::from_str("core::ffi::c_ushort"));
                } else {
                    self.rename(String::from_str("core::ffi::c_short"));
                }
            },
            TypeSpecifier::Int => {
                if self.has_unsigned {
                    self.rename(String::from_str("core::ffi::c_uint"));
                } else {
                    self.rename(String::from_str("core::ffi::c_int"));
                }
            },
            TypeSpecifier::Long => {
                if self.has_unsigned {
                    self.rename(String::from_str("core::ffi::c_ulong"));
                } else {
                    self.rename(String::from_str("core::ffi::c_long"));
                }
            },
            TypeSpecifier::Float => self.rename(String::from_str("core::ffi::c_float")),
            TypeSpecifier::Double => self.rename(String::from_str("core::ffi::c_double")),
            TypeSpecifier::Bool => self.rename(String::from_str("bool")),
            TypeSpecifier::Struct(v) => {
                if let Some(id) = &v.node.identifier {
                    self.rename(id.node.name.clone());
                }
            },
            TypeSpecifier::Enum(v) => {
                if let Some(id) = &v.node.identifier {
                    self.rename(id.node.name.clone());
                }
            },
            TypeSpecifier::TypedefName(v) => self.rename(v.node.name.clone()),
            _ => {},
        }
    }

    /// Applies a type qualifier: `const` is remembered.
    pub fn with_type_qualifier(&mut self, node: &Node<TypeQualifier>)
        ensures
            final(self)@ == qualifier_type(old(self)@, node.node),
    {
        match &node.node {
            TypeQualifier::Const => self.has_const = true,
            _ => {},
        }
    }

    /// Applies a declaration specifier.
    pub fn with_declaration_specifier(&mut self, node: &Node<DeclarationSpecifier>)
        requires
            declaration_specifier_supported(node.node),
        ensures
            final(self)@ == declaration_specifier_type(old(self)@, node.node),
    {
        match &node.node {
            DeclarationSpecifier::TypeSpecifier(p) => {
                self.with_type_specifier(p);
            },
            DeclarationSpecifier::TypeQualifier(q) => {
                self.with_type_qualifier(q);
            },
            _ => {},
        }
    }

    /// Applies a specifier or qualifier of a type name.
    pub fn with_specifier_qualifier(&mut self, node: &Node<SpecifierQualifier>)
        requires
            specifier_qualifier_supported(node.node),
        ensures
            final(self)@ == specifier_qualifier_type(old(self)@, node.node),
    {
        match &node.node {
            SpecifierQualifier::TypeSpecifier(v) => self.with_type_specifier(v),
            SpecifierQualifier::TypeQualifier(v) => self.with_type_qualifier(v),
            SpecifierQualifier::Extension => {},
        }
    }

    /// The type that a parameter declaration names, from its specifiers.
    pub fn from_parameter_declaration(node: &Node<ParameterDeclaration>) -> (r: Self)
        requires
            declaration_specifiers_supported(node.node.specifiers@),
        ensures
            r@ == parameter_type(node.node),
    {
        let mut this = Self::new();
        let specs = &node.node.specifiers;
        let mut i: usize = 0;
        while i < specs.len()
            invariant
                i <= specs@.len(),
                specs@ == node.node.specifiers@,
                declaration_specifiers_supported(specs@),
                this@ == declaration_specifiers_type(named(Seq::empty()), specs@.take(i as int)),
            decreases specs@.len() - i,
        {
            assert(specs@.take(i + 1).drop_last() =~= specs@.take(i as int));
            this.with_declaration_specifier(&specs[i]);
            i = i + 1;
        }
        assert(specs@.take(i as int) =~= specs@);
        this
    }

    /// The Rust type that a type name denotes.
    pub fn from_type_name<F: InlineFunction>(node: &Node<TypeName>, ctx: &HackBindgenContext<F>) -> (r: Self)
        requires
            type_name_ok(node.node),
        ensures
            r@ == type_name_info(node.node, ctx.scope()),
        decreases node,
    {
        let mut this = Self::new();
        let specs = &node.node.specifiers;
        let mut i: usize = 0;
        while i < specs.len()
            invariant
                i <= specs@.len(),
                specs@ == node.node.specifiers@,
                specifier_qualifiers_supported(specs@),
                this@ == specifier_qualifiers_type(named(Seq::empty()), specs@.take(i as int)),
            decreases specs@.len() - i,
        {
            assert(specs@.take(i + 1).drop_last() =~= specs@.take(i as int));
            this.with_specifier_qualifier(&specs[i]);
            i = i + 1;
        }
        assert(specs@.take(i as int) =~= specs@);
        if let Some(s) = &node.node.declarator {
            this.with_declarator(s, ctx);
        }
        this
    }

    /// Applies the derived declarators (pointer, array, function) in order.
    pub fn with_declarator<F: InlineFunction>(&mut self, node: &Node<Declarator>, ctx: &HackBindgenContext<F>)
        requires
            derived_ok(node.node.derived@),
        ensures
            final(self)@ == derived_type(old(self)@, node.node.derived@, ctx.scope()),
        decreases node,
    {
        let ghost t0 = self@;
        let ds = &node.node.derived;
        proof {
            lemma_derived_ok(ds@);
            assert(decreases_to!(node => ds@));
        }
        let mut k: usize = 0;
        while k < ds.len()
            invariant
                k <= ds@.len(),
                ds@ == node.node.derived@,
                forall|i: int| 0 <= i < ds@.len() ==> derived_step_ok(#[trigger] ds@[i].node),
                decreases_to!(node => ds@),
                self@ == derived_type(t0, ds@.take(k as int), ctx.scope()),
            decreases ds@.len() - k,
        {
            assert(ds@.take(k + 1).drop_last() =~= ds@.take(k as int));
            proof {
                assert(decreases_to!(ds@ => ds@[k as int]));
            }
            self.with_derived_declarator(&ds[k], ctx);
            k = k + 1;
        }
        assert(ds@.take(k as int) =~= ds@);
    }

    fn with_derived_declarator<F: InlineFunction>(&mut self, node: &Node<DerivedDeclarator>, ctx: &HackBindgenContext<F>)
        requires
            derived_step_ok(node.node),
        ensures
            final(self)@ == derived_step(old(self)@, node.node, ctx.scope()),
        decreases node,
    {
        match &node.node {
            DerivedDeclarator::Pointer(v) => self.with_pointer(v),
            DerivedDeclarator::Array(v) => {
                self.is_array = true;
                match &v.node.size {
                    ArraySize::Unknown => {
                        let name = concat3("[", self.name.as_str(), "]");
                        self.rename(name);
                    },
                    ArraySize::VariableUnknown => {
                        let name = concat3("[", self.name.as_str(), "]");
                        self.rename(name);
                    },
                    ArraySize::VariableExpression(v) => {
                        let len = RustExpression::from_node(v, ctx).expression;
                        let name = concat5("[", self.name.as_str(), "; ", len.as_str(), "]");
                        self.rename(name);
                    },
                    ArraySize::StaticExpression(v) => {
                        let len = RustExpression::from_node(v, ctx).expression;
                        let name = concat5("[", self.name.as_str(), "; ", len.as_str(), "]");
                        self.rename(name);
                    },
                }
            },
            DerivedDeclarator::Function(v) => self.with_function(&v.node),
            _ => {},
        }
    }

    /// Makes this a pointer to the type so far; a `const` qualifier of the pointer is
    /// remembered for the next level.
    fn with_pointer(&mut self, v: &Vec<Node<PointerQualifier>>)
        ensures
            final(self)@ == pointer_qualifiers_type(renamed(old(self)@, pointer_name(old(self)@)), v@),
    {
        let name = if self.has_const {
            concat2("*const ", self.name.as_str())
        } else {
            concat2("*mut ", self.name.as_str())
        };
        self.rename(name);
        let ghost t1 = self@;
        let mut i: usize = 0;
        while i < v.len()
            invariant
                i <= v@.len(),
                self@ == pointer_qualifiers_type(t1, v@.take(i as int)),
            decreases v@.len() - i,
        {
            assert(v@.take(i + 1).drop_last() =~= v@.take(i as int));
            match &v[i].node {
                PointerQualifier::TypeQualifier(q) => match &q.node {
                    TypeQualifier::Const => self.has_const = true,
                    _ => {},
                },
                _ => {},
            }
            i = i + 1;
        }
        assert(v@.take(i as int) =~= v@);
    }

    /// Makes this a function pointer type returning the type so far.
    fn with_function(&mut self, v: &FunctionDeclarator)
        requires
            forall|j: int|
                0 <= j < v.parameters@.len() ==> declaration_specifiers_supported(
                    (#[trigger] v.parameters@[j]).node.specifiers@,
                ),
        ensures
            final(self)@ == renamed(old(self)@, function_name(old(self)@, *v)),
    {
        let params = &v.parameters;
        let mut args: Vec<String> = Vec::new();
        let mut i: usize = 0;
        while i < params.len()
            invariant
                i <= params@.len(),
                params@ == v.parameters@,
                forall|j: int|
                    0 <= j < params@.len() ==> declaration_specifiers_supported(
                        (#[trigger] params@[j]).node.specifiers@,
                    ),
                views(args@) =~= params@.take(i as int).map_values(
                    |p: Node<ParameterDeclaration>| parameter_type(p.node).name,
                ),
            decreases params@.len() - i,
        {
            let t = RustType::from_parameter_declaration(&params[i]);
            let ghost old_args = args@;
            args.push(t.name);
            assert(views(args@) =~= views(old_args).push(t@.name));
            assert(params@.take(i + 1) =~= params@.take(i as int).push(params@[i as int]));
            i = i + 1;
        }
        assert(params@.take(i as int) =~= params@);
        if v.ellipsis == Ellipsis::Present {
            args.push(String::from_str("..."));
        }
        let void = String::from_str("void");
        if args.len() == 1 && args[0] == void {
            args.clear();
        }
        assert(views(args@) =~= function_arguments(*v));
        let joined = join_strings(&args, ", ");
        let name = concat5("Option<extern \"C\" fn(", joined.as_str(), ") -> ", self.name.as_str(), ">");
        self.rename(name);
    }
}

// ---------------------------------------------------------------------------
// Rust expressions and the translation context
// ---------------------------------------------------------------------------
/// A Rust expression, with its type when known.
#[derive(Debug)]
pub struct RustExpression {
    type_info: Option<RustType>,
    expression: String,
}

impl View for RustExpression {
    type V = ExprInfo;

    closed spec fn view(&self) -> ExprInfo {
        ExprInfo { ty: type_opt(self.type_info), text: self.expression@ }
    }
}

impl Clone for RustExpression {
    fn clone(&self) -> (r: Self)
        ensures
            r@ == self@,
    {
        RustExpression {
            type_info: clone_type_opt(&self.type_info),
            expression: self.expression.clone(),
        }
    }
}

/// The views of translated expressions.
pub open spec fn expr_views(es: Seq<RustExpression>) -> Seq<ExprInfo> {
    es.map_values(|e: RustExpression| e@)
}

/// A translated macro definition.
#[derive(Debug)]
pub enum MacroItem {
    Expression(RustExpression),
    TypeName(RustType),
}

impl View for MacroItem {
    type V = MacroInfo;

    open spec fn view(&self) -> MacroInfo {
        match self {
            MacroItem::Expression(e) => MacroInfo::Expression(e@),
            MacroItem::TypeName(t) => MacroInfo::TypeName(t@),
        }
    }
}

/// A function that translates calls of the name it is registered under: given the
/// translated arguments and the context, it gives the translation of the call.
pub trait InlineFunction: Sized {
    /// What a call translates into, from the translations of its arguments, in order, and
    /// what the context holds.
    spec fn translate_call(&self, args: Seq<ExprInfo>, scope: Scope<Self>) -> ExprInfo;

    /// Translates a call from its translated arguments.
    fn call(&self, args: &[RustExpression], ctx: &HackBindgenContext<Self>) -> (r: RustExpression)
        ensures
            r@ == self.translate_call(expr_views(args@), ctx.scope()),
    ;
}

/// An inline function whose calls `name(a, b, ...)` are kept as written, with a fixed
/// result type.
#[derive(Debug)]
pub struct InlineFn {
    pub name: String,
    pub result_type: RustType,
}

/// The text of a call of `name` with arguments whose texts are `args`.
pub open spec fn call_text(name: Seq<char>, args: Seq<Seq<char>>) -> Seq<char> {
    name + "("@ + join(args, ", "@) + ")"@
}

impl InlineFunction for InlineFn {
    open spec fn translate_call(&self, args: Seq<ExprInfo>, scope: Scope<Self>) -> ExprInfo {
        ExprInfo { ty: Some(self.result_type@), text: call_text(self.name@, texts(args)) }
    }

    fn call(&self, args: &[RustExpression], ctx: &HackBindgenContext<Self>) -> (r: RustExpression) {
        let args = expression_texts(args);
        let args = join_strings(&args, ", ");
        RustExpression {
            type_info: Some(self.result_type.clone()),
            expression: concat4(self.name.as_str(), "(", args.as_str(), ")"),
        }
    }
}

/// The translation context: translated macros and inline functions, by name.
#[derive(Debug)]
pub struct HackBindgenContext<F> {
    macro_define: NameMap<MacroItem>,
    inline_fn: NameMap<F>,
}

impl<F> HackBindgenContext<F> {
    /// What translations can refer to.
    pub closed spec fn scope(&self) -> Scope<F> {
        Scope {
            macros: self.macro_define.view().map_values(|m: MacroItem| m@),
            inline_fns: self.inline_fn.view(),
        }
    }

    /// An empty context.
    pub fn new() -> (r: Self)
        ensures
            r.scope().macros == Map::<Seq<char>, MacroInfo>::empty(),
            r.scope().inline_fns == Map::<Seq<char>, F>::empty(),
    {
        let r = HackBindgenContext { macro_define: NameMap::new(), inline_fn: NameMap::new() };
        assert(r.scope().macros =~= Map::<Seq<char>, MacroInfo>::empty());
        r
    }

    /// Registers an inline function under `name`, in place of any earlier one.
    pub fn define_inline_fn(&mut self, name: &str, inline_fn: F)
        ensures
            final(self).scope().macros == old(self).scope().macros,
            final(self).scope().inline_fns == old(self).scope().inline_fns.insert(name@, inline_fn),
    {
        self.inline_fn.insert(String::from_str(name), inline_fn);
    }

    /// Stores the translation of the macro `name`, in place of any earlier one.
    pub(crate) fn insert_macro(&mut self, name: &str, item: MacroItem)
        ensures
            final(self).scope().inline_fns == old(self).scope().inline_fns,
            final(self).scope().macros == old(self).scope().macros.insert(name@, item@),
    {
        let ghost m = item;
        self.macro_define.insert(String::from_str(name), item);
        assert(self.scope().macros =~= old(self).scope().macros.insert(name@, m@));
    }

    /// The translation stored for the macro `name`.
    pub(crate) fn macro_item(&self, name: &str) -> (r: Option<&MacroItem>)
        ensures
            match r {
                Some(m) => self.scope().macros.contains_key(name@) && self.scope().macros[name@]
                    == m@,
                None => !self.scope().macros.contains_key(name@),
            },
    {
        self.macro_define.get(name)
    }

    /// The inline function registered under `name`.
    fn inline_fn_named(&self, name: &str) -> (r: Option<&F>)
        ensures
            match r {
                Some(f) => self.scope().inline_fns.contains_key(name@)
                    && self.scope().inline_fns[name@] == *f,
                None => !self.scope().inline_fns.contains_key(name@),
            },
    {
        self.inline_fn.get(name)
    }
}

impl HackBindgenContext<InlineFn> {
    /// Registers an inline function `name` whose calls are kept as written and have type
    /// `ty`.
    pub fn define_inline_fn_type(&mut self, name: &str, ty: RustType)
        ensures
            final(self).scope().macros == old(self).scope().macros,
            final(self).scope().inline_fns == old(self).scope().inline_fns.insert(
                name@,
                final(self).scope().inline_fns[name@],
            ),
            final(self).scope().inline_fns[name@].name@ == name@,
            final(self).scope().inline_fns[name@].result_type@ == ty@,
    {
        self.define_inline_fn(name, InlineFn { name: String::from_str(name), result_type: ty });
    }
}

impl<F> Default for HackBindgenContext<F> {
    fn default() -> (r: Self)
        ensures
            r.scope().macros == Map::<Seq<char>, MacroInfo>::empty(),
            r.scope().inline_fns == Map::<Seq<char>, F>::empty(),
    {
        HackBindgenContext::new()
    }
}

fn unary_parts_str(op: UnaryOperator) -> (r: (&'static str, &'static str))
    ensures
        (r.0@, r.1@) == unary_parts(op),
{
    match op {
        UnaryOperator::PostIncrement => ("{let p = &mut (", "); let v = *p; *p += 1; v}"),
        UnaryOperator::PostDecrement => ("{let p = &mut (", "); let v = *p; *p -= 1; v}"),
        UnaryOperator::PreIncrement => ("{let p = &mut (", "); *p += 1; *p}"),
        UnaryOperator::PreDecrement => ("{let p = &mut (", "); *p -= 1; *p}"),
        UnaryOperator::Address => ("(&raw const (", ")).cast_mut()"),
        UnaryOperator::Indirection => ("*(", ")"),
        UnaryOperator::Plus => ("(", ")"),
        UnaryOperator::Minus => ("-(", ")"),
        UnaryOperator::Complement => ("!(", ")"),
        UnaryOperator::Negate => ("((", ") == 0) as core::ffi::c_int"),
    }
}

fn binary_parts_str(op: BinaryOperator) -> (r: (&'static str, &'static str, &'static str))
    ensures
        (r.0@, r.1@, r.2@) == binary_parts(op),
{
    match op {
        BinaryOperator::Index => ("(", ")[", "]"),
        BinaryOperator::Multiply => ("(", ") * (", ")"),
        BinaryOperator::Divide => ("(", ") / (", ")"),
        BinaryOperator::Modulo => ("(", ") % (", ")"),
        BinaryOperator::Plus => ("(", ") + (", ")"),
        BinaryOperator::Minus => ("(", ") - (", ")"),
        BinaryOperator::ShiftLeft => ("((", ") << ((", ") as i32))"),
        BinaryOperator::ShiftRight => ("((", ") >> ((", ") as i32))"),
        BinaryOperator::Less => ("((", ") < (", ")) as core::ffi::c_int"),
        BinaryOperator::Greater => ("((", ") > (", ")) as core::ffi::c_int"),
        BinaryOperator::LessOrEqual => ("((", ") <= (", ")) as core::ffi::c_int"),
        BinaryOperator::GreaterOrEqual => ("((", ") >= (", ")) as core::ffi::c_int"),
        BinaryOperator::Equals => ("((", ") == (", ")) as core::ffi::c_int"),
        BinaryOperator::NotEquals => ("((", ") != (", ")) as core::ffi::c_int"),
        BinaryOperator::BitwiseAnd => ("((", ") & (", "))"),
        BinaryOperator::BitwiseXor => ("((", ") ^ (", "))"),
        BinaryOperator::BitwiseOr => ("((", ") | (", "))"),
        BinaryOperator::LogicalAnd => ("(((", ") as bool) && ((", ") as bool)) as core::ffi::c_int"),
        BinaryOperator::LogicalOr => ("(((", ") as bool) || ((", ") as bool)) as core::ffi::c_int"),
        BinaryOperator::Assign => ("{let p = &mut ", "; *p = ", "; *p}"),
        BinaryOperator::AssignMultiply => ("{let p = &mut ", "; *p += ", "; *p}"),
        BinaryOperator::AssignDivide => ("{let p = &mut ", "; *p /= ", "; *p}"),
        BinaryOperator::AssignModulo => ("{let p = &mut ", "; *p %= ", "; *p}"),
        BinaryOperator::AssignPlus => ("{let p = &mut ", "; *p += ", "; *p}"),
        BinaryOperator::AssignMinus => ("{let p = &mut ", "; *p -= ", "; *p}"),
        BinaryOperator::AssignShiftLeft => ("{let p = &mut ", "; *p <<= (", " as i32); *p}"),
        BinaryOperator::AssignShiftRight => ("{let p = &mut ", "; *p >>= (", " as i32); *p}"),
        BinaryOperator::AssignBitwiseAnd => ("{let p = &mut ", "; *p &= ", "; *p}"),
        BinaryOperator::AssignBitwiseXor => ("{let p = &mut ", "; *p ^= ", "; *p}"),
        BinaryOperator::AssignBitwiseOr => ("{let p = &mut ", "; *p |= ", "; *p}"),
    }
}

fn binary_type_of(op: BinaryOperator, l: Option<RustType>, r: Option<RustType>) -> (t: Option<
    RustType,
>)
    ensures
        type_opt(t) == binary_type(op, type_opt(l), type_opt(r)),
{
    match op {
        BinaryOperator::Index => None,
        BinaryOperator::ShiftLeft | BinaryOperator::ShiftRight | BinaryOperator::AssignShiftLeft
        | BinaryOperator::AssignShiftRight => l,
        BinaryOperator::Less | BinaryOperator::Greater | BinaryOperator::LessOrEqual
        | BinaryOperator::GreaterOrEqual | BinaryOperator::Equals | BinaryOperator::NotEquals
        | BinaryOperator::LogicalAnd | BinaryOperator::LogicalOr => Some(
            RustType::from_name("core::ffi::c_int"),
        ),
        _ => either_type(l, r),
    }
}

fn float_width_str(f: FloatFormat) -> (r: &'static str)
    ensures
        r@ == float_width(f),
{
    match f {
        FloatFormat::Float => "f",
        FloatFormat::Double => "",
        FloatFormat::LongDouble => "l",
        FloatFormat::TS18661Format => "",
    }
}

fn base_prefix_str(b: IntegerBase) -> (r: &'static str)
    ensures
        r@ == base_prefix(b),
{
    match b {
        IntegerBase::Decimal => "",
        IntegerBase::Octal => "0",
        IntegerBase::Hexadecimal => "0x",
        IntegerBase::Binary => "0b",
    }
}

/// The texts of translated expressions.
fn expression_texts(es: &[RustExpression]) -> (r: Vec<String>)
    ensures
        views(r@) == texts(expr_views(es@)),
{
    let mut r: Vec<String> = Vec::new();
    let mut i: usize = 0;
    while i < es.len()
        invariant
            i <= es@.len(),
            views(r@) =~= texts(expr_views(es@)).take(i as int),
        decreases es@.len() - i,
    {
        r.push(es[i].expression.clone());
        assert(texts(expr_views(es@))[i as int] == es@[i as int]@.text);
        assert(texts(expr_views(es@)).take(i + 1) =~= texts(expr_views(es@)).take(i as int).push(
            es@[i as int]@.text,
        ));
        i = i + 1;
    }
    assert(texts(expr_views(es@)).take(i as int) =~= texts(expr_views(es@)));
    r
}

impl RustExpression {
    /// The Rust source text.
    pub fn expression(&self) -> (r: &str)
        ensures
            r@ == self@.text,
    {
        self.expression.as_str()
    }

    /// The Rust type, when known.
    pub fn type_info(&self) -> (r: Option<&RustType>)
        ensures
            match r {
                Some(t) => self@.ty == Some(t@),
                None => self@.ty is None,
            },
    {
        match &self.type_info {
            Some(t) => Some(t),
            None => None,
        }
    }

    fn constant(c: &Constant) -> (r: Self)
        ensures
            r@ == constant_info(*c),
    {
        match c {
            Constant::Integer(v) => {
                let ty = RustType::from_integer_suffix(&v.suffix);
                let expression = concat4(
                    base_prefix_str(v.base),
                    v.number.as_str(),
                    " as ",
                    ty.name.as_str(),
                );
                RustExpression { type_info: Some(ty), expression }
            },
            Constant::Float(v) => {
                let ty = RustType::from_float_suffix(&v.suffix);
                let mut expression = concat3(v.number.as_str(), " as ", ty.name.as_str());
                if v.base == FloatBase::Hexadecimal {
                    let f = float_width_str(v.suffix.format);
                    let literal = concat3("0x", v.number.as_str(), f);
                    match parse_c_literal(literal.as_str().as_bytes()) {
                        Some(LiteralValue::Float(s)) => {
                            expression = concat4(s.as_str(), f, " as ", ty.name.as_str());
                        },
                        _ => {},
                    }
                }
                RustExpression { type_info: Some(ty), expression }
            },
            Constant::Character(v) => {
                let ty = RustType::from_name("core::ffi::c_char");
                let expression = concat3(v.as_str(), " as ", ty.name.as_str());
                RustExpression { type_info: Some(ty), expression }
            },
        }
    }

    fn string_literal(pieces: &Vec<String>) -> (r: Self)
        requires
            forall|i: int| 0 <= i < pieces@.len() ==> string_piece_ok(#[trigger] pieces@[i]),
        ensures
            r@ == string_literal_info(pieces@),
    {
        let mut bytes: Vec<u8> = Vec::new();
        let mut i: usize = 0;
        while i < pieces.len()
            invariant
                i <= pieces@.len(),
                forall|j: int| 0 <= j < pieces@.len() ==> string_piece_ok(#[trigger] pieces@[j]),
                bytes@ == string_bytes(pieces@.take(i as int)),
            decreases pieces@.len() - i,
        {
            assert(pieces@.take(i + 1).drop_last() =~= pieces@.take(i as int));
            assert(string_piece_ok(pieces@[i as int]));
            match parse_c_literal(pieces[i].as_str().as_bytes()) {
                Some(LiteralValue::Str(v)) => {
                    let mut v = v;
                    bytes.append(&mut v);
                },
                _ => {
                    assert(false);
                },
            }
            i = i + 1;
        }
        assert(pieces@.take(i as int) =~= pieces@);
        bytes.push(0);
        let mut name = String::from_str("&[u8; ");
        push_decimal(&mut name, bytes.len() as u128);
        name.append("]");
        let ty = RustType {
            name,
            is_array: true,
            has_const: false,
            has_signed: false,
            has_unsigned: false,
        };
        let expression = concat3("b\"", escape_ascii_string(bytes.as_slice()).as_str(), "\"");
        RustExpression { type_info: Some(ty), expression }
    }

    /// Translates each expression, in order.
    fn from_nodes<F: InlineFunction>(es: &Vec<Node<Expression>>, ctx: &HackBindgenContext<F>) -> (r: Vec<Self>)
        requires
            exprs_ok(es@),
        ensures
            expr_views(r@) == exprs_info(es@, ctx.scope()),
        decreases es,
    {
        proof {
            lemma_exprs_ok(es@);
        }
        let mut r: Vec<Self> = Vec::new();
        let mut i: usize = 0;
        while i < es.len()
            invariant
                i <= es@.len(),
                forall|j: int| 0 <= j < es@.len() ==> expr_ok(#[trigger] es@[j].node),
                expr_views(r@) =~= exprs_info(es@.take(i as int), ctx.scope()),
            decreases es@.len() - i,
        {
            assert(es@.take(i + 1).drop_last() =~= es@.take(i as int));
            proof {
                assert(decreases_to!(es => es@[i as int]));
            }
            let e = Self::from_node(&es[i], ctx);
            r.push(e);
            i = i + 1;
        }
        assert(es@.take(i as int) =~= es@);
        r
    }

    /// Translates a C expression into Rust source text, with its type when known.
    pub fn from_node<F: InlineFunction>(node: &Node<Expression>, ctx: &HackBindgenContext<F>) -> (r: Self)
        requires
            expr_ok(node.node),
        ensures
            r@ == expr_info(node.node, ctx.scope()),
        decreases node,
    {
        match &node.node {
            Expression::Identifier(v) => {
                let type_info = match ctx.macro_item(v.node.name.as_str()) {
                    Some(MacroItem::Expression(e)) => clone_type_opt(&e.type_info),
                    _ => None,
                };
                RustExpression { type_info, expression: v.node.name.clone() }
            },
            Expression::Constant(v) => Self::constant(&v.node),
            Expression::StringLiteral(v) => Self::string_literal(&v.node.pieces),
            Expression::GenericSelection(v) => RustExpression {
                type_info: None,
                expression: v.node.rendered.clone(),
            },
            Expression::Member(v) => {
                let exp = Self::from_node(&v.node.expression, ctx);
                let expression = match v.node.operator.node {
                    MemberOperator::Direct => concat4(
                        "(",
                        exp.expression.as_str(),
                        ").",
                        v.node.identifier.node.name.as_str(),
                    ),
                    MemberOperator::Indirect => concat4(
                        "(*(",
                        exp.expression.as_str(),
                        ")).",
                        v.node.identifier.node.name.as_str(),
                    ),
                };
                RustExpression { type_info: None, expression }
            },
            Expression::Call(v) => {
                let translated = Self::from_nodes(&v.node.arguments, ctx);
                let args = join_strings(&expression_texts(translated.as_slice()), ", ");
                match &v.node.callee.node {
                    Expression::Identifier(f) => {
                        let name = f.node.name.as_str();
                        match ctx.inline_fn_named(name) {
                            Some(g) => g.call(translated.as_slice(), ctx),
                            None => RustExpression {
                                type_info: None,
                                expression: concat4(name, "(", args.as_str(), ")"),
                            },
                        }
                    },
                    _ => {
                        let callee = Self::from_node(&v.node.callee, ctx);
                        RustExpression {
                            type_info: None,
                            expression: concat5(
                                "(",
                                callee.expression.as_str(),
                                ")(",
                                args.as_str(),
                                ")",
                            ),
                        }
                    },
                }
            },
            Expression::CompoundLiteral(v) => {
                let ty = RustType::from_type_name(&v.node.ty, ctx);
                let mut code = String::new();
                let mut index: u128 = 0;
                Self::init_list_items(&mut code, &v.node.initializer_list, ctx, &mut index);
                let expression = concat5(
                    "unsafe {let mut v = core::mem::zeroed::<",
                    ty.name.as_str(),
                    ">(); ",
                    code.as_str(),
                    " v}",
                );
                RustExpression { type_info: Some(ty), expression }
            },
            Expression::SizeOfTy(v) => {
                let par_ty = RustType::from_type_name(&v.node.ty, ctx);
                RustExpression {
                    type_info: Some(RustType::from_name("usize")),
                    expression: concat3("size_of::<", par_ty.name.as_str(), ">()"),
                }
            },
            Expression::AlignOf(v) => {
                let par_ty = RustType::from_type_name(&v.node.ty, ctx);
                RustExpression {
                    type_info: Some(RustType::from_name("usize")),
                    expression: concat3("align_of::<", par_ty.name.as_str(), ">()"),
                }
            },
            Expression::UnaryOperator(v) => {
                let ops = Self::from_node(&v.node.operand, ctx);
                let parts = unary_parts_str(v.node.operator.node);
                let expression = concat3(parts.0, ops.expression.as_str(), parts.1);
                let type_info = match v.node.operator.node {
                    UnaryOperator::Address => match ops.type_info {
                        Some(i) => Some(RustType::from_name(concat3("*mut (", i.name.as_str(), ")").as_str())),
                        None => None,
                    },
                    UnaryOperator::Indirection => None,
                    UnaryOperator::Negate => Some(RustType::from_name("bool")),
                    _ => ops.type_info,
                };
                RustExpression { type_info, expression }
            },
            Expression::Cast(v) => {
                let ops = Self::from_node(&v.node.expression, ctx);
                let ty = RustType::from_type_name(&v.node.ty, ctx);
                let expression = concat3(ops.expression.as_str(), " as ", ty.name.as_str());
                RustExpression { type_info: Some(ty), expression }
            },
            Expression::BinaryOperator(v) => {
                let lhs = Self::from_node(&v.node.lhs, ctx);
                let rhs = Self::from_node(&v.node.rhs, ctx);
                let parts = binary_parts_str(v.node.operator.node);
                let expression = concat5(
                    parts.0,
                    lhs.expression.as_str(),
                    parts.1,
                    rhs.expression.as_str(),
                    parts.2,
                );
                RustExpression {
                    type_info: binary_type_of(v.node.operator.node, lhs.type_info, rhs.type_info),
                    expression,
                }
            },
            Expression::Conditional(v) => {
                let condition = Self::from_node(&v.node.condition, ctx);
                let then_expression = Self::from_node(&v.node.then_expression, ctx);
                let else_expression = Self::from_node(&v.node.else_expression, ctx);
                let mut expression = concat4(
                    "if ",
                    condition.expression.as_str(),
                    " {",
                    then_expression.expression.as_str(),
                );
                expression.append("} else {");
                expression.append(else_expression.expression.as_str());
                expression.append("}");
                RustExpression {
                    type_info: either_type(then_expression.type_info, else_expression.type_info),
                    expression,
                }
            },
            Expression::Comma(v) => {
                let code = Self::from_nodes(v, ctx);
                let type_info = if code.len() == 0 {
                    None
                } else {
                    clone_type_opt(&code[code.len() - 1].type_info)
                };
                let joined = join_strings(&expression_texts(code.as_slice()), ";");
                RustExpression { type_info, expression: concat3("{", joined.as_str(), "}") }
            },
            Expression::SizeOfVal(_) => RustExpression { type_info: None, expression: String::new() },
            Expression::OffsetOf => RustExpression { type_info: None, expression: String::new() },
            Expression::VaArg => RustExpression { type_info: None, expression: String::new() },
            Expression::Statement => RustExpression { type_info: None, expression: String::new() },
        }
    }

    /// Appends the statements of initializer list items to `code`, threading the index.
    fn init_list_items<F: InlineFunction>(
        code: &mut String,
        items: &Vec<Node<InitializerListItem>>,
        ctx: &HackBindgenContext<F>,
        index: &mut u128,
    )
        requires
            items_ok(items@),
        ensures
            final(code)@ == old(code)@ + init_items(items@, ctx.scope(), *old(index)).0,
            *final(index) == init_items(items@, ctx.scope(), *old(index)).1,
        decreases items,
    {
        proof {
            lemma_items_ok(items@);
        }
        let ghost code0 = code@;
        let ghost index0 = *index;
        let mut i: usize = 0;
        while i < items.len()
            invariant
                i <= items@.len(),
                forall|j: int| 0 <= j < items@.len() ==> item_ok(#[trigger] items@[j].node),
                code@ == code0 + init_items(items@.take(i as int), ctx.scope(), index0).0,
                *index == init_items(items@.take(i as int), ctx.scope(), index0).1,
            decreases items@.len() - i,
        {
            assert(items@.take(i + 1).drop_last() =~= items@.take(i as int));
            proof {
                assert(decreases_to!(items => items@[i as int]));
            }
            Self::init_list(code, &items[i], ctx, index);
            i = i + 1;
        }
        assert(items@.take(i as int) =~= items@);
    }

    /// The designators of an initializer list item, as text.
    fn designator_list<F: InlineFunction>(ds: &Vec<Node<Designator>>, ctx: &HackBindgenContext<F>) -> (r: Vec<String>)
        requires
            designators_ok(ds@),
        ensures
            views(r@) == designator_texts(ds@, ctx.scope()),
        decreases ds,
    {
        proof {
            lemma_designators_ok(ds@);
        }
        let mut r: Vec<String> = Vec::new();
        let mut i: usize = 0;
        while i < ds.len()
            invariant
                i <= ds@.len(),
                forall|j: int| 0 <= j < ds@.len() ==> designator_ok(#[trigger] ds@[j].node),
                views(r@) =~= designator_texts(ds@.take(i as int), ctx.scope()),
            decreases ds@.len() - i,
        {
            assert(ds@.take(i + 1).drop_last() =~= ds@.take(i as int));
            proof {
                assert(decreases_to!(ds => ds@[i as int]));
            }
            let ghost old_r = r@;
            let text = match &ds[i].node {
                Designator::Index(e) => concat3(
                    "[",
                    Self::from_node(e, ctx).expression.as_str(),
                    "]",
                ),
                Designator::Member(e) => concat2(".", e.node.name.as_str()),
                Designator::Range(e) => concat4(
                    Self::from_node(&e.node.from, ctx).expression.as_str(),
                    "..",
                    Self::from_node(&e.node.to, ctx).expression.as_str(),
                    "]",
                ),
            };
            assert(text@ == designator_text(ds@[i as int].node, ctx.scope()));
            assert(ds@.take(i + 1).last() == ds@[i as int]);
            r.push(text);
            assert(views(r@) =~= views(old_r).push(text@));
            i = i + 1;
        }
        assert(ds@.take(i as int) =~= ds@);
        r
    }

    /// Appends the statements that initialize `v` for one initializer list item.
    fn init_list<F: InlineFunction>(
        code: &mut String,
        item: &Node<InitializerListItem>,
        ctx: &HackBindgenContext<F>,
        index: &mut u128,
    )
        requires
            item_ok(item.node),
        ensures
            final(code)@ == old(code)@ + init_item(item.node, ctx.scope(), *old(index)).0,
            *final(index) == init_item(item.node, ctx.scope(), *old(index)).1,
        decreases item,
    {
        let designation = &item.node.designation;
        let index_str = if designation.len() == 0 {
            decimal_string(*index)
        } else {
            proof {
                lemma_designators_ok(designation@);
            }
            match &designation[0].node {
                Designator::Index(e) => {
                    let text = Self::from_node(e, ctx).expression;
                    match parse_c_literal(text.as_str().as_bytes()) {
                        Some(LiteralValue::Int(s)) => {
                            *index = s as u128;
                        },
                        Some(LiteralValue::Char(LiteralChar::Char(s))) => {
                            *index = s as u128;
                        },
                        Some(LiteralValue::Char(LiteralChar::Raw(s))) => {
                            *index = s as u128;
                        },
                        _ => {},
                    }
                },
                _ => {},
            }
            join_strings(&Self::designator_list(designation, ctx), "")
        };
        match &item.node.initializer.node {
            Initializer::Expression(e) => {
                let value = Self::from_node(e, ctx);
                code.append("v");
                code.append(index_str.as_str());
                code.append(" = ");
                code.append(value.expression.as_str());
                code.append(";\n");
                assert(code@ =~= old(code)@ + ("v"@ + index_str@ + " = "@ + value@.text + ";\n"@));
            },
            Initializer::List(e) => {
                let mut i: u128 = 0;
                Self::init_list_items(code, e, ctx, &mut i);
            },
        }
    }
}

} // verus!
