//! Deciding, before translating, whether a translation completes.
use crate::ast::{
    ArraySize, BinaryOperator, DeclarationSpecifier, DerivedDeclarator, Designator, Expression,
    Initializer, InitializerListItem, Node, SpecifierQualifier, TypeName, TypeSpecifier,
    UnaryOperator,
};
use crate::literal::{LiteralValue, parse_c_literal};
use crate::model::{
    declaration_specifier_supported, declaration_specifiers_supported, derived_ok,
    derived_step_ok, designator_ok, designators_ok, expr_info, expr_ok, exprs_ok, item_ok,
    items_ok, lemma_derived_ok, lemma_designators_ok, lemma_exprs_ok, lemma_items_ok,
    specifier_qualifier_supported, specifier_qualifiers_supported, specifier_supported,
    string_piece_ok, type_name_ok,
};
use crate::translate::{HackBindgenContext, InlineFunction, RustExpression};
use vstd::prelude::*;

verus! {

fn specifier_supported_exec(s: &TypeSpecifier) -> (b: bool)
    ensures
        b == specifier_supported(*s),
{
    match s {
        TypeSpecifier::Signed | TypeSpecifier::Unsigned | TypeSpecifier::Complex
        | TypeSpecifier::Atomic | TypeSpecifier::TypeOf | TypeSpecifier::TS18661Float => false,
        _ => true,
    }
}

fn declaration_specifiers_supported_exec(ds: &Vec<Node<DeclarationSpecifier>>) -> (b: bool)
    ensures
        b == declaration_specifiers_supported(ds@),
{
    let mut i: usize = 0;
    while i < ds.len()
        invariant
            i <= ds@.len(),
            forall|j: int| 0 <= j < i ==> declaration_specifier_supported(#[trigger] ds@[j].node),
        decreases ds@.len() - i,
    {
        let ok = match &ds[i].node {
            DeclarationSpecifier::TypeSpecifier(p) => specifier_supported_exec(&p.node),
            _ => true,
        };
        if !ok {
            assert(!declaration_specifier_supported(ds@[i as int].node));
            return false;
        }
        i = i + 1;
    }
    true
}

fn specifier_qualifiers_supported_exec(ss: &Vec<Node<SpecifierQualifier>>) -> (b: bool)
    ensures
        b == specifier_qualifiers_supported(ss@),
{
    let mut i: usize = 0;
    while i < ss.len()
        invariant
            i <= ss@.len(),
            forall|j: int| 0 <= j < i ==> specifier_qualifier_supported(#[trigger] ss@[j].node),
        decreases ss@.len() - i,
    {
        let ok = match &ss[i].node {
            SpecifierQualifier::TypeSpecifier(p) => specifier_supported_exec(&p.node),
            _ => true,
        };
        if !ok {
            assert(!specifier_qualifier_supported(ss@[i as int].node));
            return false;
        }
        i = i + 1;
    }
    true
}

fn string_piece_ok_exec(piece: &String) -> (b: bool)
    ensures
        b == string_piece_ok(*piece),
{
    match parse_c_literal(piece.as_str().as_bytes()) {
        Some(LiteralValue::Str(_)) => true,
        _ => false,
    }
}

/// Whether the translation of the expression completes (see [`expr_ok`]).
pub fn check_expr(node: &Node<Expression>) -> (b: bool)
    ensures
        b == expr_ok(node.node),
    decreases node,
{
    match &node.node {
        Expression::StringLiteral(v) => {
            let pieces = &v.node.pieces;
            let mut i: usize = 0;
            while i < pieces.len()
                invariant
                    i <= pieces@.len(),
                    pieces@ == v.node.pieces@,
                    expr_ok(node.node) == forall|j: int|
                        0 <= j < pieces@.len() ==> string_piece_ok(#[trigger] pieces@[j]),
                    forall|j: int| 0 <= j < i ==> string_piece_ok(#[trigger] pieces@[j]),
                decreases pieces@.len() - i,
            {
                if !string_piece_ok_exec(&pieces[i]) {
                    assert(!string_piece_ok(v.node.pieces@[i as int]));
                    return false;
                }
                i = i + 1;
            }
            true
        },
        Expression::Member(v) => check_expr(&v.node.expression),
        Expression::Call(v) => {
            check_exprs(&v.node.arguments) && match &v.node.callee.node {
                Expression::Identifier(_) => true,
                _ => check_expr(&v.node.callee),
            }
        },
        Expression::CompoundLiteral(v) => check_type_name(&v.node.ty) && check_items(
            &v.node.initializer_list,
        ),
        Expression::SizeOfTy(v) => check_type_name(&v.node.ty),
        Expression::AlignOf(v) => check_type_name(&v.node.ty),
        Expression::UnaryOperator(v) => check_expr(&v.node.operand),
        Expression::Cast(v) => check_expr(&v.node.expression) && check_type_name(&v.node.ty),
        Expression::BinaryOperator(v) => check_expr(&v.node.lhs) && check_expr(&v.node.rhs),
        Expression::Conditional(v) => check_expr(&v.node.condition) && check_expr(
            &v.node.then_expression,
        ) && check_expr(&v.node.else_expression),
        Expression::Comma(v) => check_exprs(v),
        _ => true,
    }
}

fn check_exprs(es: &Vec<Node<Expression>>) -> (b: bool)
    ensures
        b == exprs_ok(es@),
    decreases es,
{
    let mut i: usize = 0;
    while i < es.len()
        invariant
            i <= es@.len(),
            exprs_ok(es@.take(i as int)),
        decreases es@.len() - i,
    {
        assert(es@.take(i + 1).drop_last() =~= es@.take(i as int));
        proof {
            assert(decreases_to!(es => es@[i as int]));
        }
        if !check_expr(&es[i]) {
            proof {
                if exprs_ok(es@) {
                    lemma_exprs_ok(es@);
                }
            }
            return false;
        }
        i = i + 1;
    }
    assert(es@.take(i as int) =~= es@);
    true
}

/// Whether the translation of the type name completes (see [`type_name_ok`]).
pub fn check_type_name(node: &Node<TypeName>) -> (b: bool)
    ensures
        b == type_name_ok(node.node),
    decreases node,
{
    specifier_qualifiers_supported_exec(&node.node.specifiers) && match &node.node.declarator {
        Some(d) => check_derived(&d.node.derived),
        None => true,
    }
}

fn check_derived(ds: &Vec<Node<DerivedDeclarator>>) -> (b: bool)
    ensures
        b == derived_ok(ds@),
    decreases ds,
{
    let mut i: usize = 0;
    while i < ds.len()
        invariant
            i <= ds@.len(),
            derived_ok(ds@.take(i as int)),
        decreases ds@.len() - i,
    {
        assert(ds@.take(i + 1).drop_last() =~= ds@.take(i as int));
        proof {
            assert(decreases_to!(ds => ds@[i as int]));
        }
        let ok = match &ds[i].node {
            DerivedDeclarator::Array(a) => match &a.node.size {
                ArraySize::VariableExpression(e) => check_expr(e),
                ArraySize::StaticExpression(e) => check_expr(e),
                _ => true,
            },
            DerivedDeclarator::Function(f) => {
                let params = &f.node.parameters;
                let mut j: usize = 0;
                let mut all = true;
                while j < params.len()
                    invariant
                        j <= params@.len(),
                        params@ == f.node.parameters@,
                        all == forall|k: int|
                            0 <= k < j ==> declaration_specifiers_supported(
                                (#[trigger] params@[k]).node.specifiers@,
                            ),
                    decreases params@.len() - j,
                {
                    let one = declaration_specifiers_supported_exec(&params[j].node.specifiers);
                    proof {
                        if all && !one {
                            assert(!declaration_specifiers_supported(
                                params@[j as int].node.specifiers@,
                            ));
                        }
                    }
                    all = all && one;
                    j = j + 1;
                }
                all
            },
            _ => true,
        };
        assert(ok == derived_step_ok(ds@[i as int].node));
        if !ok {
            proof {
                if derived_ok(ds@) {
                    lemma_derived_ok(ds@);
                }
            }
            return false;
        }
        i = i + 1;
    }
    assert(ds@.take(i as int) =~= ds@);
    true
}

fn check_designators(ds: &Vec<Node<Designator>>) -> (b: bool)
    ensures
        b == designators_ok(ds@),
    decreases ds,
{
    let mut i: usize = 0;
    while i < ds.len()
        invariant
            i <= ds@.len(),
            designators_ok(ds@.take(i as int)),
        decreases ds@.len() - i,
    {
        assert(ds@.take(i + 1).drop_last() =~= ds@.take(i as int));
        proof {
            assert(decreases_to!(ds => ds@[i as int]));
        }
        let ok = match &ds[i].node {
            Designator::Index(e) => check_expr(e),
            Designator::Member(_) => true,
            Designator::Range(r) => check_expr(&r.node.from) && check_expr(&r.node.to),
        };
        assert(ok == designator_ok(ds@[i as int].node));
        if !ok {
            proof {
                if designators_ok(ds@) {
                    lemma_designators_ok(ds@);
                }
            }
            return false;
        }
        i = i + 1;
    }
    assert(ds@.take(i as int) =~= ds@);
    true
}

fn check_item(item: &Node<InitializerListItem>) -> (b: bool)
    ensures
        b == item_ok(item.node),
    decreases item,
{
    check_designators(&item.node.designation) && match &item.node.initializer.node {
        Initializer::Expression(e) => check_expr(e),
        Initializer::List(l) => check_items(l),
    }
}

fn check_items(items: &Vec<Node<InitializerListItem>>) -> (b: bool)
    ensures
        b == items_ok(items@),
    decreases items,
{
    let mut i: usize = 0;
    while i < items.len()
        invariant
            i <= items@.len(),
            items_ok(items@.take(i as int)),
        decreases items@.len() - i,
    {
        assert(items@.take(i + 1).drop_last() =~= items@.take(i as int));
        proof {
            assert(decreases_to!(items => items@[i as int]));
        }
        if !check_item(&items[i]) {
            proof {
                if items_ok(items@) {
                    lemma_items_ok(items@);
                }
            }
            return false;
        }
        i = i + 1;
    }
    assert(items@.take(i as int) =~= items@);
    true
}

impl RustExpression {
    /// Translates the expression when the translation completes (see [`expr_ok`]);
    /// `None` otherwise.
    pub fn try_from_node<F: InlineFunction>(node: &Node<Expression>, ctx: &HackBindgenContext<F>) -> (r: Option<Self>)
        ensures
            r is Some <==> expr_ok(node.node),
            r matches Some(e) ==> e@ == expr_info(node.node, ctx.scope()),
    {
        if check_expr(node) {
            Some(Self::from_node(node, ctx))
        } else {
            None
        }
    }
}

} // verus!
