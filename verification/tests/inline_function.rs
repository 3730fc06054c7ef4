use hack_bindgen::ast::{CallExpression, Constant, Expression, Identifier, Integer, IntegerBase, IntegerSize, IntegerSuffix, Node};
use hack_bindgen::model::{ExprInfo, Scope};
use hack_bindgen::translate::{HackBindgenContext, InlineFunction, RustExpression};
use vstd::seq::Seq;

/// An inline function whose call stands for its first argument.
struct FirstArgument;

impl InlineFunction for FirstArgument {
    // The specification exists for verified callers only; compiled code never calls it.
    fn translate_call(&self, _args: Seq<ExprInfo>, _scope: Scope<Self>) -> ExprInfo {
        unreachable!()
    }

    fn call(&self, args: &[RustExpression], _ctx: &HackBindgenContext<Self>) -> RustExpression {
        args[0].clone()
    }
}

fn node<T>(t: T) -> Node<T> {
    Node::new(t)
}

fn int_const(number: &str) -> Node<Expression> {
    node(Expression::Constant(Box::new(node(Constant::Integer(Integer {
        base: IntegerBase::Decimal,
        number: number.to_string(),
        suffix: IntegerSuffix { size: IntegerSize::Int, unsigned: false, imaginary: false },
    })))))
}

#[test]
fn custom_inline_function_translates_calls() {
    let mut ctx: HackBindgenContext<FirstArgument> = HackBindgenContext::new();
    let e = node(Expression::Call(Box::new(node(CallExpression {
        callee: Box::new(node(Expression::Identifier(Box::new(node(Identifier { name: "ID".to_string() }))))),
        arguments: vec![int_const("7"), int_const("8")],
    }))));
    let r = RustExpression::from_node(&e, &ctx);
    assert_eq!(r.expression(), "ID(7 as core::ffi::c_int, 8 as core::ffi::c_int)");
    assert!(r.type_info().is_none());
    ctx.define_inline_fn("ID", FirstArgument);
    let r = RustExpression::from_node(&e, &ctx);
    assert_eq!(r.expression(), "7 as core::ffi::c_int");
    assert_eq!(r.type_info().map(|t| t.name()), Some("core::ffi::c_int"));
}
