# hack_bindgen

Turns C macro definitions into Rust items while C bindings are generated. When the
binding generator meets a macro whose body parses as a C expression or type name, the
macro is translated into Rust source text and its body is replaced by a marker string;
after generation, every constant that carries a marker is rewritten into the macro's
translation (`pub const NAME: T = unsafe {...};` or `pub type NAME = T;`).

Calls of names registered as inline functions are translated by those functions: the
context is generic over a type implementing `InlineFunction`, whose `call` gets the
translated arguments and the context and gives the call's translation. `InlineFn` is the
implementation for functions whose calls are kept as written with a fixed result type
(`define_inline_fn_type`). A context holds inline functions of one type; to mix kinds of
translation, implement the trait for an enum. An implementation outside Verus supplies
`translate_call` only as a signature: the specification is never run.

Layout:

- `src/` — the verified library (Verus).
  - `ast.rs`: the part of the C syntax tree that the translation reads.
  - `model.rs`: what each type name and expression translates into, as spec functions,
    and when a translation completes.
  - `translate.rs`: `RustType`, `RustExpression` and the translation context, proved
    against the model.
  - `completion.rs`: deciding, before translating, whether a translation completes.
  - `callbacks.rs`: defining macros, marking them in the token stream, rewriting the
    generated constants.
  - `laws.rs`: properties across these functions.
  - `text.rs`, `name_map.rs`, `literal.rs`: decimal and escaped text, a name-keyed map,
    and evaluation of C literal tokens through `cexpr`.
- `app/` — the glue with `bindgen`: the `ParseCallbacks` implementation and `generate`.
  The C parsers for macro bodies (as an expression, as a type name) are supplied by the
  caller; the library decides between their results.
- `tests/` — tests of the library.
