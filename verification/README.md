# oxc_ecmascript: side-effect analysis of ECMAScript expressions

`MayHaveSideEffects::may_have_side_effects` tells whether evaluating an
expression may change application state. It is written and proved in Verus:
the trait's `ensures` ties the answer to its spec method
`spec_may_have_side_effects`, which each implementation defines as a spec
function of `src/side_effects/semantics.rs`. Those spec functions take the
reference information as a `ReferenceStatus`, a function from references to
`Option<bool>`; `reference_status` turns an `IsGlobalReference` into one.

Layout:

- `src/ast.rs`: the syntax the analysis reads, as owned values, with the few
  node queries it needs (`is_number`, `BigIntLiteral::is_zero`, ...).
- `src/is_global_reference.rs`: the `IsGlobalReference` trait through which the
  analysis learns whether a reference is global, local or unknown.
- `src/side_effects/semantics.rs`: the definition, one spec function per kind of node.
- `src/side_effects/may_have_side_effects.rs`: the trait and its implementations.
- `src/side_effects/laws.rs`: how the answer depends on reference information:
  more information never adds side effects, and only the references that occur
  in the expression matter.
- `src/side_effects/node_laws.rs`: properties of particular kinds of node
  (collections, calls, comparisons, classes, BigInt arithmetic).
- `src/strings.rs`: string comparisons stated over characters.
- `app/lib.rs`: copies trees built by `oxc_ast` into the owned tree and runs the analysis.
