//! How the side effects of operands, and the conversions an operator makes of
//! them, reach the expression around them.
use vstd::prelude::*;

use crate::ast::{
    ArrayExpressionElement, BinaryExpression, BinaryOperator, CallExpression, ClassElement,
    ConditionalExpression, Expression, LogicalExpression, ObjectProperty, ObjectPropertyKind,
    ParenthesizedExpression, PropertyKey, SpreadElement, TemplateLiteral, UnaryExpression,
    UnaryOperator,
};
use crate::is_global_reference::ReferenceStatus;
use crate::side_effects::node_laws::lemma_any_substitution_iff_exists;
use crate::side_effects::semantics::{
    binary_expression_may_have_side_effects, expression_may_have_side_effects,
    is_nan_infinity_or_undefined, maybe_object_with_to_primitive_related_properties_overridden,
    is_string_or_to_primitive_returns_string,
    maybe_symbol_or_bigint_or_to_primitive_may_return_symbol_or_bigint,
    maybe_symbol_or_to_primitive_may_return_symbol, substitution_may_have_side_effects,
    any_substitution_may_have_side_effects, template_literal_may_have_side_effects,
    logical_expression_may_have_side_effects, array_expression_element_may_have_side_effects,
    class_element_may_have_side_effects, object_property_kind_may_have_side_effects,
    spread_element_may_have_side_effects, property_may_override_to_primitive,
    unary_expression_may_have_side_effects,
};

verus! {

/// `left + right`.
pub open spec fn addition(left: Expression, right: Expression) -> BinaryExpression {
    BinaryExpression { left, operator: BinaryOperator::Addition, right }
}

/// Whether `expr` is a primitive literal, a template or an array literal.
pub open spec fn is_primitive_template_or_array_literal(expr: Expression) -> bool {
    expr is StringLiteral || expr is TemplateLiteral || expr is NullLiteral
        || expr is NumericLiteral || expr is BigIntLiteral || expr is BooleanLiteral
        || expr is RegExpLiteral || expr is ArrayExpression
}

/// What may be a `Symbol`, or convert to one through `ToPrimitive`: a
/// reference unless it is the global `NaN`, `Infinity` or `undefined`; an
/// object literal exactly when it may override `toString`, `valueOf` or
/// `Symbol.toPrimitive`; never a primitive literal, template or array literal;
/// and anything else, a call for one, always, since its value may be anything.
pub proof fn lemma_what_may_be_a_symbol(expr: Expression, status: ReferenceStatus)
    ensures
        expr matches Expression::Identifier(ident) ==> (
        maybe_symbol_or_to_primitive_may_return_symbol(status, expr)
            <==> !(is_nan_infinity_or_undefined(ident.name@) && status(ident) == Some(true))),
        expr matches Expression::ObjectExpression(obj) ==> (
        maybe_symbol_or_to_primitive_may_return_symbol(status, expr)
            <==> maybe_object_with_to_primitive_related_properties_overridden(obj)),
        is_primitive_template_or_array_literal(expr)
            ==> !maybe_symbol_or_to_primitive_may_return_symbol(status, expr),
        !(is_primitive_template_or_array_literal(expr) || expr is ObjectExpression
            || expr is Identifier) ==> maybe_symbol_or_to_primitive_may_return_symbol(status, expr),
        is_string_or_to_primitive_returns_string(expr)
            ==> !maybe_symbol_or_to_primitive_may_return_symbol(status, expr),
{
}

/// What may be a `Symbol` or a `BigInt`, or convert to one: as for `Symbol`s,
/// except that a BigInt literal is a `BigInt`.
pub proof fn lemma_what_may_be_a_symbol_or_big_int(expr: Expression, status: ReferenceStatus)
    ensures
        expr is BigIntLiteral
            ==> maybe_symbol_or_bigint_or_to_primitive_may_return_symbol_or_bigint(status, expr),
        !(expr is BigIntLiteral) ==> (
        maybe_symbol_or_bigint_or_to_primitive_may_return_symbol_or_bigint(status, expr)
            == maybe_symbol_or_to_primitive_may_return_symbol(status, expr)),
{
}

/// A call may return a `Symbol`: so converting its result to a string, as a
/// template substitution or a string concatenation does, or to a number, as
/// `-`, `~` and `+` do, may throw. This holds of every call, the global
/// `Symbol(...)` among them.
pub proof fn lemma_a_call_may_return_a_symbol(call: CallExpression, status: ReferenceStatus)
    ensures
        maybe_symbol_or_to_primitive_may_return_symbol(
            status,
            Expression::CallExpression(Box::new(call)),
        ),
        forall|template: TemplateLiteral|
            #[trigger] template.expressions@.contains(Expression::CallExpression(Box::new(call)))
                ==> expression_may_have_side_effects(
                Expression::TemplateLiteral(template),
                status,
            ),
        forall|string: Expression|
            #[trigger] is_string_or_to_primitive_returns_string(string) ==> {
                &&& binary_expression_may_have_side_effects(
                    addition(string, Expression::CallExpression(Box::new(call))),
                    status,
                )
                &&& binary_expression_may_have_side_effects(
                    addition(Expression::CallExpression(Box::new(call)), string),
                    status,
                )
            },
        forall|operator: UnaryOperator|
            operator == UnaryOperator::UnaryNegation || operator == UnaryOperator::BitwiseNot
                || operator == UnaryOperator::UnaryPlus ==> #[trigger]
            unary_expression_may_have_side_effects(
                UnaryExpression { operator, argument: Expression::CallExpression(Box::new(call)) },
                status,
            ),
{
    let c = Expression::CallExpression(Box::new(call));
    assert forall|template: TemplateLiteral|
        #[trigger] template.expressions@.contains(c) implies expression_may_have_side_effects(
        Expression::TemplateLiteral(template),
        status,
    ) by {
        let i = choose|i: int|
            0 <= i < template.expressions@.len() && template.expressions@[i] == c;
        assert(substitution_may_have_side_effects(template.expressions@[i], status));
        lemma_any_substitution_iff_exists(template.expressions@, status);
        assert(any_substitution_may_have_side_effects(template.expressions@, status));
        assert(template_literal_may_have_side_effects(template, status));
    }
}

/// Adding to something that is or converts to a string concatenates, which
/// throws when the other operand may be a `Symbol`: `a + b` may have a side
/// effect exactly when the other operand may be a `Symbol` or either operand
/// may have a side effect, on whichever side the string stands.
pub proof fn lemma_string_concatenation(
    string: Expression,
    other: Expression,
    status: ReferenceStatus,
)
    requires
        is_string_or_to_primitive_returns_string(string),
    ensures
        binary_expression_may_have_side_effects(addition(string, other), status) == (
        maybe_symbol_or_to_primitive_may_return_symbol(status, other)
            || expression_may_have_side_effects(string, status)
            || expression_may_have_side_effects(other, status)),
        binary_expression_may_have_side_effects(addition(other, string), status) == (
        maybe_symbol_or_to_primitive_may_return_symbol(status, other)
            || expression_may_have_side_effects(string, status)
            || expression_may_have_side_effects(other, status)),
{
}

/// Whether `a + b` may have a side effect does not depend on the order of its
/// operands.
pub proof fn lemma_addition_is_symmetric(
    left: Expression,
    right: Expression,
    status: ReferenceStatus,
)
    ensures
        binary_expression_may_have_side_effects(addition(left, right), status)
            == binary_expression_may_have_side_effects(addition(right, left), status),
{
}

/// Both operands of a binary operator are always evaluated: whenever one of
/// them may have a side effect, so may the whole expression, whatever the operator.
pub proof fn lemma_binary_operands_are_evaluated(expr: BinaryExpression, status: ReferenceStatus)
    ensures
        expression_may_have_side_effects(expr.left, status)
            ==> binary_expression_may_have_side_effects(expr, status),
        expression_may_have_side_effects(expr.right, status)
            ==> binary_expression_may_have_side_effects(expr, status),
{
}

/// The operand of a unary operator is evaluated, except a plain reference
/// under `typeof`: whenever it may have a side effect, so may the whole expression.
pub proof fn lemma_unary_operand_is_evaluated(expr: UnaryExpression, status: ReferenceStatus)
    requires
        !(expr.operator == UnaryOperator::Typeof && expr.argument is Identifier),
    ensures
        expression_may_have_side_effects(expr.argument, status)
            ==> unary_expression_may_have_side_effects(expr, status),
{
}

/// `!e` and `void e` convert nothing that can throw: they may have a side
/// effect exactly when `e` may.
pub proof fn lemma_not_and_void_are_their_argument(argument: Expression, status: ReferenceStatus)
    ensures
        unary_expression_may_have_side_effects(
            UnaryExpression { operator: UnaryOperator::LogicalNot, argument },
            status,
        ) == expression_may_have_side_effects(argument, status),
        unary_expression_may_have_side_effects(
            UnaryExpression { operator: UnaryOperator::Void, argument },
            status,
        ) == expression_may_have_side_effects(argument, status),
{
}

/// `-e`, `~e` and `+e` convert `e` to a number, which throws for a `Symbol`:
/// they may have a side effect whenever `e` may be a `Symbol` or may have one.
pub proof fn lemma_numeric_conversion_throws_on_symbol(
    expr: UnaryExpression,
    status: ReferenceStatus,
)
    requires
        expr.operator == UnaryOperator::UnaryNegation || expr.operator == UnaryOperator::BitwiseNot
            || expr.operator == UnaryOperator::UnaryPlus,
    ensures
        maybe_symbol_or_to_primitive_may_return_symbol(status, expr.argument)
            || expression_may_have_side_effects(expr.argument, status)
            ==> unary_expression_may_have_side_effects(expr, status),
{
}

/// `a || b`, `a && b` and `a ?? b` may have a side effect exactly when one of
/// their operands may: the left one is always evaluated, the right one may be.
pub proof fn lemma_logical_expression_is_its_operands(
    expr: LogicalExpression,
    status: ReferenceStatus,
)
    ensures
        expression_may_have_side_effects(Expression::LogicalExpression(Box::new(expr)), status)
            == (expression_may_have_side_effects(expr.left, status)
            || expression_may_have_side_effects(expr.right, status)),
{
    let whole = Expression::LogicalExpression(Box::new(expr));
    assert(expression_may_have_side_effects(whole, status)
        == logical_expression_may_have_side_effects(expr, status));
}

/// `t ? c : a` may have a side effect exactly when its test or one of its
/// branches may.
pub proof fn lemma_conditional_expression_is_its_parts(
    expr: ConditionalExpression,
    status: ReferenceStatus,
)
    ensures
        expression_may_have_side_effects(Expression::ConditionalExpression(Box::new(expr)), status)
            == (expression_may_have_side_effects(expr.test, status)
            || expression_may_have_side_effects(expr.consequent, status)
            || expression_may_have_side_effects(expr.alternate, status)),
{
    let whole = Expression::ConditionalExpression(Box::new(expr));
    reveal_with_fuel(expression_may_have_side_effects, 2);
    assert(whole matches Expression::ConditionalExpression(e) && *e == expr);
}

/// Parentheses change nothing: `(e)` may have a side effect exactly when `e` may.
pub proof fn lemma_parentheses_change_nothing(
    expr: ParenthesizedExpression,
    status: ReferenceStatus,
)
    ensures
        expression_may_have_side_effects(
            Expression::ParenthesizedExpression(Box::new(expr)),
            status,
        ) == expression_may_have_side_effects(expr.expression, status),
{
}

/// Literals, `this`, `super`, meta properties and function expressions are
/// free to evaluate: evaluating them only produces a value.
pub proof fn lemma_plain_values_are_free(expr: Expression, status: ReferenceStatus)
    requires
        expr is NumericLiteral || expr is BooleanLiteral || expr is StringLiteral
            || expr is BigIntLiteral || expr is NullLiteral || expr is RegExpLiteral
            || expr is MetaProperty || expr is ThisExpression || expr is ArrowFunctionExpression
            || expr is FunctionExpression || expr is Super,
    ensures
        !expression_may_have_side_effects(expr, status),
{
}

/// Whether `expr` is of a kind that the analysis does not look into:
/// assignments, updates, `new`, `await`, `yield`, member accesses, optional
/// chains, tagged templates, `import()`, `#x in o`, JSX and TypeScript wrappers.
pub open spec fn is_opaque_expression(expr: Expression) -> bool {
    expr is AssignmentExpression || expr is AwaitExpression || expr is ChainExpression
        || expr is ImportExpression || expr is NewExpression || expr is TaggedTemplateExpression
        || expr is UpdateExpression || expr is YieldExpression || expr is PrivateInExpression
        || expr is JSXElement || expr is JSXFragment || expr is TSAsExpression
        || expr is TSSatisfiesExpression || expr is TSTypeAssertion || expr is TSNonNullExpression
        || expr is TSInstantiationExpression || expr is V8IntrinsicExpression
        || expr is ComputedMemberExpression || expr is StaticMemberExpression
        || expr is PrivateFieldExpression
}

/// Expressions that the analysis does not look into are taken to have side effects.
pub proof fn lemma_opaque_expressions_may_have_side_effects(
    expr: Expression,
    status: ReferenceStatus,
)
    requires
        is_opaque_expression(expr),
    ensures
        expression_may_have_side_effects(expr, status),
{
}

/// A template literal may have a side effect exactly when one of its
/// substitutions may have one, or may be a `Symbol`, which `ToString` rejects.
pub proof fn lemma_template_converts_its_substitutions(
    template: TemplateLiteral,
    status: ReferenceStatus,
)
    ensures
        expression_may_have_side_effects(Expression::TemplateLiteral(template), status)
            <==> exists|i: int|
            #![trigger template.expressions@[i]]
            0 <= i < template.expressions@.len() && (maybe_symbol_or_to_primitive_may_return_symbol(
                status,
                template.expressions@[i],
            ) || expression_may_have_side_effects(template.expressions@[i], status)),
{
    let s = template.expressions@;
    lemma_any_substitution_iff_exists(s, status);
    assert(template_literal_may_have_side_effects(template, status)
        == any_substitution_may_have_side_effects(s, status));
    assert forall|i: int| 0 <= i < s.len() implies substitution_may_have_side_effects(s[i], status)
        == (maybe_symbol_or_to_primitive_may_return_symbol(status, s[i])
        || expression_may_have_side_effects(s[i], status)) by {}
}

/// Spreading runs the iterator of the value: only an array literal, a string
/// or a template is known to have the built-in one, and spreading it may have
/// a side effect only when evaluating it may; spreading anything else may.
pub proof fn lemma_spreading_runs_the_iterator(spread: SpreadElement, status: ReferenceStatus)
    ensures
        spread_element_may_have_side_effects(spread, status) == (!(
        spread.argument is ArrayExpression || spread.argument is StringLiteral
            || spread.argument is TemplateLiteral)
            || expression_may_have_side_effects(spread.argument, status)),
{
}

/// An element of an array literal that is an expression may have a side
/// effect exactly when that expression may; a hole never has one.
pub proof fn lemma_array_elements_are_evaluated(expr: Expression, status: ReferenceStatus)
    ensures
        array_expression_element_may_have_side_effects(
            ArrayExpressionElement::Expression(expr),
            status,
        ) == expression_may_have_side_effects(expr, status),
        !array_expression_element_may_have_side_effects(ArrayExpressionElement::Elision, status),
{
}

/// A member `key: value` of an object literal may have a side effect exactly
/// when its computed key or its value may; a plain or private key is free.
pub proof fn lemma_object_property_is_its_key_and_value(
    prop: ObjectProperty,
    status: ReferenceStatus,
)
    ensures
        object_property_kind_may_have_side_effects(
            ObjectPropertyKind::ObjectProperty(Box::new(prop)),
            status,
        ) == ((prop.key matches PropertyKey::Expression(key) && expression_may_have_side_effects(
            key,
            status,
        )) || expression_may_have_side_effects(prop.value, status)),
{
}

/// Defining a class member may have a side effect exactly when it has
/// decorators, a computed key that may have one, or, for a static field or
/// accessor, an initializer that may have one; a static block has one unless
/// it is empty. The initializer of an instance field runs only on construction.
pub proof fn lemma_class_member_definition(element: ClassElement, status: ReferenceStatus)
    ensures
        class_element_may_have_side_effects(element, status) == match element {
            ClassElement::StaticBlock(block) => block.statement_count != 0,
            ClassElement::MethodDefinition(m) => m.decorator_count != 0
                || key_may_have_side_effects(m.key, status),
            ClassElement::PropertyDefinition(p) => p.decorator_count != 0
                || key_may_have_side_effects(p.key, status) || (p.is_static
                && (p.value matches Some(v) && expression_may_have_side_effects(v, status))),
            ClassElement::AccessorProperty(a) => a.decorator_count != 0
                || key_may_have_side_effects(a.key, status) || (a.is_static
                && (a.value matches Some(v) && expression_may_have_side_effects(v, status))),
            ClassElement::TSIndexSignature => false,
        },
{
}

/// Whether evaluating the key may have a side effect: only a computed key is
/// evaluated, as an expression.
pub open spec fn key_may_have_side_effects(key: PropertyKey, status: ReferenceStatus) -> bool {
    key matches PropertyKey::Expression(e) && expression_may_have_side_effects(e, status)
}

/// `+` converts its operand to a number, which throws for a `BigInt` too:
/// `+1n` may have a side effect.
pub proof fn lemma_unary_plus_throws_on_big_int(expr: UnaryExpression, status: ReferenceStatus)
    requires
        expr.operator == UnaryOperator::UnaryPlus,
        expr.argument is BigIntLiteral,
    ensures
        unary_expression_may_have_side_effects(expr, status),
{
}

/// What `+` may take for a string, whose `ToPrimitive` gives a string without
/// running user code: string literals, templates, regular expressions and
/// array literals, and object literals that cannot override `toString`,
/// `valueOf` or `Symbol.toPrimitive`; nothing else.
pub proof fn lemma_what_converts_to_a_string(expr: Expression)
    ensures
        (expr is StringLiteral || expr is TemplateLiteral || expr is RegExpLiteral
            || expr is ArrayExpression) ==> is_string_or_to_primitive_returns_string(expr),
        expr matches Expression::ObjectExpression(obj) ==> (
        is_string_or_to_primitive_returns_string(expr)
            <==> !maybe_object_with_to_primitive_related_properties_overridden(obj)),
        !(expr is StringLiteral || expr is TemplateLiteral || expr is RegExpLiteral
            || expr is ArrayExpression || expr is ObjectExpression)
            ==> !is_string_or_to_primitive_returns_string(expr),
{
}

/// Which members of an object literal may change what `ToPrimitive` does with
/// it: a member named `toString`, `valueOf` or `__proto__` (by a plain name or
/// a string key), any computed key that is not a plain string or template
/// without substitutions (it may be `Symbol.toPrimitive`), and a spread of
/// anything but an array, a string, a template, or an object literal that
/// cannot itself.
pub proof fn lemma_which_members_may_override_to_primitive(prop: ObjectPropertyKind)
    ensures
        prop matches ObjectPropertyKind::ObjectProperty(p) ==> match p.key {
            PropertyKey::StaticIdentifier(id) => property_may_override_to_primitive(prop) == (
            id.name@ == "toString"@ || id.name@ == "valueOf"@ || id.name@ == "__proto__"@),
            PropertyKey::PrivateIdentifier(_) => !property_may_override_to_primitive(prop),
            PropertyKey::Expression(Expression::StringLiteral(key)) =>
                property_may_override_to_primitive(prop) == (key.value@ == "toString"@
                || key.value@ == "valueOf"@ || key.value@ == "__proto__"@),
            PropertyKey::Expression(Expression::TemplateLiteral(t)) => t.expressions@.len() != 0
                ==> property_may_override_to_primitive(prop),
            PropertyKey::Expression(_) => property_may_override_to_primitive(prop),
        },
        prop matches ObjectPropertyKind::SpreadProperty(spread) ==> match spread.argument {
            Expression::ObjectExpression(obj) => property_may_override_to_primitive(prop)
                == maybe_object_with_to_primitive_related_properties_overridden(obj),
            Expression::ArrayExpression(_)
            | Expression::StringLiteral(_)
            | Expression::TemplateLiteral(_) => !property_may_override_to_primitive(prop),
            _ => property_may_override_to_primitive(prop),
        },
{
}

} // verus!
