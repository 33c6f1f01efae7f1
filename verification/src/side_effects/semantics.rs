//! When a piece of syntax may change application state, stated as spec functions.
//!
//! Each function here says, for one kind of node, when evaluating that node may
//! have a side effect. They follow one another down the tree; the executable
//! analysis in `may_have_side_effects` is proved to compute exactly these.
use vstd::prelude::*;

use crate::ast::{
    Argument, ArrayExpression, ArrayExpressionElement, BigIntLiteral, BinaryExpression,
    BinaryOperator, CallExpression, Class, ClassElement, Expression, LogicalExpression,
    ObjectExpression, ObjectProperty, ObjectPropertyKind, PropertyKey, SpreadElement,
    TemplateLiteral, UnaryExpression, UnaryOperator, big_int_digits_are_zero, first_quasi,
};
use crate::is_global_reference::ReferenceStatus;

verus! {

/// `NaN`, `Infinity` and `undefined`: the global names whose reading the
/// analysis treats as free of side effects.
pub open spec fn is_nan_infinity_or_undefined(name: Seq<char>) -> bool {
    name == "NaN"@ || name == "Infinity"@ || name == "undefined"@
}

/// `toString`, `valueOf` and `__proto__`: the property names through which an
/// object literal can change what `ToPrimitive` does with it. (`__proto__` sets
/// the prototype, from which the object may inherit other methods, or none.)
pub open spec fn is_to_primitive_related_name(name: Seq<char>) -> bool {
    name == "toString"@ || name == "valueOf"@ || name == "__proto__"@
}

/// Whether the BigInt literal is written with a leading `-`.
pub open spec fn big_int_is_negative(lit: BigIntLiteral) -> bool {
    lit.raw@.len() > 0 && lit.raw@[0] == '-'
}

/// Whether the BigInt literal's value is zero.
pub open spec fn big_int_is_zero(lit: BigIntLiteral) -> bool {
    big_int_digits_are_zero(lit.raw@)
}

/// Whether an object literal may override `toString`, `valueOf` or
/// `Symbol.toPrimitive`: some member may define one of them, or set the prototype.
pub open spec fn maybe_object_with_to_primitive_related_properties_overridden(
    obj: ObjectExpression,
) -> bool
    decreases obj,
{
    any_property_may_override_to_primitive(obj.properties@)
}

/// Whether some member of the sequence may define `toString`, `valueOf` or
/// `Symbol.toPrimitive`.
pub open spec fn any_property_may_override_to_primitive(props: Seq<ObjectPropertyKind>) -> bool
    decreases props,
{
    if props.len() == 0 {
        false
    } else {
        property_may_override_to_primitive(props[0]) || any_property_may_override_to_primitive(
            props.drop_first(),
        )
    }
}

/// Whether one member of an object literal may define `toString`, `valueOf`
/// or `Symbol.toPrimitive`, or set the prototype.
pub open spec fn property_may_override_to_primitive(prop: ObjectPropertyKind) -> bool
    decreases prop,
{
    match prop {
        ObjectPropertyKind::ObjectProperty(p) => match p.key {
            PropertyKey::StaticIdentifier(id) => is_to_primitive_related_name(id.name@),
            PropertyKey::PrivateIdentifier(_) => false,
            PropertyKey::Expression(Expression::StringLiteral(s)) => is_to_primitive_related_name(
                s.value@,
            ),
            PropertyKey::Expression(Expression::TemplateLiteral(t)) => {
                !(t.expressions@.len() == 0 && t.quasis@.len() == 1) || (first_quasi(t) matches Some(
                    q,
                ) && is_to_primitive_related_name(q))
            },
            _ => true,
        },
        ObjectPropertyKind::SpreadProperty(s) => match s.argument {
            Expression::ObjectExpression(obj) =>
                maybe_object_with_to_primitive_related_properties_overridden(obj),
            Expression::ArrayExpression(_)
            | Expression::StringLiteral(_)
            | Expression::TemplateLiteral(_) => false,
            _ => true,
        },
    }
}

/// Whether the expression is a string, or an object whose `ToPrimitive`
/// returns a string.
pub open spec fn is_string_or_to_primitive_returns_string(expr: Expression) -> bool {
    match expr {
        Expression::StringLiteral(_)
        | Expression::TemplateLiteral(_)
        | Expression::RegExpLiteral
        | Expression::ArrayExpression(_) => true,
        Expression::ObjectExpression(obj) =>
            !maybe_object_with_to_primitive_related_properties_overridden(obj),
        _ => false,
    }
}

/// Whether the expression may be a `Symbol`, or be converted to one by `ToPrimitive`.
pub open spec fn maybe_symbol_or_to_primitive_may_return_symbol(
    status: ReferenceStatus,
    expr: Expression,
) -> bool {
    match expr {
        Expression::Identifier(ident) => !(is_nan_infinity_or_undefined(ident.name@)
            && status(ident) == Some(true)),
        Expression::StringLiteral(_)
        | Expression::TemplateLiteral(_)
        | Expression::NullLiteral
        | Expression::NumericLiteral
        | Expression::BigIntLiteral(_)
        | Expression::BooleanLiteral(_)
        | Expression::RegExpLiteral
        | Expression::ArrayExpression(_) => false,
        Expression::ObjectExpression(obj) =>
            maybe_object_with_to_primitive_related_properties_overridden(obj),
        _ => true,
    }
}

/// Whether the expression may be a `Symbol` or a `BigInt`, or be converted to
/// one by `ToPrimitive`.
pub open spec fn maybe_symbol_or_bigint_or_to_primitive_may_return_symbol_or_bigint(
    status: ReferenceStatus,
    expr: Expression,
) -> bool {
    match expr {
        Expression::Identifier(ident) => !(is_nan_infinity_or_undefined(ident.name@)
            && status(ident) == Some(true)),
        Expression::StringLiteral(_)
        | Expression::TemplateLiteral(_)
        | Expression::NullLiteral
        | Expression::NumericLiteral
        | Expression::BooleanLiteral(_)
        | Expression::RegExpLiteral
        | Expression::ArrayExpression(_) => false,
        Expression::ObjectExpression(obj) =>
            maybe_object_with_to_primitive_related_properties_overridden(obj),
        _ => true,
    }
}

/// Whether some expression of the sequence may have a side effect.
pub open spec fn any_expression_may_have_side_effects(
    exprs: Seq<Expression>,
    status: ReferenceStatus,
) -> bool
    decreases exprs,
{
    if exprs.len() == 0 {
        false
    } else {
        expression_may_have_side_effects(exprs[0], status)
            || any_expression_may_have_side_effects(exprs.drop_first(), status)
    }
}

/// Whether evaluating the template literal may change application state: some
/// substitution may have a side effect, or may be a `Symbol`, on which
/// `ToString` throws.
pub open spec fn template_literal_may_have_side_effects(
    template: TemplateLiteral,
    status: ReferenceStatus,
) -> bool
    decreases template,
{
    any_substitution_may_have_side_effects(template.expressions@, status)
}

/// Whether converting the substitution `${expr}` of a template to a string may
/// have a side effect: `expr` may have one, or may be a `Symbol`.
pub open spec fn substitution_may_have_side_effects(
    expr: Expression,
    status: ReferenceStatus,
) -> bool {
    maybe_symbol_or_to_primitive_may_return_symbol(status, expr)
        || expression_may_have_side_effects(expr, status)
}

/// Whether some substitution of a template may have a side effect or be a `Symbol`.
pub open spec fn any_substitution_may_have_side_effects(
    exprs: Seq<Expression>,
    status: ReferenceStatus,
) -> bool
    decreases exprs,
{
    if exprs.len() == 0 {
        false
    } else {
        maybe_symbol_or_to_primitive_may_return_symbol(status, exprs[0])
            || expression_may_have_side_effects(exprs[0], status)
            || any_substitution_may_have_side_effects(exprs.drop_first(), status)
    }
}

/// Whether evaluating the call may change application state. Only a call of
/// the global `Symbol` is known to be free of side effects, when no argument
/// is spread and no argument may have a side effect or be a `Symbol` (the
/// description is converted with `ToString`).
pub open spec fn call_expression_may_have_side_effects(
    call: CallExpression,
    status: ReferenceStatus,
) -> bool
    decreases call,
{
    match call.callee {
        Expression::Identifier(ident) => {
            if ident.name@ == "Symbol"@ && status(ident) == Some(
                true,
            ) {
                any_argument_may_have_side_effects(call.arguments@, status)
            } else {
                true
            }
        },
        _ => true,
    }
}

/// Whether passing some argument of the sequence to `Symbol` may have a side effect.
pub open spec fn any_argument_may_have_side_effects(
    args: Seq<Argument>,
    status: ReferenceStatus,
) -> bool
    decreases args,
{
    if args.len() == 0 {
        false
    } else {
        match args[0] {
            Argument::SpreadElement(_) => true,
            Argument::Expression(e) => maybe_symbol_or_to_primitive_may_return_symbol(
                status,
                e,
            ) || expression_may_have_side_effects(e, status)
                || any_argument_may_have_side_effects(args.drop_first(), status),
        }
    }
}

/// Whether evaluating the expression may change application state.
pub open spec fn expression_may_have_side_effects(
    expr: Expression,
    status: ReferenceStatus,
) -> bool
    decreases expr,
{
    match expr {
        Expression::Identifier(ident) => !is_nan_infinity_or_undefined(ident.name@)
            && status(ident) != Some(false),
        Expression::NumericLiteral
        | Expression::BooleanLiteral(_)
        | Expression::StringLiteral(_)
        | Expression::BigIntLiteral(_)
        | Expression::NullLiteral
        | Expression::RegExpLiteral
        | Expression::MetaProperty
        | Expression::ThisExpression
        | Expression::ArrowFunctionExpression
        | Expression::FunctionExpression
        | Expression::Super => false,
        Expression::TemplateLiteral(template) => template_literal_may_have_side_effects(
            template,
            status,
        ),
        Expression::CallExpression(call) => call_expression_may_have_side_effects(
            *call,
            status,
        ),
        Expression::UnaryExpression(e) => unary_expression_may_have_side_effects(
            *e,
            status,
        ),
        Expression::LogicalExpression(e) => logical_expression_may_have_side_effects(
            *e,
            status,
        ),
        Expression::ParenthesizedExpression(e) => expression_may_have_side_effects(
            e.expression,
            status,
        ),
        Expression::ConditionalExpression(e) => expression_may_have_side_effects(
            e.test,
            status,
        ) || expression_may_have_side_effects(e.consequent, status)
            || expression_may_have_side_effects(e.alternate, status),
        Expression::SequenceExpression(e) => any_expression_may_have_side_effects(
            e.expressions@,
            status,
        ),
        Expression::BinaryExpression(e) => binary_expression_may_have_side_effects(
            *e,
            status,
        ),
        Expression::ObjectExpression(object_expr) => any_object_property_kind_may_have_side_effects(
            object_expr.properties@,
            status,
        ),
        Expression::ArrayExpression(e) => array_expression_may_have_side_effects(
            e,
            status,
        ),
        Expression::ClassExpression(e) => class_may_have_side_effects(*e, status),
        _ => true,
    }
}

/// Whether evaluating the unary expression may change application state.
pub open spec fn unary_expression_may_have_side_effects(
    expr: UnaryExpression,
    status: ReferenceStatus,
) -> bool
    decreases expr,
{
    match expr.operator {
        UnaryOperator::Delete => true,
        UnaryOperator::Void | UnaryOperator::LogicalNot => expression_may_have_side_effects(
            expr.argument,
            status,
        ),
        UnaryOperator::Typeof => {
            if expr.argument is Identifier {
                false
            } else {
                expression_may_have_side_effects(expr.argument, status)
            }
        },
        UnaryOperator::UnaryPlus => maybe_symbol_or_bigint_or_to_primitive_may_return_symbol_or_bigint(
            status,
            expr.argument,
        ) || expression_may_have_side_effects(expr.argument, status),
        UnaryOperator::UnaryNegation | UnaryOperator::BitwiseNot =>
            maybe_symbol_or_to_primitive_may_return_symbol(status, expr.argument)
                || expression_may_have_side_effects(expr.argument, status),
    }
}

/// Whether `left op right` may throw for the BigInt operand(s) of an
/// arithmetic, shift or bitwise operator, when at least one side is a BigInt
/// literal. Between two BigInt literals, `**` throws for a negative exponent,
/// `/` and `%` for a zero divisor, and `>>>` always.
pub open spec fn big_int_arithmetic_may_throw(expr: BinaryExpression) -> bool {
    match expr.left {
        Expression::BigIntLiteral(_) => match expr.right {
            Expression::BigIntLiteral(right) => match expr.operator {
                BinaryOperator::Exponential => big_int_is_negative(right),
                BinaryOperator::Division | BinaryOperator::Remainder => big_int_is_zero(right),
                BinaryOperator::ShiftRightZeroFill => true,
                _ => false,
            },
            _ => true,
        },
        _ => true,
    }
}

/// Whether evaluating the binary expression may change application state.
pub open spec fn binary_expression_may_have_side_effects(
    expr: BinaryExpression,
    status: ReferenceStatus,
) -> bool
    decreases expr,
{
    match expr.operator {
        BinaryOperator::Equality
        | BinaryOperator::Inequality
        | BinaryOperator::StrictEquality
        | BinaryOperator::StrictInequality => expression_may_have_side_effects(
            expr.left,
            status,
        ) || expression_may_have_side_effects(expr.right, status),
        // `ToNumeric` throws for a `Symbol`
        BinaryOperator::LessThan
        | BinaryOperator::LessEqualThan
        | BinaryOperator::GreaterThan
        | BinaryOperator::GreaterEqualThan => maybe_symbol_or_to_primitive_may_return_symbol(
            status,
            expr.left,
        ) || maybe_symbol_or_to_primitive_may_return_symbol(status, expr.right)
            || expression_may_have_side_effects(expr.left, status)
            || expression_may_have_side_effects(expr.right, status),
        BinaryOperator::In | BinaryOperator::Instanceof => true,
        BinaryOperator::Addition => {
            if is_string_or_to_primitive_returns_string(expr.left)
                || is_string_or_to_primitive_returns_string(expr.right) {
                let other_side = if is_string_or_to_primitive_returns_string(expr.left) {
                    expr.right
                } else {
                    expr.left
                };
                maybe_symbol_or_to_primitive_may_return_symbol(status, other_side)
                    || expression_may_have_side_effects(expr.left, status)
                    || expression_may_have_side_effects(expr.right, status)
            } else if expr.left is NumericLiteral || expr.right is NumericLiteral {
                let other_side = if expr.left is NumericLiteral {
                    expr.right
                } else {
                    expr.left
                };
                !(other_side is NullLiteral || other_side is NumericLiteral
                    || other_side is BooleanLiteral)
            } else {
                !(expr.left is BigIntLiteral && expr.right is BigIntLiteral)
            }
        },
        BinaryOperator::Subtraction
        | BinaryOperator::Multiplication
        | BinaryOperator::Division
        | BinaryOperator::Remainder
        | BinaryOperator::ShiftLeft
        | BinaryOperator::BitwiseOR
        | BinaryOperator::ShiftRight
        | BinaryOperator::BitwiseXOR
        | BinaryOperator::BitwiseAnd
        | BinaryOperator::Exponential
        | BinaryOperator::ShiftRightZeroFill => {
            if expr.left is BigIntLiteral || expr.right is BigIntLiteral {
                big_int_arithmetic_may_throw(expr)
            } else if !(maybe_symbol_or_bigint_or_to_primitive_may_return_symbol_or_bigint(
                status,
                expr.left,
            ) || maybe_symbol_or_bigint_or_to_primitive_may_return_symbol_or_bigint(
                status,
                expr.right,
            )) {
                expression_may_have_side_effects(expr.left, status)
                    || expression_may_have_side_effects(expr.right, status)
            } else {
                true
            }
        },
    }
}

/// Whether evaluating the logical expression may change application state.
pub open spec fn logical_expression_may_have_side_effects(
    expr: LogicalExpression,
    status: ReferenceStatus,
) -> bool
    decreases expr,
{
    expression_may_have_side_effects(expr.left, status)
        || expression_may_have_side_effects(expr.right, status)
}

/// Whether evaluating the array literal may change application state.
pub open spec fn array_expression_may_have_side_effects(
    expr: ArrayExpression,
    status: ReferenceStatus,
) -> bool
    decreases expr,
{
    any_array_expression_element_may_have_side_effects(expr.elements@, status)
}

/// Whether some element of the sequence may have a side effect.
pub open spec fn any_array_expression_element_may_have_side_effects(
    elements: Seq<ArrayExpressionElement>,
    status: ReferenceStatus,
) -> bool
    decreases elements,
{
    if elements.len() == 0 {
        false
    } else {
        array_expression_element_may_have_side_effects(elements[0], status)
            || any_array_expression_element_may_have_side_effects(
            elements.drop_first(),
            status,
        )
    }
}

/// Whether spreading the argument, in an array or object literal, may change
/// application state.
pub open spec fn spread_element_may_have_side_effects(
    spread: SpreadElement,
    status: ReferenceStatus,
) -> bool
    decreases spread,
{
    match spread.argument {
        Expression::ArrayExpression(arr) => array_expression_may_have_side_effects(
            arr,
            status,
        ),
        Expression::StringLiteral(_) => false,
        Expression::TemplateLiteral(t) => template_literal_may_have_side_effects(
            t,
            status,
        ),
        _ => true,
    }
}

/// Whether evaluating the array element may change application state.
pub open spec fn array_expression_element_may_have_side_effects(
    element: ArrayExpressionElement,
    status: ReferenceStatus,
) -> bool
    decreases element,
{
    match element {
        ArrayExpressionElement::SpreadElement(e) => spread_element_may_have_side_effects(
            e,
            status,
        ),
        ArrayExpressionElement::Expression(e) => expression_may_have_side_effects(
            e,
            status,
        ),
        ArrayExpressionElement::Elision => false,
    }
}

/// Whether evaluating some member of the sequence may have a side effect.
pub open spec fn any_object_property_kind_may_have_side_effects(
    props: Seq<ObjectPropertyKind>,
    status: ReferenceStatus,
) -> bool
    decreases props,
{
    if props.len() == 0 {
        false
    } else {
        object_property_kind_may_have_side_effects(props[0], status)
            || any_object_property_kind_may_have_side_effects(
            props.drop_first(),
            status,
        )
    }
}

/// Whether evaluating the object member may change application state.
pub open spec fn object_property_kind_may_have_side_effects(
    prop: ObjectPropertyKind,
    status: ReferenceStatus,
) -> bool
    decreases prop,
{
    match prop {
        ObjectPropertyKind::ObjectProperty(o) => object_property_may_have_side_effects(
            *o,
            status,
        ),
        ObjectPropertyKind::SpreadProperty(e) => spread_element_may_have_side_effects(
            e,
            status,
        ),
    }
}

/// Whether evaluating the key and the value of the property may change application state.
pub open spec fn object_property_may_have_side_effects(
    prop: ObjectProperty,
    status: ReferenceStatus,
) -> bool
    decreases prop,
{
    property_key_may_have_side_effects(prop.key, status)
        || expression_may_have_side_effects(prop.value, status)
}

/// Whether evaluating the property key may change application state.
pub open spec fn property_key_may_have_side_effects(
    key: PropertyKey,
    status: ReferenceStatus,
) -> bool
    decreases key,
{
    match key {
        PropertyKey::StaticIdentifier(_) | PropertyKey::PrivateIdentifier(_) => false,
        PropertyKey::Expression(e) => expression_may_have_side_effects(e, status),
    }
}

/// Whether evaluating the class may change application state: decorators are
/// called, the superclass is evaluated (and throws unless it is a constructor
/// or `null`), and defining the members may have side effects.
pub open spec fn class_may_have_side_effects(
    class: Class,
    status: ReferenceStatus,
) -> bool
    decreases class,
{
    class.decorator_count != 0 || class.super_class is Some
        || any_class_element_may_have_side_effects(class.body@, status)
}

/// Whether defining some member of the sequence may have a side effect.
pub open spec fn any_class_element_may_have_side_effects(
    elements: Seq<ClassElement>,
    status: ReferenceStatus,
) -> bool
    decreases elements,
{
    if elements.len() == 0 {
        false
    } else {
        class_element_may_have_side_effects(elements[0], status)
            || any_class_element_may_have_side_effects(elements.drop_first(), status)
    }
}

/// Whether defining the class member may change application state: its
/// decorators are called, its computed key is evaluated, and the initializer
/// of a static field or accessor runs.
pub open spec fn class_element_may_have_side_effects(
    element: ClassElement,
    status: ReferenceStatus,
) -> bool
    decreases element,
{
    match element {
        ClassElement::StaticBlock(block) => block.statement_count != 0,
        ClassElement::MethodDefinition(e) => e.decorator_count != 0
            || property_key_may_have_side_effects(e.key, status),
        ClassElement::PropertyDefinition(e) => e.decorator_count != 0
            || property_key_may_have_side_effects(e.key, status) || (e.is_static
            && initializer_may_have_side_effects(e.value, status)),
        ClassElement::AccessorProperty(e) => e.decorator_count != 0
            || property_key_may_have_side_effects(e.key, status) || (e.is_static
            && initializer_may_have_side_effects(e.value, status)),
        ClassElement::TSIndexSignature => false,
    }
}

/// Whether running the initializer, if there is one, may change application state.
pub open spec fn initializer_may_have_side_effects(
    value: Option<Expression>,
    status: ReferenceStatus,
) -> bool
    decreases value,
{
    match value {
        Some(v) => expression_may_have_side_effects(v, status),
        None => false,
    }
}

} // verus!
