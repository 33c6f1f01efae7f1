//! Properties of the side-effect analysis on particular kinds of node.
use vstd::prelude::*;

use crate::ast::{
    ArrayExpression, ArrayExpressionElement, BigIntLiteral, BinaryExpression,
    BinaryOperator, CallExpression, Class, ClassElement, Expression, IdentifierReference,
    ObjectExpression, ObjectPropertyKind, SequenceExpression, TemplateLiteral, UnaryExpression,
    UnaryOperator,
};
use crate::is_global_reference::ReferenceStatus;
use crate::side_effects::semantics::{
    any_array_expression_element_may_have_side_effects, any_class_element_may_have_side_effects,
    any_expression_may_have_side_effects, any_object_property_kind_may_have_side_effects,
    any_property_may_override_to_primitive, any_substitution_may_have_side_effects,
    array_expression_element_may_have_side_effects, array_expression_may_have_side_effects,
    big_int_is_negative, big_int_is_zero, binary_expression_may_have_side_effects,
    call_expression_may_have_side_effects, class_element_may_have_side_effects,
    class_may_have_side_effects, expression_may_have_side_effects, is_nan_infinity_or_undefined,
    maybe_object_with_to_primitive_related_properties_overridden,
    maybe_symbol_or_to_primitive_may_return_symbol, object_property_kind_may_have_side_effects,
    property_may_override_to_primitive, substitution_may_have_side_effects,
    template_literal_may_have_side_effects,
    unary_expression_may_have_side_effects,
};

verus! {

proof fn lemma_any_expression_iff_exists(
    s: Seq<Expression>,
    status: ReferenceStatus,
)
    ensures
        any_expression_may_have_side_effects(s, status) <==> exists|i: int|
            0 <= i < s.len()
                && #[trigger] expression_may_have_side_effects(s[i], status),
    decreases s.len(),
{
    if s.len() > 0 {
        let rest = s.drop_first();
        assert(any_expression_may_have_side_effects(s, status) == (
            expression_may_have_side_effects(s[0], status)
                || any_expression_may_have_side_effects(rest, status)
        ));
        lemma_any_expression_iff_exists(rest, status);
        if exists|i: int|
            0 <= i < s.len() && #[trigger] expression_may_have_side_effects(s[i], status) {
            let i = choose|i: int|
                0 <= i < s.len() && #[trigger] expression_may_have_side_effects(s[i], status);
            if i > 0 {
                assert(rest[i - 1] == s[i]);
                assert(expression_may_have_side_effects(rest[i - 1], status));
            }
        }
        if exists|i: int|
            0 <= i < rest.len() && #[trigger] expression_may_have_side_effects(rest[i], status) {
            let i = choose|i: int|
                0 <= i < rest.len() && #[trigger] expression_may_have_side_effects(rest[i], status);
            assert(s[i + 1] == rest[i]);
        }
    }
}

proof fn lemma_any_array_expression_element_iff_exists(
    s: Seq<ArrayExpressionElement>,
    status: ReferenceStatus,
)
    ensures
        any_array_expression_element_may_have_side_effects(s, status) <==> exists|i: int|
            0 <= i < s.len()
                && #[trigger] array_expression_element_may_have_side_effects(s[i], status),
    decreases s.len(),
{
    if s.len() > 0 {
        let rest = s.drop_first();
        assert(any_array_expression_element_may_have_side_effects(s, status) == (
            array_expression_element_may_have_side_effects(s[0], status)
                || any_array_expression_element_may_have_side_effects(rest, status)
        ));
        lemma_any_array_expression_element_iff_exists(rest, status);
        if exists|i: int|
            0 <= i < s.len()
                && #[trigger] array_expression_element_may_have_side_effects(s[i], status) {
            let i = choose|i: int|
                0 <= i < s.len()
                    && #[trigger] array_expression_element_may_have_side_effects(s[i], status);
            if i > 0 {
                assert(rest[i - 1] == s[i]);
                assert(array_expression_element_may_have_side_effects(rest[i - 1], status));
            }
        }
        if exists|i: int|
            0 <= i < rest.len()
                && #[trigger] array_expression_element_may_have_side_effects(rest[i], status) {
            let i = choose|i: int|
                0 <= i < rest.len()
                    && #[trigger] array_expression_element_may_have_side_effects(rest[i], status);
            assert(s[i + 1] == rest[i]);
        }
    }
}

proof fn lemma_any_object_property_kind_iff_exists(
    s: Seq<ObjectPropertyKind>,
    status: ReferenceStatus,
)
    ensures
        any_object_property_kind_may_have_side_effects(s, status) <==> exists|i: int|
            0 <= i < s.len()
                && #[trigger] object_property_kind_may_have_side_effects(s[i], status),
    decreases s.len(),
{
    if s.len() > 0 {
        let rest = s.drop_first();
        assert(any_object_property_kind_may_have_side_effects(s, status) == (
            object_property_kind_may_have_side_effects(s[0], status)
                || any_object_property_kind_may_have_side_effects(rest, status)
        ));
        lemma_any_object_property_kind_iff_exists(rest, status);
        if exists|i: int|
            0 <= i < s.len()
                && #[trigger] object_property_kind_may_have_side_effects(s[i], status) {
            let i = choose|i: int|
                0 <= i < s.len()
                    && #[trigger] object_property_kind_may_have_side_effects(s[i], status);
            if i > 0 {
                assert(rest[i - 1] == s[i]);
                assert(object_property_kind_may_have_side_effects(rest[i - 1], status));
            }
        }
        if exists|i: int|
            0 <= i < rest.len()
                && #[trigger] object_property_kind_may_have_side_effects(rest[i], status) {
            let i = choose|i: int|
                0 <= i < rest.len()
                    && #[trigger] object_property_kind_may_have_side_effects(rest[i], status);
            assert(s[i + 1] == rest[i]);
        }
    }
}

proof fn lemma_any_class_element_iff_exists(
    s: Seq<ClassElement>,
    status: ReferenceStatus,
)
    ensures
        any_class_element_may_have_side_effects(s, status) <==> exists|i: int|
            0 <= i < s.len()
                && #[trigger] class_element_may_have_side_effects(s[i], status),
    decreases s.len(),
{
    if s.len() > 0 {
        let rest = s.drop_first();
        assert(any_class_element_may_have_side_effects(s, status) == (
            class_element_may_have_side_effects(s[0], status)
                || any_class_element_may_have_side_effects(rest, status)
        ));
        lemma_any_class_element_iff_exists(rest, status);
        if exists|i: int|
            0 <= i < s.len() && #[trigger] class_element_may_have_side_effects(s[i], status) {
            let i = choose|i: int|
                0 <= i < s.len() && #[trigger] class_element_may_have_side_effects(s[i], status);
            if i > 0 {
                assert(rest[i - 1] == s[i]);
                assert(class_element_may_have_side_effects(rest[i - 1], status));
            }
        }
        if exists|i: int|
            0 <= i < rest.len() && #[trigger] class_element_may_have_side_effects(rest[i], status) {
            let i = choose|i: int|
                0 <= i < rest.len()
                    && #[trigger] class_element_may_have_side_effects(rest[i], status);
            assert(s[i + 1] == rest[i]);
        }
    }
}

pub(crate) proof fn lemma_any_substitution_iff_exists(
    s: Seq<Expression>,
    status: ReferenceStatus,
)
    ensures
        any_substitution_may_have_side_effects(s, status) <==> exists|i: int|
            0 <= i < s.len()
                && #[trigger] substitution_may_have_side_effects(s[i], status),
    decreases s.len(),
{
    if s.len() > 0 {
        let rest = s.drop_first();
        assert(any_substitution_may_have_side_effects(s, status) == (
            substitution_may_have_side_effects(s[0], status)
                || any_substitution_may_have_side_effects(rest, status)
        ));
        lemma_any_substitution_iff_exists(rest, status);
        if exists|i: int|
            0 <= i < s.len() && #[trigger] substitution_may_have_side_effects(s[i], status) {
            let i = choose|i: int|
                0 <= i < s.len() && #[trigger] substitution_may_have_side_effects(s[i], status);
            if i > 0 {
                assert(rest[i - 1] == s[i]);
                assert(substitution_may_have_side_effects(rest[i - 1], status));
            }
        }
        if exists|i: int|
            0 <= i < rest.len() && #[trigger] substitution_may_have_side_effects(rest[i], status) {
            let i = choose|i: int|
                0 <= i < rest.len()
                    && #[trigger] substitution_may_have_side_effects(rest[i], status);
            assert(s[i + 1] == rest[i]);
        }
    }
}

/// An array literal may have a side effect exactly when one of its elements may.
pub proof fn lemma_array_side_effects_iff_some_element(
    arr: ArrayExpression,
    status: ReferenceStatus,
)
    ensures
        array_expression_may_have_side_effects(arr, status) <==> exists|i: int|
            0 <= i < arr.elements@.len()
                && #[trigger] array_expression_element_may_have_side_effects(
                arr.elements@[i],
                status,
            ),
{
    lemma_any_array_expression_element_iff_exists(arr.elements@, status);
}

/// A sequence expression `a, b, c` may have a side effect exactly when one of
/// its expressions may.
pub proof fn lemma_sequence_side_effects_iff_some_expression(
    seq_expr: SequenceExpression,
    status: ReferenceStatus,
)
    ensures
        expression_may_have_side_effects(
            Expression::SequenceExpression(seq_expr),
            status,
        ) <==> exists|i: int|
            0 <= i < seq_expr.expressions@.len() && #[trigger] expression_may_have_side_effects(
                seq_expr.expressions@[i],
                status,
            ),
{
    lemma_any_expression_iff_exists(seq_expr.expressions@, status);
}

/// A template literal may have a side effect exactly when one of its
/// substitutions may have one or may be a `Symbol`, which `ToString` rejects.
pub proof fn lemma_template_side_effects_iff_some_substitution(
    template: TemplateLiteral,
    status: ReferenceStatus,
)
    ensures
        expression_may_have_side_effects(
            Expression::TemplateLiteral(template),
            status,
        ) <==> exists|i: int|
            0 <= i < template.expressions@.len() && #[trigger] substitution_may_have_side_effects(
                template.expressions@[i],
                status,
            ),
{
    assert(template_literal_may_have_side_effects(template, status)
        == any_substitution_may_have_side_effects(template.expressions@, status));
    lemma_any_substitution_iff_exists(template.expressions@, status);
}

/// An object literal may have a side effect exactly when one of its members may.
pub proof fn lemma_object_side_effects_iff_some_property(
    obj: ObjectExpression,
    status: ReferenceStatus,
)
    ensures
        expression_may_have_side_effects(Expression::ObjectExpression(obj), status)
            <==> exists|i: int|
            0 <= i < obj.properties@.len() && #[trigger] object_property_kind_may_have_side_effects(
                obj.properties@[i],
                status,
            ),
{
    lemma_any_object_property_kind_iff_exists(obj.properties@, status);
}

/// Defining a class may have a side effect exactly when it has decorators, a
/// superclass, or a member whose definition may have a side effect.
pub proof fn lemma_class_side_effects(
    class: Class,
    status: ReferenceStatus,
)
    ensures
        class_may_have_side_effects(class, status) <==> (class.decorator_count != 0
            || class.super_class is Some || exists|i: int|
            0 <= i < class.body@.len() && #[trigger] class_element_may_have_side_effects(
                class.body@[i],
                status,
            )),
{
    lemma_any_class_element_iff_exists(class.body@, status);
}

/// Whether an object literal may change `ToPrimitive` depends on its members
/// one by one: for members `a + b`, it is the answer for `a` or the answer for `b`.
pub proof fn lemma_to_primitive_override_of_concatenated_members(
    a: Seq<ObjectPropertyKind>,
    b: Seq<ObjectPropertyKind>,
)
    ensures
        any_property_may_override_to_primitive(a + b) == (any_property_may_override_to_primitive(a)
            || any_property_may_override_to_primitive(b)),
    decreases a.len(),
{
    if a.len() == 0 {
        assert(a + b =~= b);
    } else {
        lemma_to_primitive_override_of_concatenated_members(a.drop_first(), b);
        assert((a + b).drop_first() =~= a.drop_first() + b);
        assert((a + b)[0] == a[0]);
        assert(any_property_may_override_to_primitive(a + b) == (property_may_override_to_primitive(
            a[0],
        ) || any_property_may_override_to_primitive((a + b).drop_first())));
        assert(any_property_may_override_to_primitive(a) == (property_may_override_to_primitive(
            a[0],
        ) || any_property_may_override_to_primitive(a.drop_first())));
    }
}

/// The same for whole object literals: when the members of `whole` are those
/// of `first` followed by those of `second`, `whole` may change `ToPrimitive`
/// exactly when `first` or `second` may.
pub proof fn lemma_to_primitive_override_of_merged_objects(
    first: ObjectExpression,
    second: ObjectExpression,
    whole: ObjectExpression,
)
    requires
        whole.properties@ == first.properties@ + second.properties@,
    ensures
        maybe_object_with_to_primitive_related_properties_overridden(whole) == (
        maybe_object_with_to_primitive_related_properties_overridden(first)
            || maybe_object_with_to_primitive_related_properties_overridden(second)),
{
    lemma_to_primitive_override_of_concatenated_members(first.properties@, second.properties@);
}

/// Reading a reference may have a side effect unless it is `NaN`, `Infinity`
/// or `undefined`, or the reference is known to be local: reading a global
/// variable, or one of unknown binding, may have a side effect.
pub proof fn lemma_reading_a_reference(
    ident: IdentifierReference,
    status: ReferenceStatus,
)
    ensures
        expression_may_have_side_effects(Expression::Identifier(ident), status) <==> (
        !is_nan_infinity_or_undefined(ident.name@) && status(ident) != Some(false)),
{
}

/// Calling anything but the global `Symbol` may have a side effect; a call of
/// the global `Symbol` may have one only through its arguments.
pub proof fn lemma_calls(call: CallExpression, status: ReferenceStatus)
    ensures
        !call_expression_may_have_side_effects(call, status) ==> (
        call.callee matches Expression::Identifier(ident) && ident.name@ == "Symbol"@
            && status(ident) == Some(true)),
        call.callee matches Expression::Identifier(ident) && ident.name@ == "Symbol"@
            && status(ident) == Some(true)
            && call.arguments@.len() == 0 ==> !call_expression_may_have_side_effects(
            call,
            status,
        ),
{
}

/// `in` and `instanceof` can throw a `TypeError`, whatever their operands.
pub proof fn lemma_in_and_instanceof_may_throw(
    expr: BinaryExpression,
    status: ReferenceStatus,
)
    requires
        expr.operator == BinaryOperator::In || expr.operator == BinaryOperator::Instanceof,
    ensures
        binary_expression_may_have_side_effects(expr, status),
{
}

/// `delete` may always change application state.
pub proof fn lemma_delete_has_side_effects(
    expr: UnaryExpression,
    status: ReferenceStatus,
)
    requires
        expr.operator == UnaryOperator::Delete,
    ensures
        unary_expression_may_have_side_effects(expr, status),
{
}

/// `typeof` of a plain reference never has a side effect, not even for a name
/// that is bound nowhere.
pub proof fn lemma_typeof_reference_is_free(
    ident: IdentifierReference,
    status: ReferenceStatus,
)
    ensures
        !unary_expression_may_have_side_effects(
            UnaryExpression {
                operator: UnaryOperator::Typeof,
                argument: Expression::Identifier(ident),
            },
            status,
        ),
{
}

/// An equality test (`==`, `!=`, `===`, `!==`) may have a side effect exactly
/// when one of its operands may: the conversions it makes are taken to be free.
pub proof fn lemma_equality_side_effects_are_its_operands(
    expr: BinaryExpression,
    status: ReferenceStatus,
)
    requires
        expr.operator == BinaryOperator::Equality || expr.operator == BinaryOperator::Inequality
            || expr.operator == BinaryOperator::StrictEquality || expr.operator
            == BinaryOperator::StrictInequality,
    ensures
        binary_expression_may_have_side_effects(expr, status) <==> (
        expression_may_have_side_effects(expr.left, status)
            || expression_may_have_side_effects(expr.right, status)),
{
}

/// A relational comparison (`<`, `<=`, `>`, `>=`) may have a side effect
/// exactly when an operand may have one, or may be a `Symbol` (or convert to
/// one), on which `ToNumeric` throws.
pub proof fn lemma_relational_comparison_side_effects(
    expr: BinaryExpression,
    status: ReferenceStatus,
)
    requires
        expr.operator == BinaryOperator::LessThan || expr.operator == BinaryOperator::LessEqualThan
            || expr.operator == BinaryOperator::GreaterThan || expr.operator
            == BinaryOperator::GreaterEqualThan,
    ensures
        binary_expression_may_have_side_effects(expr, status) <==> (
        maybe_symbol_or_to_primitive_may_return_symbol(status, expr.left)
            || maybe_symbol_or_to_primitive_may_return_symbol(status, expr.right)
            || expression_may_have_side_effects(expr.left, status)
            || expression_may_have_side_effects(expr.right, status)),
{
}

/// Arithmetic on two BigInt literals throws only for a negative exponent, a
/// division or remainder by zero, and `>>>`, which BigInts do not support.
pub proof fn lemma_big_int_literal_arithmetic(
    left: BigIntLiteral,
    operator: BinaryOperator,
    right: BigIntLiteral,
    status: ReferenceStatus,
)
    requires
        operator != BinaryOperator::Addition,
        operator != BinaryOperator::In,
        operator != BinaryOperator::Instanceof,
        operator != BinaryOperator::Equality,
        operator != BinaryOperator::Inequality,
        operator != BinaryOperator::StrictEquality,
        operator != BinaryOperator::StrictInequality,
        operator != BinaryOperator::LessThan,
        operator != BinaryOperator::LessEqualThan,
        operator != BinaryOperator::GreaterThan,
        operator != BinaryOperator::GreaterEqualThan,
    ensures
        binary_expression_may_have_side_effects(
            BinaryExpression {
                left: Expression::BigIntLiteral(left),
                operator,
                right: Expression::BigIntLiteral(right),
            },
            status,
        ) <==> ((operator == BinaryOperator::Exponential && big_int_is_negative(right)) || ((
        operator == BinaryOperator::Division || operator == BinaryOperator::Remainder)
            && big_int_is_zero(right)) || operator == BinaryOperator::ShiftRightZeroFill),
{
}

} // verus!
