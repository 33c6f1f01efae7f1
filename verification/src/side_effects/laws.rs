//! How the side-effect analysis depends on what it learns about references.
use vstd::prelude::*;

use crate::ast::{
    Argument, ArrayExpressionElement, ClassElement, Expression, IdentifierReference,
    ObjectPropertyKind, PropertyKey, SpreadElement,
};
use crate::is_global_reference::{
    reference_status, ReferenceStatus, WithoutGlobalReferenceInformation,
};
use crate::side_effects::semantics::{
    any_argument_may_have_side_effects, any_array_expression_element_may_have_side_effects,
    any_class_element_may_have_side_effects, any_expression_may_have_side_effects,
    any_object_property_kind_may_have_side_effects, any_substitution_may_have_side_effects,
    array_expression_element_may_have_side_effects, array_expression_may_have_side_effects,
    binary_expression_may_have_side_effects, call_expression_may_have_side_effects,
    class_element_may_have_side_effects, class_may_have_side_effects,
    expression_may_have_side_effects, initializer_may_have_side_effects,
    logical_expression_may_have_side_effects,
    maybe_symbol_or_bigint_or_to_primitive_may_return_symbol_or_bigint,
    maybe_symbol_or_to_primitive_may_return_symbol, object_property_kind_may_have_side_effects,
    property_key_may_have_side_effects, spread_element_may_have_side_effects,
    template_literal_may_have_side_effects, unary_expression_may_have_side_effects,
};

verus! {

/// `informed` knows at least as much as `uninformed` about every reference:
/// wherever `uninformed` answers, `informed` gives the same answer.
pub open spec fn knows_at_least_as_much(
    informed: ReferenceStatus,
    uninformed: ReferenceStatus,
) -> bool {
    forall|reference: IdentifierReference|
        #[trigger] uninformed(reference) is None || uninformed(reference) == informed(reference)
}

proof fn lemma_maybe_symbol_monotone(
    expr: Expression,
    informed: ReferenceStatus,
    uninformed: ReferenceStatus,
)
    requires
        knows_at_least_as_much(informed, uninformed),
    ensures
        maybe_symbol_or_to_primitive_may_return_symbol(informed, expr)
            ==> maybe_symbol_or_to_primitive_may_return_symbol(uninformed, expr),
        maybe_symbol_or_bigint_or_to_primitive_may_return_symbol_or_bigint(informed, expr)
            ==> maybe_symbol_or_bigint_or_to_primitive_may_return_symbol_or_bigint(
            uninformed,
            expr,
        ),
{
    if let Expression::Identifier(ident) = expr {
        assert(uninformed(ident) is None || uninformed(ident) == informed(ident));
    }
}

proof fn lemma_expression_monotone(
    expr: Expression,
    informed: ReferenceStatus,
    uninformed: ReferenceStatus,
)
    requires
        knows_at_least_as_much(informed, uninformed),
    ensures
        expression_may_have_side_effects(expr, informed) ==> expression_may_have_side_effects(
            expr,
            uninformed,
        ),
    decreases expr,
{
    match expr {
        Expression::Identifier(ident) => {
            assert(uninformed(ident) is None || uninformed(ident) == informed(ident));
        },
        Expression::TemplateLiteral(t) => {
            lemma_any_substitution_monotone(t.expressions@, informed, uninformed);
            assert(template_literal_may_have_side_effects(t, informed)
                ==> template_literal_may_have_side_effects(t, uninformed));
        },
        Expression::CallExpression(c) => {
            if let Expression::Identifier(ident) = c.callee {
                assert(uninformed(ident) is None || uninformed(ident) == informed(ident));
            }
            lemma_any_argument_monotone(c.arguments@, informed, uninformed);
            assert(call_expression_may_have_side_effects(*c, informed)
                ==> call_expression_may_have_side_effects(*c, uninformed));
        },
        Expression::UnaryExpression(u) => {
            lemma_maybe_symbol_monotone(u.argument, informed, uninformed);
            lemma_expression_monotone(u.argument, informed, uninformed);
            assert(unary_expression_may_have_side_effects(*u, informed)
                ==> unary_expression_may_have_side_effects(*u, uninformed));
        },
        Expression::LogicalExpression(l) => {
            lemma_expression_monotone(l.left, informed, uninformed);
            lemma_expression_monotone(l.right, informed, uninformed);
            assert(logical_expression_may_have_side_effects(*l, informed)
                ==> logical_expression_may_have_side_effects(*l, uninformed));
        },
        Expression::ParenthesizedExpression(p) => {
            lemma_expression_monotone(p.expression, informed, uninformed);
        },
        Expression::ConditionalExpression(c) => {
            lemma_expression_monotone(c.test, informed, uninformed);
            lemma_expression_monotone(c.consequent, informed, uninformed);
            lemma_expression_monotone(c.alternate, informed, uninformed);
        },
        Expression::SequenceExpression(s) => {
            lemma_any_expression_monotone(s.expressions@, informed, uninformed);
        },
        Expression::BinaryExpression(b) => {
            lemma_maybe_symbol_monotone(b.left, informed, uninformed);
            lemma_maybe_symbol_monotone(b.right, informed, uninformed);
            lemma_expression_monotone(b.left, informed, uninformed);
            lemma_expression_monotone(b.right, informed, uninformed);
            assert(binary_expression_may_have_side_effects(*b, informed)
                ==> binary_expression_may_have_side_effects(*b, uninformed));
        },
        Expression::ObjectExpression(o) => {
            lemma_any_object_property_kind_monotone(o.properties@, informed, uninformed);
        },
        Expression::ArrayExpression(a) => {
            lemma_any_array_expression_element_monotone(a.elements@, informed, uninformed);
            assert(array_expression_may_have_side_effects(a, informed)
                ==> array_expression_may_have_side_effects(a, uninformed));
        },
        Expression::ClassExpression(c) => {
            lemma_any_class_element_monotone(c.body@, informed, uninformed);
            assert(class_may_have_side_effects(*c, informed) ==> class_may_have_side_effects(
                *c,
                uninformed,
            ));
        },
        _ => {},
    }
}

proof fn lemma_any_expression_monotone(
    exprs: Seq<Expression>,
    informed: ReferenceStatus,
    uninformed: ReferenceStatus,
)
    requires
        knows_at_least_as_much(informed, uninformed),
    ensures
        any_expression_may_have_side_effects(exprs, informed)
            ==> any_expression_may_have_side_effects(exprs, uninformed),
    decreases exprs,
{
    if exprs.len() > 0 {
        lemma_expression_monotone(exprs[0], informed, uninformed);
        lemma_any_expression_monotone(exprs.drop_first(), informed, uninformed);
    }
}

proof fn lemma_spread_element_monotone(
    spread: SpreadElement,
    informed: ReferenceStatus,
    uninformed: ReferenceStatus,
)
    requires
        knows_at_least_as_much(informed, uninformed),
    ensures
        spread_element_may_have_side_effects(spread, informed)
            ==> spread_element_may_have_side_effects(spread, uninformed),
    decreases spread,
{
    match spread.argument {
        Expression::ArrayExpression(a) => {
            lemma_any_array_expression_element_monotone(a.elements@, informed, uninformed);
        },
        Expression::TemplateLiteral(t) => {
            lemma_any_substitution_monotone(t.expressions@, informed, uninformed);
            assert(template_literal_may_have_side_effects(t, informed)
                ==> template_literal_may_have_side_effects(t, uninformed));
        },
        _ => {},
    }
}

proof fn lemma_any_substitution_monotone(
    exprs: Seq<Expression>,
    informed: ReferenceStatus,
    uninformed: ReferenceStatus,
)
    requires
        knows_at_least_as_much(informed, uninformed),
    ensures
        any_substitution_may_have_side_effects(exprs, informed)
            ==> any_substitution_may_have_side_effects(exprs, uninformed),
    decreases exprs,
{
    if exprs.len() > 0 {
        lemma_maybe_symbol_monotone(exprs[0], informed, uninformed);
        lemma_expression_monotone(exprs[0], informed, uninformed);
        lemma_any_substitution_monotone(exprs.drop_first(), informed, uninformed);
    }
}

proof fn lemma_any_argument_monotone(
    args: Seq<Argument>,
    informed: ReferenceStatus,
    uninformed: ReferenceStatus,
)
    requires
        knows_at_least_as_much(informed, uninformed),
    ensures
        any_argument_may_have_side_effects(args, informed) ==> any_argument_may_have_side_effects(
            args,
            uninformed,
        ),
    decreases args,
{
    if args.len() > 0 {
        if let Argument::Expression(e) = args[0] {
            lemma_maybe_symbol_monotone(e, informed, uninformed);
            lemma_expression_monotone(e, informed, uninformed);
        }
        lemma_any_argument_monotone(args.drop_first(), informed, uninformed);
    }
}

proof fn lemma_any_array_expression_element_monotone(
    elements: Seq<ArrayExpressionElement>,
    informed: ReferenceStatus,
    uninformed: ReferenceStatus,
)
    requires
        knows_at_least_as_much(informed, uninformed),
    ensures
        any_array_expression_element_may_have_side_effects(elements, informed)
            ==> any_array_expression_element_may_have_side_effects(elements, uninformed),
    decreases elements,
{
    if elements.len() > 0 {
        match elements[0] {
            ArrayExpressionElement::SpreadElement(s) => {
                lemma_spread_element_monotone(s, informed, uninformed);
            },
            ArrayExpressionElement::Expression(e) => {
                lemma_expression_monotone(e, informed, uninformed);
            },
            ArrayExpressionElement::Elision => {},
        }
        lemma_any_array_expression_element_monotone(elements.drop_first(), informed, uninformed);
        assert(array_expression_element_may_have_side_effects(elements[0], informed)
            ==> array_expression_element_may_have_side_effects(elements[0], uninformed));
    }
}

proof fn lemma_property_key_monotone(
    key: PropertyKey,
    informed: ReferenceStatus,
    uninformed: ReferenceStatus,
)
    requires
        knows_at_least_as_much(informed, uninformed),
    ensures
        property_key_may_have_side_effects(key, informed) ==> property_key_may_have_side_effects(
            key,
            uninformed,
        ),
    decreases key,
{
    if let PropertyKey::Expression(e) = key {
        lemma_expression_monotone(e, informed, uninformed);
    }
}

proof fn lemma_any_object_property_kind_monotone(
    props: Seq<ObjectPropertyKind>,
    informed: ReferenceStatus,
    uninformed: ReferenceStatus,
)
    requires
        knows_at_least_as_much(informed, uninformed),
    ensures
        any_object_property_kind_may_have_side_effects(props, informed)
            ==> any_object_property_kind_may_have_side_effects(props, uninformed),
    decreases props,
{
    if props.len() > 0 {
        match props[0] {
            ObjectPropertyKind::ObjectProperty(p) => {
                lemma_property_key_monotone(p.key, informed, uninformed);
                lemma_expression_monotone(p.value, informed, uninformed);
            },
            ObjectPropertyKind::SpreadProperty(s) => {
                lemma_spread_element_monotone(s, informed, uninformed);
            },
        }
        lemma_any_object_property_kind_monotone(props.drop_first(), informed, uninformed);
        assert(object_property_kind_may_have_side_effects(props[0], informed)
            ==> object_property_kind_may_have_side_effects(props[0], uninformed));
    }
}

proof fn lemma_any_class_element_monotone(
    elements: Seq<ClassElement>,
    informed: ReferenceStatus,
    uninformed: ReferenceStatus,
)
    requires
        knows_at_least_as_much(informed, uninformed),
    ensures
        any_class_element_may_have_side_effects(elements, informed)
            ==> any_class_element_may_have_side_effects(elements, uninformed),
    decreases elements,
{
    if elements.len() > 0 {
        match elements[0] {
            ClassElement::MethodDefinition(m) => {
                lemma_property_key_monotone(m.key, informed, uninformed);
            },
            ClassElement::PropertyDefinition(p) => {
                lemma_property_key_monotone(p.key, informed, uninformed);
                if let Some(v) = p.value {
                    lemma_expression_monotone(v, informed, uninformed);
                }
                assert(initializer_may_have_side_effects(p.value, informed)
                    ==> initializer_may_have_side_effects(p.value, uninformed));
            },
            ClassElement::AccessorProperty(a) => {
                lemma_property_key_monotone(a.key, informed, uninformed);
                if let Some(v) = a.value {
                    lemma_expression_monotone(v, informed, uninformed);
                }
                assert(initializer_may_have_side_effects(a.value, informed)
                    ==> initializer_may_have_side_effects(a.value, uninformed));
            },
            _ => {},
        }
        lemma_any_class_element_monotone(elements.drop_first(), informed, uninformed);
        assert(class_element_may_have_side_effects(elements[0], informed)
            ==> class_element_may_have_side_effects(elements[0], uninformed));
    }
}

/// Knowing more about references never adds side effects: when `informed`
/// answers as `uninformed` does wherever `uninformed` answers at all, an
/// expression that may have a side effect under `informed` may have one under
/// `uninformed` too. The analysis stays on the safe side when information is missing.
pub proof fn lemma_more_reference_information_never_adds_side_effects(
    expr: Expression,
    informed: ReferenceStatus,
    uninformed: ReferenceStatus,
)
    requires
        knows_at_least_as_much(informed, uninformed),
    ensures
        expression_may_have_side_effects(expr, informed) ==> expression_may_have_side_effects(
            expr,
            uninformed,
        ),
{
    lemma_expression_monotone(expr, informed, uninformed);
}

/// Without any information on references the analysis is at its most
/// cautious: whatever may have a side effect under some reference status may
/// have one under `WithoutGlobalReferenceInformation`.
pub proof fn lemma_without_reference_information_is_most_cautious(
    expr: Expression,
    status: ReferenceStatus,
)
    ensures
        expression_may_have_side_effects(expr, status) ==> expression_may_have_side_effects(
            expr,
            reference_status(&WithoutGlobalReferenceInformation),
        ),
{
    lemma_expression_monotone(expr, status, reference_status(&WithoutGlobalReferenceInformation));
}

/// Whether `reference` occurs somewhere in `expr`.
pub open spec fn reference_occurs_in_expression(
    reference: IdentifierReference,
    expr: Expression,
) -> bool
    decreases expr,
{
    match expr {
        Expression::Identifier(ident) => ident == reference,
        Expression::TemplateLiteral(t) => reference_occurs_in_any_expression(
            reference,
            t.expressions@,
        ),
        Expression::CallExpression(c) => reference_occurs_in_expression(reference, c.callee)
            || reference_occurs_in_any_argument(reference, c.arguments@),
        Expression::UnaryExpression(u) => reference_occurs_in_expression(reference, u.argument),
        Expression::LogicalExpression(l) => reference_occurs_in_expression(reference, l.left)
            || reference_occurs_in_expression(reference, l.right),
        Expression::ParenthesizedExpression(p) => reference_occurs_in_expression(
            reference,
            p.expression,
        ),
        Expression::ConditionalExpression(c) => reference_occurs_in_expression(reference, c.test)
            || reference_occurs_in_expression(reference, c.consequent)
            || reference_occurs_in_expression(reference, c.alternate),
        Expression::SequenceExpression(s) => reference_occurs_in_any_expression(
            reference,
            s.expressions@,
        ),
        Expression::BinaryExpression(b) => reference_occurs_in_expression(reference, b.left)
            || reference_occurs_in_expression(reference, b.right),
        Expression::ObjectExpression(o) => reference_occurs_in_any_property(
            reference,
            o.properties@,
        ),
        Expression::ArrayExpression(a) => reference_occurs_in_any_element(reference, a.elements@),
        Expression::ClassExpression(c) => (c.super_class matches Some(
            sup,
        ) && reference_occurs_in_expression(reference, sup))
            || reference_occurs_in_any_class_element(reference, c.body@),
        _ => false,
    }
}

/// Whether `reference` occurs in one of `exprs`.
pub open spec fn reference_occurs_in_any_expression(
    reference: IdentifierReference,
    exprs: Seq<Expression>,
) -> bool
    decreases exprs,
{
    exprs.len() > 0 && (reference_occurs_in_expression(reference, exprs[0])
        || reference_occurs_in_any_expression(reference, exprs.drop_first()))
}

/// Whether `reference` occurs in one of `args`.
pub open spec fn reference_occurs_in_any_argument(
    reference: IdentifierReference,
    args: Seq<Argument>,
) -> bool
    decreases args,
{
    args.len() > 0 && (match args[0] {
        Argument::SpreadElement(s) => reference_occurs_in_expression(reference, s.argument),
        Argument::Expression(e) => reference_occurs_in_expression(reference, e),
    } || reference_occurs_in_any_argument(reference, args.drop_first()))
}

/// Whether `reference` occurs in one of `elements`.
pub open spec fn reference_occurs_in_any_element(
    reference: IdentifierReference,
    elements: Seq<ArrayExpressionElement>,
) -> bool
    decreases elements,
{
    elements.len() > 0 && (match elements[0] {
        ArrayExpressionElement::SpreadElement(s) => reference_occurs_in_expression(
            reference,
            s.argument,
        ),
        ArrayExpressionElement::Expression(e) => reference_occurs_in_expression(reference, e),
        ArrayExpressionElement::Elision => false,
    } || reference_occurs_in_any_element(reference, elements.drop_first()))
}

/// Whether `reference` occurs in the key of a property or class member.
pub open spec fn reference_occurs_in_key(reference: IdentifierReference, key: PropertyKey) -> bool
    decreases key,
{
    match key {
        PropertyKey::Expression(e) => reference_occurs_in_expression(reference, e),
        _ => false,
    }
}

/// Whether `reference` occurs in one of the members `props` of an object literal.
pub open spec fn reference_occurs_in_any_property(
    reference: IdentifierReference,
    props: Seq<ObjectPropertyKind>,
) -> bool
    decreases props,
{
    props.len() > 0 && (match props[0] {
        ObjectPropertyKind::ObjectProperty(p) => reference_occurs_in_key(reference, p.key)
            || reference_occurs_in_expression(reference, p.value),
        ObjectPropertyKind::SpreadProperty(s) => reference_occurs_in_expression(
            reference,
            s.argument,
        ),
    } || reference_occurs_in_any_property(reference, props.drop_first()))
}

/// Whether `reference` occurs in the key or the initializer of one of the class members `elements`.
pub open spec fn reference_occurs_in_any_class_element(
    reference: IdentifierReference,
    elements: Seq<ClassElement>,
) -> bool
    decreases elements,
{
    elements.len() > 0 && (match elements[0] {
        ClassElement::MethodDefinition(m) => reference_occurs_in_key(reference, m.key),
        ClassElement::PropertyDefinition(p) => reference_occurs_in_key(reference, p.key) || (
        p.value matches Some(v) && reference_occurs_in_expression(reference, v)),
        ClassElement::AccessorProperty(a) => reference_occurs_in_key(reference, a.key) || (
        a.value matches Some(v) && reference_occurs_in_expression(reference, v)),
        _ => false,
    } || reference_occurs_in_any_class_element(reference, elements.drop_first()))
}

/// `first` and `second` answer alike for `reference`.
pub open spec fn agree_on(
    first: ReferenceStatus,
    second: ReferenceStatus,
    reference: IdentifierReference,
) -> bool {
    first(reference) == second(reference)
}

proof fn lemma_maybe_symbol_agree(
    expr: Expression,
    first: ReferenceStatus,
    second: ReferenceStatus,
)
    requires
        forall|r: IdentifierReference|
            #[trigger] reference_occurs_in_expression(r, expr) ==> agree_on(first, second, r),
    ensures
        maybe_symbol_or_to_primitive_may_return_symbol(first, expr)
            == maybe_symbol_or_to_primitive_may_return_symbol(second, expr),
        maybe_symbol_or_bigint_or_to_primitive_may_return_symbol_or_bigint(first, expr)
            == maybe_symbol_or_bigint_or_to_primitive_may_return_symbol_or_bigint(second, expr),
{
    if let Expression::Identifier(ident) = expr {
        assert(reference_occurs_in_expression(ident, expr));
    }
}

spec fn agree_in_expression(
    first: ReferenceStatus,
    second: ReferenceStatus,
    expr: Expression,
) -> bool {
    forall|r: IdentifierReference|
        #[trigger] reference_occurs_in_expression(r, expr)
            ==> agree_on(first, second, r)
}

spec fn agree_in_expressions(
    first: ReferenceStatus,
    second: ReferenceStatus,
    exprs: Seq<Expression>,
) -> bool {
    forall|r: IdentifierReference|
        #[trigger] reference_occurs_in_any_expression(r, exprs)
            ==> agree_on(first, second, r)
}

spec fn agree_in_arguments(
    first: ReferenceStatus,
    second: ReferenceStatus,
    args: Seq<Argument>,
) -> bool {
    forall|r: IdentifierReference|
        #[trigger] reference_occurs_in_any_argument(r, args)
            ==> agree_on(first, second, r)
}

spec fn agree_in_elements(
    first: ReferenceStatus,
    second: ReferenceStatus,
    elements: Seq<ArrayExpressionElement>,
) -> bool {
    forall|r: IdentifierReference|
        #[trigger] reference_occurs_in_any_element(r, elements)
            ==> agree_on(first, second, r)
}

spec fn agree_in_key(
    first: ReferenceStatus,
    second: ReferenceStatus,
    key: PropertyKey,
) -> bool {
    forall|r: IdentifierReference|
        #[trigger] reference_occurs_in_key(r, key)
            ==> agree_on(first, second, r)
}

spec fn agree_in_properties(
    first: ReferenceStatus,
    second: ReferenceStatus,
    props: Seq<ObjectPropertyKind>,
) -> bool {
    forall|r: IdentifierReference|
        #[trigger] reference_occurs_in_any_property(r, props)
            ==> agree_on(first, second, r)
}

spec fn agree_in_class_elements(
    first: ReferenceStatus,
    second: ReferenceStatus,
    elements: Seq<ClassElement>,
) -> bool {
    forall|r: IdentifierReference|
        #[trigger] reference_occurs_in_any_class_element(r, elements)
            ==> agree_on(first, second, r)
}

proof fn lemma_expression_agree(
    expr: Expression,
    first: ReferenceStatus,
    second: ReferenceStatus,
)
    requires
        agree_in_expression(first, second, expr),
    ensures
        expression_may_have_side_effects(expr, first) == expression_may_have_side_effects(
            expr,
            second,
        ),
    decreases expr,
{
    match expr {
        Expression::Identifier(ident) => {
            assert(reference_occurs_in_expression(ident, expr));
        },
        Expression::TemplateLiteral(t) => {
            assert forall|r: IdentifierReference|
                #[trigger] reference_occurs_in_any_expression(r, t.expressions@)
                    implies agree_on(first, second, r) by {
                assert(reference_occurs_in_expression(r, expr));
            }
            lemma_any_substitution_agree(t.expressions@, first, second);
            assert(template_literal_may_have_side_effects(t, first)
                == template_literal_may_have_side_effects(t, second));
        },
        Expression::CallExpression(c) => {
            assert forall|r: IdentifierReference|
                #[trigger] reference_occurs_in_expression(r, c.callee)
                    implies agree_on(first, second, r) by {
                assert(reference_occurs_in_expression(r, expr));
            }
            assert forall|r: IdentifierReference|
                #[trigger] reference_occurs_in_any_argument(r, c.arguments@)
                    implies agree_on(first, second, r) by {
                assert(reference_occurs_in_expression(r, expr));
            }
            if let Expression::Identifier(ident) = c.callee {
                assert(reference_occurs_in_expression(ident, c.callee));
            }
            lemma_any_argument_agree(c.arguments@, first, second);
            assert(call_expression_may_have_side_effects(*c, first)
                == call_expression_may_have_side_effects(*c, second));
        },
        Expression::UnaryExpression(u) => {
            assert forall|r: IdentifierReference|
                #[trigger] reference_occurs_in_expression(r, u.argument)
                    implies agree_on(first, second, r) by {
                assert(reference_occurs_in_expression(r, expr));
            }
            lemma_maybe_symbol_agree(u.argument, first, second);
            lemma_expression_agree(u.argument, first, second);
            assert(unary_expression_may_have_side_effects(*u, first)
                == unary_expression_may_have_side_effects(*u, second));
        },
        Expression::LogicalExpression(l) => {
            assert forall|r: IdentifierReference|
                #[trigger] reference_occurs_in_expression(r, l.left)
                    implies agree_on(first, second, r) by {
                assert(reference_occurs_in_expression(r, expr));
            }
            assert forall|r: IdentifierReference|
                #[trigger] reference_occurs_in_expression(r, l.right)
                    implies agree_on(first, second, r) by {
                assert(reference_occurs_in_expression(r, expr));
            }
            lemma_expression_agree(l.left, first, second);
            lemma_expression_agree(l.right, first, second);
            assert(logical_expression_may_have_side_effects(*l, first)
                == logical_expression_may_have_side_effects(*l, second));
        },
        Expression::ParenthesizedExpression(p) => {
            assert forall|r: IdentifierReference|
                #[trigger] reference_occurs_in_expression(r, p.expression)
                    implies agree_on(first, second, r) by {
                assert(reference_occurs_in_expression(r, expr));
            }
            lemma_expression_agree(p.expression, first, second);
        },
        Expression::ConditionalExpression(c) => {
            assert forall|r: IdentifierReference|
                #[trigger] reference_occurs_in_expression(r, c.test)
                    implies agree_on(first, second, r) by {
                assert(reference_occurs_in_expression(r, expr));
            }
            assert forall|r: IdentifierReference|
                #[trigger] reference_occurs_in_expression(r, c.consequent)
                    implies agree_on(first, second, r) by {
                assert(reference_occurs_in_expression(r, expr));
            }
            assert forall|r: IdentifierReference|
                #[trigger] reference_occurs_in_expression(r, c.alternate)
                    implies agree_on(first, second, r) by {
                assert(reference_occurs_in_expression(r, expr));
            }
            lemma_expression_agree(c.test, first, second);
            lemma_expression_agree(c.consequent, first, second);
            lemma_expression_agree(c.alternate, first, second);
        },
        Expression::SequenceExpression(q) => {
            assert forall|r: IdentifierReference|
                #[trigger] reference_occurs_in_any_expression(r, q.expressions@)
                    implies agree_on(first, second, r) by {
                assert(reference_occurs_in_expression(r, expr));
            }
            lemma_any_expression_agree(q.expressions@, first, second);
        },
        Expression::BinaryExpression(b) => {
            assert forall|r: IdentifierReference|
                #[trigger] reference_occurs_in_expression(r, b.left)
                    implies agree_on(first, second, r) by {
                assert(reference_occurs_in_expression(r, expr));
            }
            assert forall|r: IdentifierReference|
                #[trigger] reference_occurs_in_expression(r, b.right)
                    implies agree_on(first, second, r) by {
                assert(reference_occurs_in_expression(r, expr));
            }
            lemma_maybe_symbol_agree(b.left, first, second);
            lemma_maybe_symbol_agree(b.right, first, second);
            lemma_expression_agree(b.left, first, second);
            lemma_expression_agree(b.right, first, second);
            assert(binary_expression_may_have_side_effects(*b, first)
                == binary_expression_may_have_side_effects(*b, second));
        },
        Expression::ObjectExpression(o) => {
            assert forall|r: IdentifierReference|
                #[trigger] reference_occurs_in_any_property(r, o.properties@)
                    implies agree_on(first, second, r) by {
                assert(reference_occurs_in_expression(r, expr));
            }
            lemma_any_property_agree(o.properties@, first, second);
        },
        Expression::ArrayExpression(a) => {
            assert forall|r: IdentifierReference|
                #[trigger] reference_occurs_in_any_element(r, a.elements@)
                    implies agree_on(first, second, r) by {
                assert(reference_occurs_in_expression(r, expr));
            }
            lemma_any_element_agree(a.elements@, first, second);
            assert(array_expression_may_have_side_effects(a, first)
                == array_expression_may_have_side_effects(a, second));
        },
        Expression::ClassExpression(c) => {
            assert forall|r: IdentifierReference|
                #[trigger] reference_occurs_in_any_class_element(r, c.body@)
                    implies agree_on(first, second, r) by {
                assert(reference_occurs_in_expression(r, expr));
            }
            lemma_any_class_element_agree(c.body@, first, second);
            assert(class_may_have_side_effects(*c, first) == class_may_have_side_effects(
                *c,
                second,
            ));
        },
        _ => {},
    }
}

proof fn lemma_any_expression_agree(
    s: Seq<Expression>,
    first: ReferenceStatus,
    second: ReferenceStatus,
)
    requires
        agree_in_expressions(first, second, s),
    ensures
        any_expression_may_have_side_effects(s, first)
            == any_expression_may_have_side_effects(s, second),
    decreases s,
{
    if s.len() > 0 {
        let rest = s.drop_first();
        assert forall|r: IdentifierReference|
            #[trigger] reference_occurs_in_any_expression(r, rest)
                implies agree_on(first, second, r) by {
            assert(reference_occurs_in_any_expression(r, s));
        }
        assert forall|r: IdentifierReference|
            #[trigger] reference_occurs_in_expression(r, s[0])
                implies agree_on(first, second, r) by {
            assert(reference_occurs_in_any_expression(r, s));
        }
        lemma_expression_agree(s[0], first, second);
        assert(any_expression_may_have_side_effects(s, first) == (
            expression_may_have_side_effects(s[0], first)
                || any_expression_may_have_side_effects(rest, first)));
        assert(any_expression_may_have_side_effects(s, second) == (
            expression_may_have_side_effects(s[0], second)
                || any_expression_may_have_side_effects(rest, second)));
        lemma_any_expression_agree(rest, first, second);
    }
}

proof fn lemma_any_substitution_agree(
    s: Seq<Expression>,
    first: ReferenceStatus,
    second: ReferenceStatus,
)
    requires
        agree_in_expressions(first, second, s),
    ensures
        any_substitution_may_have_side_effects(s, first)
            == any_substitution_may_have_side_effects(s, second),
    decreases s,
{
    if s.len() > 0 {
        let rest = s.drop_first();
        assert forall|r: IdentifierReference|
            #[trigger] reference_occurs_in_any_expression(r, rest)
                implies agree_on(first, second, r) by {
            assert(reference_occurs_in_any_expression(r, s));
        }
        assert forall|r: IdentifierReference|
            #[trigger] reference_occurs_in_expression(r, s[0])
                implies agree_on(first, second, r) by {
            assert(reference_occurs_in_any_expression(r, s));
        }
        lemma_maybe_symbol_agree(s[0], first, second);
        lemma_expression_agree(s[0], first, second);
        lemma_any_substitution_agree(rest, first, second);
    }
}

proof fn lemma_any_argument_agree(
    s: Seq<Argument>,
    first: ReferenceStatus,
    second: ReferenceStatus,
)
    requires
        agree_in_arguments(first, second, s),
    ensures
        any_argument_may_have_side_effects(s, first)
            == any_argument_may_have_side_effects(s, second),
    decreases s,
{
    if s.len() > 0 {
        let rest = s.drop_first();
        assert forall|r: IdentifierReference|
            #[trigger] reference_occurs_in_any_argument(r, rest)
                implies agree_on(first, second, r) by {
            assert(reference_occurs_in_any_argument(r, s));
        }
        if let Argument::Expression(e) = s[0] {
            assert forall|r: IdentifierReference|
                #[trigger] reference_occurs_in_expression(r, e)
                    implies agree_on(first, second, r) by {
                assert(reference_occurs_in_any_argument(r, s));
            }
            lemma_maybe_symbol_agree(e, first, second);
            lemma_expression_agree(e, first, second);
        }
        lemma_any_argument_agree(rest, first, second);
    }
}

proof fn lemma_any_element_agree(
    s: Seq<ArrayExpressionElement>,
    first: ReferenceStatus,
    second: ReferenceStatus,
)
    requires
        agree_in_elements(first, second, s),
    ensures
        any_array_expression_element_may_have_side_effects(s, first)
            == any_array_expression_element_may_have_side_effects(s, second),
    decreases s,
{
    if s.len() > 0 {
        let rest = s.drop_first();
        assert forall|r: IdentifierReference|
            #[trigger] reference_occurs_in_any_element(r, rest)
                implies agree_on(first, second, r) by {
            assert(reference_occurs_in_any_element(r, s));
        }
        match s[0] {
            ArrayExpressionElement::SpreadElement(sp) => {
                assert forall|r: IdentifierReference|
                    #[trigger] reference_occurs_in_expression(r, sp.argument)
                        implies agree_on(first, second, r) by {
                    assert(reference_occurs_in_any_element(r, s));
                }
                lemma_spread_agree(sp, first, second);
            },
            ArrayExpressionElement::Expression(e) => {
                assert forall|r: IdentifierReference|
                    #[trigger] reference_occurs_in_expression(r, e)
                        implies agree_on(first, second, r) by {
                    assert(reference_occurs_in_any_element(r, s));
                }
                lemma_expression_agree(e, first, second);
            },
            ArrayExpressionElement::Elision => {},
        }
        assert(array_expression_element_may_have_side_effects(s[0], first)
            == array_expression_element_may_have_side_effects(s[0], second));
        lemma_any_element_agree(rest, first, second);
    }
}

proof fn lemma_any_property_agree(
    s: Seq<ObjectPropertyKind>,
    first: ReferenceStatus,
    second: ReferenceStatus,
)
    requires
        agree_in_properties(first, second, s),
    ensures
        any_object_property_kind_may_have_side_effects(s, first)
            == any_object_property_kind_may_have_side_effects(s, second),
    decreases s,
{
    if s.len() > 0 {
        let rest = s.drop_first();
        assert forall|r: IdentifierReference|
            #[trigger] reference_occurs_in_any_property(r, rest)
                implies agree_on(first, second, r) by {
            assert(reference_occurs_in_any_property(r, s));
        }
        match s[0] {
            ObjectPropertyKind::ObjectProperty(p) => {
                assert forall|r: IdentifierReference|
                    #[trigger] reference_occurs_in_key(r, p.key)
                        implies agree_on(first, second, r) by {
                    assert(reference_occurs_in_any_property(r, s));
                }
                assert forall|r: IdentifierReference|
                    #[trigger] reference_occurs_in_expression(r, p.value)
                        implies agree_on(first, second, r) by {
                    assert(reference_occurs_in_any_property(r, s));
                }
                lemma_key_agree(p.key, first, second);
                lemma_expression_agree(p.value, first, second);
            },
            ObjectPropertyKind::SpreadProperty(sp) => {
                assert forall|r: IdentifierReference|
                    #[trigger] reference_occurs_in_expression(r, sp.argument)
                        implies agree_on(first, second, r) by {
                    assert(reference_occurs_in_any_property(r, s));
                }
                lemma_spread_agree(sp, first, second);
            },
        }
        assert(object_property_kind_may_have_side_effects(s[0], first)
            == object_property_kind_may_have_side_effects(s[0], second));
        lemma_any_property_agree(rest, first, second);
    }
}

proof fn lemma_any_class_element_agree(
    s: Seq<ClassElement>,
    first: ReferenceStatus,
    second: ReferenceStatus,
)
    requires
        agree_in_class_elements(first, second, s),
    ensures
        any_class_element_may_have_side_effects(s, first)
            == any_class_element_may_have_side_effects(s, second),
    decreases s,
{
    if s.len() > 0 {
        let rest = s.drop_first();
        assert forall|r: IdentifierReference|
            #[trigger] reference_occurs_in_any_class_element(r, rest)
                implies agree_on(first, second, r) by {
            assert(reference_occurs_in_any_class_element(r, s));
        }
        match s[0] {
            ClassElement::MethodDefinition(m) => {
                assert forall|r: IdentifierReference|
                    #[trigger] reference_occurs_in_key(r, m.key)
                        implies agree_on(first, second, r) by {
                    assert(reference_occurs_in_any_class_element(r, s));
                }
                lemma_key_agree(m.key, first, second);
            },
            ClassElement::PropertyDefinition(p) => {
                assert forall|r: IdentifierReference|
                    #[trigger] reference_occurs_in_key(r, p.key)
                        implies agree_on(first, second, r) by {
                    assert(reference_occurs_in_any_class_element(r, s));
                }
                lemma_key_agree(p.key, first, second);
                if let Some(v) = p.value {
                    assert forall|r: IdentifierReference|
                        #[trigger] reference_occurs_in_expression(r, v)
                            implies agree_on(first, second, r) by {
                        assert(reference_occurs_in_any_class_element(r, s));
                    }
                    lemma_expression_agree(v, first, second);
                }
                assert(initializer_may_have_side_effects(p.value, first)
                    == initializer_may_have_side_effects(p.value, second));
            },
            ClassElement::AccessorProperty(a) => {
                assert forall|r: IdentifierReference|
                    #[trigger] reference_occurs_in_key(r, a.key)
                        implies agree_on(first, second, r) by {
                    assert(reference_occurs_in_any_class_element(r, s));
                }
                lemma_key_agree(a.key, first, second);
                if let Some(v) = a.value {
                    assert forall|r: IdentifierReference|
                        #[trigger] reference_occurs_in_expression(r, v)
                            implies agree_on(first, second, r) by {
                        assert(reference_occurs_in_any_class_element(r, s));
                    }
                    lemma_expression_agree(v, first, second);
                }
                assert(initializer_may_have_side_effects(a.value, first)
                    == initializer_may_have_side_effects(a.value, second));
            },
            _ => {},
        }
        assert(class_element_may_have_side_effects(s[0], first)
            == class_element_may_have_side_effects(s[0], second));
        lemma_any_class_element_agree(rest, first, second);
    }
}

proof fn lemma_key_agree(
    key: PropertyKey,
    first: ReferenceStatus,
    second: ReferenceStatus,
)
    requires
        agree_in_key(first, second, key),
    ensures
        property_key_may_have_side_effects(key, first) == property_key_may_have_side_effects(
            key,
            second,
        ),
    decreases key,
{
    if let PropertyKey::Expression(e) = key {
        assert forall|r: IdentifierReference|
            #[trigger] reference_occurs_in_expression(r, e) implies agree_on(first, second, r) by {
            assert(reference_occurs_in_key(r, key));
        }
        lemma_expression_agree(e, first, second);
    }
}

proof fn lemma_spread_agree(
    spread: SpreadElement,
    first: ReferenceStatus,
    second: ReferenceStatus,
)
    requires
        agree_in_expression(first, second, spread.argument),
    ensures
        spread_element_may_have_side_effects(spread, first) == spread_element_may_have_side_effects(
            spread,
            second,
        ),
    decreases spread,
{
    match spread.argument {
        Expression::ArrayExpression(a) => {
            assert forall|r: IdentifierReference|
                #[trigger] reference_occurs_in_any_element(r, a.elements@)
                    implies agree_on(first, second, r) by {
                assert(reference_occurs_in_expression(r, spread.argument));
            }
            lemma_any_element_agree(a.elements@, first, second);
            assert(array_expression_may_have_side_effects(a, first)
                == array_expression_may_have_side_effects(a, second));
        },
        Expression::TemplateLiteral(t) => {
            assert forall|r: IdentifierReference|
                #[trigger] reference_occurs_in_any_expression(r, t.expressions@)
                    implies agree_on(first, second, r) by {
                assert(reference_occurs_in_expression(r, spread.argument));
            }
            lemma_any_substitution_agree(t.expressions@, first, second);
            assert(template_literal_may_have_side_effects(t, first)
                == template_literal_may_have_side_effects(t, second));
        },
        _ => {},
    }
}

/// The answer depends on the reference information only through the
/// references that occur in the expression: two reference statuses that
/// answer alike for each of them give the same answer.
pub proof fn lemma_answer_depends_only_on_references_in_the_expression(
    expr: Expression,
    first: ReferenceStatus,
    second: ReferenceStatus,
)
    requires
        forall|reference: IdentifierReference|
            #[trigger] reference_occurs_in_expression(reference, expr)
                ==> first(reference) == second(reference),
    ensures
        expression_may_have_side_effects(expr, first) == expression_may_have_side_effects(
            expr,
            second,
        ),
{
    assert forall|r: IdentifierReference|
        #[trigger] reference_occurs_in_expression(r, expr) implies agree_on(first, second, r) by {}
    lemma_expression_agree(expr, first, second);
}

} // verus!
