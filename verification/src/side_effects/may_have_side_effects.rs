//! The side-effect analysis itself, on each kind of node.
use vstd::prelude::*;

use crate::ast::{
    Argument, ArrayExpression, ArrayExpressionElement, BinaryExpression, BinaryOperator,
    CallExpression, Class, ClassElement, Expression, LogicalExpression, ObjectExpression,
    ObjectProperty, ObjectPropertyKind, PropertyKey, SpreadElement, TemplateLiteral,
    UnaryExpression, UnaryOperator,
};
use crate::is_global_reference::{IsGlobalReference, ReferenceStatus, reference_status};
use crate::side_effects::semantics;
use crate::strings::str_equals;

verus! {

/// Returns true if subtree changes application state.
///
/// This trait assumes the following:
/// - `.toString()`, `.valueOf()`, and `[Symbol.toPrimitive]()` are side-effect free.
///   - This is mainly to assume `ToPrimitive` is side-effect free.
///   - Note that the builtin `Array::toString` has a side-effect when a value contains a Symbol as `ToString(Symbol)` throws an error. Maybe we should revisit this assumption and remove it.
///     - For example, `"" == [Symbol()]` returns an error, but this trait returns `false`.
/// - Errors thrown when creating a String or an Array that exceeds the maximum length does not happen.
/// - TDZ errors does not happen.
///
/// Each implementation defines `spec_may_have_side_effects` as the matching
/// function of `side_effects::semantics`.
pub trait MayHaveSideEffects {
    /// Whether evaluating this node may change application state, when
    /// `status` tells for each reference whether it is global.
    spec fn spec_may_have_side_effects(&self, status: ReferenceStatus) -> bool;

    /// Whether evaluating this node may change application state.
    fn may_have_side_effects<G: IsGlobalReference>(&self, is_global_reference: &G) -> (r: bool)
        ensures
            r == self.spec_may_have_side_effects(reference_status(is_global_reference)),
    ;
}

/// Whether `name` is `NaN`, `Infinity` or `undefined`.
fn is_nan_infinity_or_undefined_name(name: &str) -> (r: bool)
    ensures
        r == semantics::is_nan_infinity_or_undefined(name@),
{
    str_equals(name, "NaN") || str_equals(name, "Infinity") || str_equals(name, "undefined")
}

/// Whether `name` is `toString`, `valueOf` or `__proto__`.
fn is_to_primitive_related_name(name: &str) -> (r: bool)
    ensures
        r == semantics::is_to_primitive_related_name(name@),
{
    str_equals(name, "toString") || str_equals(name, "valueOf") || str_equals(name, "__proto__")
}

/// Whether some expression of `exprs` may have a side effect.
fn any_may_have_side_effects<G: IsGlobalReference>(
    exprs: &Vec<Expression>,
    is_global_reference: &G,
) -> (r: bool)
    ensures
        r == semantics::any_expression_may_have_side_effects(
            exprs@,
            reference_status(is_global_reference),
        ),
    decreases exprs,
{
    let mut i: usize = 0;
    proof {
        assert(exprs@.skip(0) =~= exprs@);
    }
    while i < exprs.len()
        invariant
            0 <= i <= exprs@.len(),
            semantics::any_expression_may_have_side_effects(
                exprs@,
                reference_status(is_global_reference),
            ) == semantics::any_expression_may_have_side_effects(
                exprs@.skip(i as int),
                reference_status(is_global_reference),
            ),
        decreases exprs@.len() - i,
    {
        proof {
            assert(decreases_to!(exprs => exprs@[i as int]));
            assert(exprs@.skip(i as int).drop_first() =~= exprs@.skip(i + 1));
            assert(exprs@.skip(i as int)[0] == exprs@[i as int]);
        }
        if exprs[i].may_have_side_effects(is_global_reference) {
            return true;
        }
        i += 1;
    }
    false
}

/// Whether evaluating some member of an object literal may have a side effect.
fn any_property_may_have_side_effects<G: IsGlobalReference>(
    properties: &Vec<ObjectPropertyKind>,
    is_global_reference: &G,
) -> (r: bool)
    ensures
        r == semantics::any_object_property_kind_may_have_side_effects(
            properties@,
            reference_status(is_global_reference),
        ),
    decreases properties,
{
    let mut i: usize = 0;
    proof {
        assert(properties@.skip(0) =~= properties@);
    }
    while i < properties.len()
        invariant
            0 <= i <= properties@.len(),
            semantics::any_object_property_kind_may_have_side_effects(
                properties@,
                reference_status(is_global_reference),
            ) == semantics::any_object_property_kind_may_have_side_effects(
                properties@.skip(i as int),
                reference_status(is_global_reference),
            ),
        decreases properties@.len() - i,
    {
        proof {
            assert(decreases_to!(properties => properties@[i as int]));
            assert(properties@.skip(i as int).drop_first() =~= properties@.skip(i + 1));
            assert(properties@.skip(i as int)[0] == properties@[i as int]);
        }
        if properties[i].may_have_side_effects(is_global_reference) {
            return true;
        }
        i += 1;
    }
    false
}

impl MayHaveSideEffects for Expression {
    open spec fn spec_may_have_side_effects(&self, status: ReferenceStatus) -> bool {
        semantics::expression_may_have_side_effects(*self, status)
    }

    fn may_have_side_effects<G: IsGlobalReference>(&self, is_global_reference: &G) -> (r: bool)
        decreases self,
    {
        match self {
            Expression::Identifier(ident) => {
                if is_nan_infinity_or_undefined_name(ident.name.as_str()) {
                    false
                } else {
                    // Reading global variables may have a side effect.
                    // NOTE: It should also return true when the reference might refer to a reference value created by a with statement
                    // NOTE: we ignore TDZ errors
                    match is_global_reference.is_global_reference(ident) {
                        Some(false) => false,
                        _ => true,
                    }
                }
            },
            Expression::NumericLiteral
            | Expression::BooleanLiteral(_)
            | Expression::StringLiteral(_)
            | Expression::BigIntLiteral(_)
            | Expression::NullLiteral
            | Expression::RegExpLiteral
            | Expression::MetaProperty
            | Expression::ThisExpression
            | Expression::ArrowFunctionExpression
            | Expression::FunctionExpression
            | Expression::Super => false,
            Expression::TemplateLiteral(template) => template_may_have_side_effects(
                template,
                is_global_reference,
            ),
            Expression::CallExpression(e) => e.may_have_side_effects(is_global_reference),
            Expression::UnaryExpression(e) => e.may_have_side_effects(is_global_reference),
            Expression::LogicalExpression(e) => e.may_have_side_effects(is_global_reference),
            Expression::ParenthesizedExpression(e) => e.expression.may_have_side_effects(
                is_global_reference,
            ),
            Expression::ConditionalExpression(e) => {
                e.test.may_have_side_effects(is_global_reference)
                    || e.consequent.may_have_side_effects(is_global_reference)
                    || e.alternate.may_have_side_effects(is_global_reference)
            },
            Expression::SequenceExpression(e) => any_may_have_side_effects(
                &e.expressions,
                is_global_reference,
            ),
            Expression::BinaryExpression(e) => e.may_have_side_effects(is_global_reference),
            Expression::ObjectExpression(object_expr) => any_property_may_have_side_effects(
                &object_expr.properties,
                is_global_reference,
            ),
            Expression::ArrayExpression(e) => e.may_have_side_effects(is_global_reference),
            Expression::ClassExpression(e) => e.may_have_side_effects(is_global_reference),
            // NOTE: private in can throw `TypeError`
            _ => true,
        }
    }
}

impl MayHaveSideEffects for UnaryExpression {
    open spec fn spec_may_have_side_effects(&self, status: ReferenceStatus) -> bool {
        semantics::unary_expression_may_have_side_effects(*self, status)
    }

    fn may_have_side_effects<G: IsGlobalReference>(&self, is_global_reference: &G) -> (r: bool)
        decreases self,
    {
        match self.operator {
            UnaryOperator::Delete => true,
            UnaryOperator::Void | UnaryOperator::LogicalNot => {
                self.argument.may_have_side_effects(is_global_reference)
            },
            UnaryOperator::Typeof => {
                if matches!(&self.argument, Expression::Identifier(_)) {
                    false
                } else {
                    self.argument.may_have_side_effects(is_global_reference)
                }
            },
            UnaryOperator::UnaryPlus => {
                // ToNumber throws an error when the argument is Symbol / BigInt / an object that
                // returns Symbol or BigInt from ToPrimitive
                maybe_symbol_or_bigint_or_to_primitive_may_return_symbol_or_bigint(
                    is_global_reference,
                    &self.argument,
                ) || self.argument.may_have_side_effects(is_global_reference)
            },
            UnaryOperator::UnaryNegation | UnaryOperator::BitwiseNot => {
                // ToNumeric throws an error when the argument is Symbol / an object that
                // returns Symbol from ToPrimitive
                maybe_symbol_or_to_primitive_may_return_symbol(
                    is_global_reference,
                    &self.argument,
                ) || self.argument.may_have_side_effects(is_global_reference)
            },
        }
    }
}

impl MayHaveSideEffects for BinaryExpression {
    open spec fn spec_may_have_side_effects(&self, status: ReferenceStatus) -> bool {
        semantics::binary_expression_may_have_side_effects(*self, status)
    }

    fn may_have_side_effects<G: IsGlobalReference>(&self, is_global_reference: &G) -> (r: bool)
        decreases self,
    {
        match self.operator {
            BinaryOperator::Equality
            | BinaryOperator::Inequality
            | BinaryOperator::StrictEquality
            | BinaryOperator::StrictInequality => {
                self.left.may_have_side_effects(is_global_reference)
                    || self.right.may_have_side_effects(is_global_reference)
            },
            BinaryOperator::LessThan
            | BinaryOperator::LessEqualThan
            | BinaryOperator::GreaterThan
            | BinaryOperator::GreaterEqualThan => {
                // ToNumeric throws an error when an operand is Symbol / an object that
                // returns Symbol from ToPrimitive
                maybe_symbol_or_to_primitive_may_return_symbol(is_global_reference, &self.left)
                    || maybe_symbol_or_to_primitive_may_return_symbol(
                    is_global_reference,
                    &self.right,
                ) || self.left.may_have_side_effects(is_global_reference)
                    || self.right.may_have_side_effects(is_global_reference)
            },
            BinaryOperator::In | BinaryOperator::Instanceof => {
                // instanceof and in can throw `TypeError`
                true
            },
            BinaryOperator::Addition => {
                if is_string_or_to_primitive_returns_string(&self.left)
                    || is_string_or_to_primitive_returns_string(&self.right) {
                    let other_side = if is_string_or_to_primitive_returns_string(&self.left) {
                        &self.right
                    } else {
                        &self.left
                    };
                    maybe_symbol_or_to_primitive_may_return_symbol(
                        is_global_reference,
                        other_side,
                    ) || self.left.may_have_side_effects(is_global_reference)
                        || self.right.may_have_side_effects(is_global_reference)
                } else if self.left.is_number() || self.right.is_number() {
                    let other_side = if self.left.is_number() {
                        &self.right
                    } else {
                        &self.left
                    };
                    !matches!(
                        other_side,
                        Expression::NullLiteral | Expression::NumericLiteral
                            | Expression::BooleanLiteral(_)
                    )
                } else {
                    !(self.left.is_big_int_literal() && self.right.is_big_int_literal())
                }
            },
            BinaryOperator::Subtraction
            | BinaryOperator::Multiplication
            | BinaryOperator::Division
            | BinaryOperator::Remainder
            | BinaryOperator::ShiftLeft
            | BinaryOperator::BitwiseOR
            | BinaryOperator::ShiftRight
            | BinaryOperator::BitwiseXOR
            | BinaryOperator::BitwiseAnd
            | BinaryOperator::Exponential
            | BinaryOperator::ShiftRightZeroFill => {
                if self.left.is_big_int_literal() || self.right.is_big_int_literal() {
                    match (&self.left, &self.right) {
                        (Expression::BigIntLiteral(_), Expression::BigIntLiteral(right)) => {
                            match self.operator {
                                BinaryOperator::Exponential => right.is_negative(),
                                BinaryOperator::Division | BinaryOperator::Remainder => {
                                    right.is_zero()
                                },
                                BinaryOperator::ShiftRightZeroFill => true,
                                _ => false,
                            }
                        },
                        _ => true,
                    }
                } else if !(maybe_symbol_or_bigint_or_to_primitive_may_return_symbol_or_bigint(
                    is_global_reference,
                    &self.left,
                ) || maybe_symbol_or_bigint_or_to_primitive_may_return_symbol_or_bigint(
                    is_global_reference,
                    &self.right,
                )) {
                    self.left.may_have_side_effects(is_global_reference)
                        || self.right.may_have_side_effects(is_global_reference)
                } else {
                    true
                }
            },
        }
    }
}

impl MayHaveSideEffects for LogicalExpression {
    open spec fn spec_may_have_side_effects(&self, status: ReferenceStatus) -> bool {
        semantics::logical_expression_may_have_side_effects(*self, status)
    }

    fn may_have_side_effects<G: IsGlobalReference>(&self, is_global_reference: &G) -> (r: bool)
        decreases self,
    {
        self.left.may_have_side_effects(is_global_reference)
            || self.right.may_have_side_effects(is_global_reference)
    }
}

impl MayHaveSideEffects for ArrayExpression {
    open spec fn spec_may_have_side_effects(&self, status: ReferenceStatus) -> bool {
        semantics::array_expression_may_have_side_effects(*self, status)
    }

    fn may_have_side_effects<G: IsGlobalReference>(&self, is_global_reference: &G) -> (r: bool)
        decreases self,
    {
        let mut i: usize = 0;
        proof {
            assert(self.elements@.skip(0) =~= self.elements@);
        }
        #[verifier::loop_isolation(false)]
        while i < self.elements.len()
            invariant
                0 <= i <= self.elements@.len(),
                semantics::any_array_expression_element_may_have_side_effects(
                    self.elements@,
                    reference_status(is_global_reference),
                ) == semantics::any_array_expression_element_may_have_side_effects(
                    self.elements@.skip(i as int),
                    reference_status(is_global_reference),
                ),
            decreases self.elements@.len() - i,
        {
            proof {
                assert(decreases_to!(*self => self.elements@[i as int]));
                assert(self.elements@.skip(i as int).drop_first() =~= self.elements@.skip(i + 1));
                assert(self.elements@.skip(i as int)[0] == self.elements@[i as int]);
            }
            if self.elements[i].may_have_side_effects(is_global_reference) {
                return true;
            }
            i += 1;
        }
        false
    }
}

/// Whether spreading `spread` in an array or object literal may have a side effect.
fn spread_may_have_side_effects<G: IsGlobalReference>(
    spread: &SpreadElement,
    is_global_reference: &G,
) -> (r: bool)
    ensures
        r == semantics::spread_element_may_have_side_effects(
            *spread,
            reference_status(is_global_reference),
        ),
    decreases spread,
{
    match &spread.argument {
        Expression::ArrayExpression(arr) => arr.may_have_side_effects(is_global_reference),
        Expression::StringLiteral(_) => false,
        Expression::TemplateLiteral(t) => template_may_have_side_effects(t, is_global_reference),
        _ => true,
    }
}

impl MayHaveSideEffects for ArrayExpressionElement {
    open spec fn spec_may_have_side_effects(&self, status: ReferenceStatus) -> bool {
        semantics::array_expression_element_may_have_side_effects(*self, status)
    }

    fn may_have_side_effects<G: IsGlobalReference>(&self, is_global_reference: &G) -> (r: bool)
        decreases self,
    {
        match self {
            ArrayExpressionElement::SpreadElement(e) => spread_may_have_side_effects(
                e,
                is_global_reference,
            ),
            ArrayExpressionElement::Expression(e) => e.may_have_side_effects(is_global_reference),
            ArrayExpressionElement::Elision => false,
        }
    }
}

impl MayHaveSideEffects for ObjectPropertyKind {
    open spec fn spec_may_have_side_effects(&self, status: ReferenceStatus) -> bool {
        semantics::object_property_kind_may_have_side_effects(*self, status)
    }

    fn may_have_side_effects<G: IsGlobalReference>(&self, is_global_reference: &G) -> (r: bool)
        decreases self,
    {
        match self {
            ObjectPropertyKind::ObjectProperty(o) => o.may_have_side_effects(is_global_reference),
            ObjectPropertyKind::SpreadProperty(e) => spread_may_have_side_effects(
                e,
                is_global_reference,
            ),
        }
    }
}

impl MayHaveSideEffects for ObjectProperty {
    open spec fn spec_may_have_side_effects(&self, status: ReferenceStatus) -> bool {
        semantics::object_property_may_have_side_effects(*self, status)
    }

    fn may_have_side_effects<G: IsGlobalReference>(&self, is_global_reference: &G) -> (r: bool)
        decreases self,
    {
        self.key.may_have_side_effects(is_global_reference)
            || self.value.may_have_side_effects(is_global_reference)
    }
}

impl MayHaveSideEffects for PropertyKey {
    open spec fn spec_may_have_side_effects(&self, status: ReferenceStatus) -> bool {
        semantics::property_key_may_have_side_effects(*self, status)
    }

    fn may_have_side_effects<G: IsGlobalReference>(&self, is_global_reference: &G) -> (r: bool)
        decreases self,
    {
        match self {
            PropertyKey::StaticIdentifier(_) | PropertyKey::PrivateIdentifier(_) => false,
            PropertyKey::Expression(e) => e.may_have_side_effects(is_global_reference),
        }
    }
}

impl MayHaveSideEffects for Class {
    open spec fn spec_may_have_side_effects(&self, status: ReferenceStatus) -> bool {
        semantics::class_may_have_side_effects(*self, status)
    }

    fn may_have_side_effects<G: IsGlobalReference>(&self, is_global_reference: &G) -> (r: bool)
        decreases self,
    {
        // decorators are called, and the superclass is evaluated and must be a constructor
        if self.decorator_count != 0 || self.super_class.is_some() {
            return true;
        }
        let mut i: usize = 0;
        proof {
            assert(self.body@.skip(0) =~= self.body@);
        }
        #[verifier::loop_isolation(false)]
        while i < self.body.len()
            invariant
                0 <= i <= self.body@.len(),
                semantics::any_class_element_may_have_side_effects(
                    self.body@,
                    reference_status(is_global_reference),
                ) == semantics::any_class_element_may_have_side_effects(
                    self.body@.skip(i as int),
                    reference_status(is_global_reference),
                ),
            decreases self.body@.len() - i,
        {
            proof {
                assert(decreases_to!(*self => self.body@[i as int]));
                assert(self.body@.skip(i as int).drop_first() =~= self.body@.skip(i + 1));
                assert(self.body@.skip(i as int)[0] == self.body@[i as int]);
            }
            if self.body[i].may_have_side_effects(is_global_reference) {
                return true;
            }
            i += 1;
        }
        false
    }
}

impl MayHaveSideEffects for ClassElement {
    open spec fn spec_may_have_side_effects(&self, status: ReferenceStatus) -> bool {
        semantics::class_element_may_have_side_effects(*self, status)
    }

    fn may_have_side_effects<G: IsGlobalReference>(&self, is_global_reference: &G) -> (r: bool)
        decreases self,
    {
        match self {
            // The statements of the block are not inspected: any statement may have a side effect.
            ClassElement::StaticBlock(block) => block.statement_count != 0,
            // Decorators are called and computed keys evaluated for every member;
            // initializers run at definition only for static members.
            ClassElement::MethodDefinition(e) => {
                e.decorator_count != 0 || e.key.may_have_side_effects(is_global_reference)
            },
            ClassElement::PropertyDefinition(e) => {
                e.decorator_count != 0 || e.key.may_have_side_effects(is_global_reference) || (
                e.is_static && initializer_may_have_side_effects(&e.value, is_global_reference))
            },
            ClassElement::AccessorProperty(e) => {
                e.decorator_count != 0 || e.key.may_have_side_effects(is_global_reference) || (
                e.is_static && initializer_may_have_side_effects(&e.value, is_global_reference))
            },
            ClassElement::TSIndexSignature => false,
        }
    }
}

/// Whether running the initializer, if there is one, may have a side effect.
fn initializer_may_have_side_effects<G: IsGlobalReference>(
    value: &Option<Expression>,
    is_global_reference: &G,
) -> (r: bool)
    ensures
        r == semantics::initializer_may_have_side_effects(
            *value,
            reference_status(is_global_reference),
        ),
    decreases value,
{
    match value {
        Some(v) => v.may_have_side_effects(is_global_reference),
        None => false,
    }
}

/// Whether evaluating the template literal may have a side effect: some
/// substitution may have one, or may be a `Symbol`, on which `ToString` throws.
fn template_may_have_side_effects<G: IsGlobalReference>(
    template: &TemplateLiteral,
    is_global_reference: &G,
) -> (r: bool)
    ensures
        r == semantics::template_literal_may_have_side_effects(
            *template,
            reference_status(is_global_reference),
        ),
    decreases template,
{
    let exprs = &template.expressions;
    let mut i: usize = 0;
    proof {
        assert(exprs@.skip(0) =~= exprs@);
    }
    while i < exprs.len()
        invariant
            0 <= i <= exprs@.len(),
            exprs == &template.expressions,
            semantics::any_substitution_may_have_side_effects(
                exprs@,
                reference_status(is_global_reference),
            ) == semantics::any_substitution_may_have_side_effects(
                exprs@.skip(i as int),
                reference_status(is_global_reference),
            ),
        decreases exprs@.len() - i,
    {
        proof {
            assert(decreases_to!(*template => exprs@[i as int]));
            assert(exprs@.skip(i as int).drop_first() =~= exprs@.skip(i + 1));
            assert(exprs@.skip(i as int)[0] == exprs@[i as int]);
        }
        if maybe_symbol_or_to_primitive_may_return_symbol(is_global_reference, &exprs[i])
            || exprs[i].may_have_side_effects(is_global_reference) {
            return true;
        }
        i += 1;
    }
    false
}

impl MayHaveSideEffects for CallExpression {
    open spec fn spec_may_have_side_effects(&self, status: ReferenceStatus) -> bool {
        semantics::call_expression_may_have_side_effects(*self, status)
    }

    fn may_have_side_effects<G: IsGlobalReference>(&self, is_global_reference: &G) -> (r: bool)
        decreases self,
    {
        match &self.callee {
            // `Symbol(description)` only converts its description to a string
            Expression::Identifier(ident) => {
                let is_global_symbol = str_equals(ident.name.as_str(), "Symbol")
                    && match is_global_reference.is_global_reference(ident) {
                    Some(true) => true,
                    _ => false,
                };
                if is_global_symbol {
                    arguments_may_have_side_effects(&self.arguments, is_global_reference)
                } else {
                    true
                }
            },
            _ => true,
        }
    }
}

/// Whether passing some of `args` to `Symbol` may have a side effect: an
/// argument is spread, may have a side effect, or may be a `Symbol`.
fn arguments_may_have_side_effects<G: IsGlobalReference>(
    args: &Vec<Argument>,
    is_global_reference: &G,
) -> (r: bool)
    ensures
        r == semantics::any_argument_may_have_side_effects(
            args@,
            reference_status(is_global_reference),
        ),
    decreases args,
{
    let mut i: usize = 0;
    proof {
        assert(args@.skip(0) =~= args@);
    }
    while i < args.len()
        invariant
            0 <= i <= args@.len(),
            semantics::any_argument_may_have_side_effects(
                args@,
                reference_status(is_global_reference),
            ) == semantics::any_argument_may_have_side_effects(
                args@.skip(i as int),
                reference_status(is_global_reference),
            ),
        decreases args@.len() - i,
    {
        proof {
            assert(decreases_to!(args => args@[i as int]));
            assert(args@.skip(i as int).drop_first() =~= args@.skip(i + 1));
            assert(args@.skip(i as int)[0] == args@[i as int]);
        }
        match &args[i] {
            Argument::SpreadElement(_) => {
                return true;
            },
            Argument::Expression(e) => {
                if maybe_symbol_or_to_primitive_may_return_symbol(is_global_reference, e)
                    || e.may_have_side_effects(is_global_reference) {
                    return true;
                }
            },
        }
        i += 1;
    }
    false
}

/// Whether `expr` is a string, or an object whose `ToPrimitive` returns a string.
fn is_string_or_to_primitive_returns_string(expr: &Expression) -> (r: bool)
    ensures
        r == semantics::is_string_or_to_primitive_returns_string(*expr),
{
    match expr {
        Expression::StringLiteral(_)
        | Expression::TemplateLiteral(_)
        | Expression::RegExpLiteral
        | Expression::ArrayExpression(_) => true,
        // unless `Symbol.toPrimitive`, `valueOf`, `toString` is overridden,
        // ToPrimitive for an object returns `"[object Object]"`
        Expression::ObjectExpression(obj) => {
            !maybe_object_with_to_primitive_related_properties_overridden(obj)
        },
        _ => false,
    }
}

/// Whether the given expression may be a `Symbol` or converted to a `Symbol` when passed to `toPrimitive`.
fn maybe_symbol_or_to_primitive_may_return_symbol<G: IsGlobalReference>(
    is_global_reference: &G,
    expr: &Expression,
) -> (r: bool)
    ensures
        r == semantics::maybe_symbol_or_to_primitive_may_return_symbol(
            reference_status(is_global_reference),
            *expr,
        ),
{
    match expr {
        Expression::Identifier(ident) => {
            !(is_nan_infinity_or_undefined_name(ident.name.as_str())
                && match is_global_reference.is_global_reference(ident) {
                Some(true) => true,
                _ => false,
            })
        },
        Expression::StringLiteral(_)
        | Expression::TemplateLiteral(_)
        | Expression::NullLiteral
        | Expression::NumericLiteral
        | Expression::BigIntLiteral(_)
        | Expression::BooleanLiteral(_)
        | Expression::RegExpLiteral
        | Expression::ArrayExpression(_) => false,
        // unless `Symbol.toPrimitive`, `valueOf`, `toString` is overridden,
        // ToPrimitive for an object returns `"[object Object]"`
        Expression::ObjectExpression(obj) => {
            maybe_object_with_to_primitive_related_properties_overridden(obj)
        },
        _ => true,
    }
}

/// Whether the given expression may be a `Symbol`/`BigInt` or converted to a `Symbol`/`BigInt` when passed to `toPrimitive`.
fn maybe_symbol_or_bigint_or_to_primitive_may_return_symbol_or_bigint<G: IsGlobalReference>(
    is_global_reference: &G,
    expr: &Expression,
) -> (r: bool)
    ensures
        r == semantics::maybe_symbol_or_bigint_or_to_primitive_may_return_symbol_or_bigint(
            reference_status(is_global_reference),
            *expr,
        ),
{
    match expr {
        Expression::Identifier(ident) => {
            !(is_nan_infinity_or_undefined_name(ident.name.as_str())
                && match is_global_reference.is_global_reference(ident) {
                Some(true) => true,
                _ => false,
            })
        },
        Expression::StringLiteral(_)
        | Expression::TemplateLiteral(_)
        | Expression::NullLiteral
        | Expression::NumericLiteral
        | Expression::BooleanLiteral(_)
        | Expression::RegExpLiteral
        | Expression::ArrayExpression(_) => false,
        // unless `Symbol.toPrimitive`, `valueOf`, `toString` is overridden,
        // ToPrimitive for an object returns `"[object Object]"`
        Expression::ObjectExpression(obj) => {
            maybe_object_with_to_primitive_related_properties_overridden(obj)
        },
        _ => true,
    }
}

/// Whether some member of the object literal may define `toString`, `valueOf`
/// or `Symbol.toPrimitive`.
fn maybe_object_with_to_primitive_related_properties_overridden(
    obj: &ObjectExpression,
) -> (r: bool)
    ensures
        r == semantics::maybe_object_with_to_primitive_related_properties_overridden(*obj),
    decreases obj,
{
    let mut i: usize = 0;
    proof {
        assert(obj.properties@.skip(0) =~= obj.properties@);
    }
    while i < obj.properties.len()
        invariant
            0 <= i <= obj.properties@.len(),
            semantics::any_property_may_override_to_primitive(
                obj.properties@,
            ) == semantics::any_property_may_override_to_primitive(
                obj.properties@.skip(i as int),
            ),
        decreases obj.properties@.len() - i,
    {
        proof {
            assert(decreases_to!(*obj => obj.properties@[i as int]));
            assert(obj.properties@.skip(i as int).drop_first() =~= obj.properties@.skip(i + 1));
            assert(obj.properties@.skip(i as int)[0] == obj.properties@[i as int]);
        }
        if property_may_override_to_primitive(&obj.properties[i]) {
            return true;
        }
        i += 1;
    }
    false
}

/// Whether one member of an object literal may define `toString`, `valueOf`
/// or `Symbol.toPrimitive`.
fn property_may_override_to_primitive(prop: &ObjectPropertyKind) -> (r: bool)
    ensures
        r == semantics::property_may_override_to_primitive(*prop),
    decreases prop,
{
    match prop {
        ObjectPropertyKind::ObjectProperty(prop) => match &prop.key {
            PropertyKey::StaticIdentifier(id) => is_to_primitive_related_name(id.name.as_str()),
            PropertyKey::PrivateIdentifier(_) => false,
            PropertyKey::Expression(Expression::StringLiteral(str)) => {
                is_to_primitive_related_name(str.value.as_str())
            },
            PropertyKey::Expression(Expression::TemplateLiteral(temp)) => {
                !temp.is_no_substitution_template() || match temp.quasi() {
                    Some(val) => is_to_primitive_related_name(val),
                    None => false,
                }
            },
            _ => true,
        },
        ObjectPropertyKind::SpreadProperty(e) => match &e.argument {
            Expression::ObjectExpression(obj) => {
                maybe_object_with_to_primitive_related_properties_overridden(obj)
            },
            Expression::ArrayExpression(_)
            | Expression::StringLiteral(_)
            | Expression::TemplateLiteral(_) => false,
            _ => true,
        },
    }
}

} // verus!
