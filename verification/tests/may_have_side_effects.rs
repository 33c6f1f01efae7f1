use oxc_ecmascript::ast::{
    AccessorProperty, Argument, ArrayExpression, ArrayExpressionElement, BigIntLiteral,
    BinaryExpression, BinaryOperator, CallExpression, Class, ClassElement, ConditionalExpression, Expression, IdentifierName,
    IdentifierReference, LogicalExpression, LogicalOperator, MethodDefinition, ObjectExpression,
    ObjectProperty, ObjectPropertyKind, ParenthesizedExpression, PrivateIdentifier, PropertyDefinition,
    PropertyKey, SequenceExpression, SpreadElement, StaticBlock, StringLiteral, TemplateElement,
    TemplateLiteral, UnaryExpression, UnaryOperator,
};
use oxc_ecmascript::{IsGlobalReference, MayHaveSideEffects, WithoutGlobalReferenceInformation};

/// Names listed in `globals` are global; every other reference is local.
struct GlobalNames {
    globals: Vec<&'static str>,
}

impl IsGlobalReference for GlobalNames {
    fn global_reference_status(&self, reference: IdentifierReference) -> Option<bool> {
        self.is_global_reference(&reference)
    }

    fn is_global_reference(&self, reference: &IdentifierReference) -> Option<bool> {
        Some(self.globals.contains(&reference.name.as_str()))
    }
}

/// The usual setting: `NaN`, `Infinity`, `undefined`, `Symbol` and `foo` are
/// global, everything else is local.
fn usual_references() -> GlobalNames {
    GlobalNames { globals: vec!["NaN", "Infinity", "undefined", "Symbol", "foo"] }
}

fn test(expr: &Expression, expected: bool) {
    assert_eq!(expr.may_have_side_effects(&usual_references()), expected, "{expr:?}");
}

fn ident(name: &str) -> Expression {
    Expression::Identifier(IdentifierReference { name: name.to_string(), reference_id: None })
}

fn string(value: &str) -> Expression {
    Expression::StringLiteral(StringLiteral { value: value.to_string() })
}

fn bigint(raw: &str) -> Expression {
    Expression::BigIntLiteral(BigIntLiteral { raw: raw.to_string() })
}

fn template(quasis: Vec<Option<&str>>, expressions: Vec<Expression>) -> TemplateLiteral {
    TemplateLiteral {
        quasis: quasis
            .into_iter()
            .map(|q| TemplateElement { cooked: q.map(|s| s.to_string()) })
            .collect(),
        expressions,
    }
}

/// A call of the local `f` without arguments.
fn call() -> Expression {
    call_of(ident("f"), vec![])
}

fn call_of(callee: Expression, arguments: Vec<Argument>) -> Expression {
    Expression::CallExpression(Box::new(CallExpression { callee, arguments }))
}

fn unary(operator: UnaryOperator, argument: Expression) -> Expression {
    Expression::UnaryExpression(Box::new(UnaryExpression { operator, argument }))
}

fn binary(left: Expression, operator: BinaryOperator, right: Expression) -> Expression {
    Expression::BinaryExpression(Box::new(BinaryExpression { left, operator, right }))
}

fn array(elements: Vec<ArrayExpressionElement>) -> Expression {
    Expression::ArrayExpression(ArrayExpression { elements })
}

fn element(expr: Expression) -> ArrayExpressionElement {
    ArrayExpressionElement::Expression(expr)
}

fn spread(argument: Expression) -> ArrayExpressionElement {
    ArrayExpressionElement::SpreadElement(SpreadElement { argument })
}

fn object(properties: Vec<ObjectPropertyKind>) -> Expression {
    Expression::ObjectExpression(ObjectExpression { properties })
}

fn property(key: PropertyKey, value: Expression) -> ObjectPropertyKind {
    ObjectPropertyKind::ObjectProperty(Box::new(ObjectProperty { key, value }))
}

fn static_key(name: &str) -> PropertyKey {
    PropertyKey::StaticIdentifier(IdentifierName { name: name.to_string() })
}

fn spread_property(argument: Expression) -> ObjectPropertyKind {
    ObjectPropertyKind::SpreadProperty(SpreadElement { argument })
}

fn class(body: Vec<ClassElement>) -> Expression {
    Expression::ClassExpression(Box::new(Class { decorator_count: 0, super_class: None, body }))
}

#[test]
fn literals_and_functions_are_free() {
    test(&Expression::NumericLiteral, false);
    test(&Expression::BooleanLiteral(true), false);
    test(&string("a"), false);
    test(&bigint("1n"), false);
    test(&Expression::NullLiteral, false);
    test(&Expression::RegExpLiteral, false);
    test(&Expression::MetaProperty, false);
    test(&Expression::ThisExpression, false);
    test(&Expression::ArrowFunctionExpression, false);
    test(&Expression::FunctionExpression, false);
    test(&Expression::Super, false);
}

#[test]
fn other_expressions_may_have_side_effects() {
    for expr in [
        call(),
        call_of(ident("foo"), vec![]),
        Expression::NewExpression,
        Expression::AssignmentExpression,
        Expression::AwaitExpression,
        Expression::YieldExpression,
        Expression::UpdateExpression,
        Expression::StaticMemberExpression,
        Expression::ComputedMemberExpression,
        Expression::PrivateFieldExpression,
        Expression::PrivateInExpression,
        Expression::TaggedTemplateExpression,
        Expression::ImportExpression,
        Expression::ChainExpression,
        Expression::JSXElement,
        Expression::TSAsExpression,
    ] {
        test(&expr, true);
    }
}

#[test]
fn reading_references() {
    test(&ident("NaN"), false);
    test(&ident("Infinity"), false);
    test(&ident("undefined"), false);
    // a global variable
    test(&ident("foo"), true);
    // a local variable
    test(&ident("bar"), false);
    // nothing known: reading it may have a side effect
    assert!(ident("bar").may_have_side_effects(&WithoutGlobalReferenceInformation));
    assert!(!ident("NaN").may_have_side_effects(&WithoutGlobalReferenceInformation));
}

#[test]
fn templates() {
    test(&Expression::TemplateLiteral(template(vec![Some("a")], vec![])), false);
    test(
        &Expression::TemplateLiteral(template(vec![Some("a"), Some("")], vec![string("b")])),
        false,
    );
    test(
        &Expression::TemplateLiteral(template(vec![Some("a"), Some("")], vec![Expression::NumericLiteral])),
        false,
    );
    // `ToString` throws if the local `bar` holds a symbol
    test(
        &Expression::TemplateLiteral(template(vec![Some("a"), Some("")], vec![ident("bar")])),
        true,
    );
    test(
        &Expression::TemplateLiteral(template(vec![Some("a"), Some("")], vec![ident("undefined")])),
        false,
    );
    test(
        &Expression::TemplateLiteral(template(
            vec![Some("a"), Some("")],
            vec![object(vec![property(static_key("toString"), Expression::FunctionExpression)])],
        )),
        true,
    );
    test(
        &Expression::TemplateLiteral(template(
            vec![Some("a"), Some(""), Some("")],
            vec![string("b"), call()],
        )),
        true,
    );
}

#[test]
fn unary_operators() {
    test(&unary(UnaryOperator::Delete, ident("bar")), true);
    test(&unary(UnaryOperator::Void, Expression::NumericLiteral), false);
    test(&unary(UnaryOperator::Void, call()), true);
    test(&unary(UnaryOperator::LogicalNot, ident("bar")), false);
    // `typeof` of a reference never throws, even for a global
    test(&unary(UnaryOperator::Typeof, ident("foo")), false);
    test(&unary(UnaryOperator::Typeof, call()), true);
    test(&unary(UnaryOperator::Typeof, Expression::NumericLiteral), false);
    // `+x` throws for a Symbol or a BigInt
    test(&unary(UnaryOperator::UnaryPlus, Expression::NumericLiteral), false);
    test(&unary(UnaryOperator::UnaryPlus, string("1")), false);
    test(&unary(UnaryOperator::UnaryPlus, bigint("1n")), true);
    test(&unary(UnaryOperator::UnaryPlus, ident("bar")), true);
    test(&unary(UnaryOperator::UnaryPlus, ident("NaN")), false);
    test(&unary(UnaryOperator::UnaryPlus, object(vec![])), false);
    test(
        &unary(
            UnaryOperator::UnaryPlus,
            object(vec![property(static_key("valueOf"), Expression::FunctionExpression)]),
        ),
        true,
    );
    // `-x` and `~x` throw for a Symbol, not for a BigInt
    test(&unary(UnaryOperator::UnaryNegation, bigint("1n")), false);
    test(&unary(UnaryOperator::BitwiseNot, bigint("1n")), false);
    test(&unary(UnaryOperator::UnaryNegation, ident("bar")), true);
    test(&unary(UnaryOperator::UnaryNegation, ident("Infinity")), false);
    test(&unary(UnaryOperator::UnaryNegation, Expression::ThisExpression), true);
}

#[test]
fn comparisons() {
    test(&binary(ident("bar"), BinaryOperator::StrictEquality, string("a")), false);
    test(&binary(ident("foo"), BinaryOperator::Equality, string("a")), true);
    test(&binary(Expression::NumericLiteral, BinaryOperator::LessThan, call()), true);
    test(&binary(string(""), BinaryOperator::Equality, array(vec![element(ident("bar"))])), false);
    // relational comparisons convert with `ToNumeric`, which throws for a symbol
    test(&binary(ident("bar"), BinaryOperator::LessThan, Expression::NumericLiteral), true);
    test(&binary(Expression::NumericLiteral, BinaryOperator::GreaterEqualThan, ident("bar")), true);
    test(&binary(Expression::NumericLiteral, BinaryOperator::LessEqualThan, string("2")), false);
    test(&binary(ident("NaN"), BinaryOperator::GreaterThan, bigint("1n")), false);
    test(&binary(object(vec![]), BinaryOperator::LessThan, array(vec![])), false);
    test(
        &binary(
            Expression::NumericLiteral,
            BinaryOperator::LessThan,
            object(vec![property(static_key("valueOf"), Expression::FunctionExpression)]),
        ),
        true,
    );
}

#[test]
fn documented_example() {
    // `"" == [Symbol()]` throws (`ToString` of the symbol in the array), but the
    // trait is documented to answer `false` for it
    let expr = binary(
        string(""),
        BinaryOperator::Equality,
        array(vec![element(call_of(ident("Symbol"), vec![]))]),
    );
    test(&expr, false);
    // unless `Symbol` is known to be the global one, the call may run anything
    assert!(expr.may_have_side_effects(&WithoutGlobalReferenceInformation));
}

#[test]
fn calls() {
    test(&call_of(ident("Symbol"), vec![Argument::Expression(string("a"))]), false);
    test(&call_of(ident("Symbol"), vec![Argument::Expression(ident("undefined"))]), false);
    // the description is converted with `ToString`
    test(&call_of(ident("Symbol"), vec![Argument::Expression(ident("bar"))]), true);
    test(&call_of(ident("Symbol"), vec![Argument::Expression(call())]), true);
    test(
        &call_of(ident("Symbol"), vec![Argument::SpreadElement(SpreadElement { argument: array(vec![]) })]),
        true,
    );
    // a local `Symbol` may be any function
    let local_symbol = GlobalNames { globals: vec![] };
    assert!(call_of(ident("Symbol"), vec![]).may_have_side_effects(&local_symbol));
    test(&call_of(ident("foo"), vec![]), true);
    test(&call_of(Expression::StaticMemberExpression, vec![]), true);
}

#[test]
fn in_and_instanceof_may_throw() {
    test(&binary(string("a"), BinaryOperator::In, object(vec![])), true);
    test(&binary(object(vec![]), BinaryOperator::Instanceof, ident("bar")), true);
}

#[test]
fn addition() {
    // string concatenation
    test(&binary(string("a"), BinaryOperator::Addition, Expression::NumericLiteral), false);
    test(&binary(string("a"), BinaryOperator::Addition, ident("bar")), true);
    test(&binary(ident("NaN"), BinaryOperator::Addition, string("a")), false);
    test(&binary(string("a"), BinaryOperator::Addition, bigint("1n")), false);
    test(&binary(array(vec![]), BinaryOperator::Addition, Expression::NullLiteral), false);
    test(&binary(object(vec![]), BinaryOperator::Addition, string("a")), false);
    test(
        &binary(
            string("a"),
            BinaryOperator::Addition,
            object(vec![property(static_key("toString"), Expression::FunctionExpression)]),
        ),
        true,
    );
    test(&binary(string("a"), BinaryOperator::Addition, call()), true);
    // numeric addition
    test(&binary(Expression::NumericLiteral, BinaryOperator::Addition, Expression::NumericLiteral), false);
    test(&binary(Expression::NumericLiteral, BinaryOperator::Addition, Expression::NullLiteral), false);
    test(
        &binary(Expression::BooleanLiteral(false), BinaryOperator::Addition, Expression::NumericLiteral),
        false,
    );
    test(&binary(Expression::NumericLiteral, BinaryOperator::Addition, bigint("1n")), true);
    test(&binary(Expression::NumericLiteral, BinaryOperator::Addition, ident("bar")), true);
    // BigInt addition
    test(&binary(bigint("1n"), BinaryOperator::Addition, bigint("2n")), false);
    test(&binary(bigint("1n"), BinaryOperator::Addition, Expression::NullLiteral), true);
    test(&binary(Expression::NullLiteral, BinaryOperator::Addition, Expression::NullLiteral), true);
}

#[test]
fn arithmetic() {
    test(&binary(Expression::NumericLiteral, BinaryOperator::Subtraction, Expression::NumericLiteral), false);
    test(&binary(ident("bar"), BinaryOperator::Multiplication, Expression::NumericLiteral), true);
    test(&binary(ident("NaN"), BinaryOperator::Multiplication, Expression::NumericLiteral), false);
    test(&binary(string("a"), BinaryOperator::Division, Expression::NullLiteral), false);
    test(&binary(Expression::NumericLiteral, BinaryOperator::ShiftLeft, Expression::ThisExpression), true);
    // BigInt arithmetic
    test(&binary(bigint("1n"), BinaryOperator::Subtraction, bigint("2n")), false);
    test(&binary(bigint("1n"), BinaryOperator::Division, bigint("0n")), true);
    test(&binary(bigint("1n"), BinaryOperator::Division, bigint("2n")), false);
    test(&binary(bigint("1n"), BinaryOperator::Division, bigint("0x0n")), true);
    test(&binary(bigint("1n"), BinaryOperator::Remainder, bigint("0b0_0n")), true);
    test(&binary(bigint("1n"), BinaryOperator::Division, bigint("0x10n")), false);
    test(&binary(bigint("1n"), BinaryOperator::Remainder, bigint("0n")), true);
    test(&binary(bigint("1n"), BinaryOperator::Exponential, bigint("-1n")), true);
    test(&binary(bigint("2n"), BinaryOperator::Exponential, bigint("3n")), false);
    test(&binary(bigint("1n"), BinaryOperator::ShiftLeft, bigint("2n")), false);
    test(&binary(bigint("8n"), BinaryOperator::ShiftRight, bigint("3n")), false);
    test(&binary(bigint("2n"), BinaryOperator::Multiplication, bigint("3n")), false);
    test(&binary(bigint("1n"), BinaryOperator::ShiftRightZeroFill, bigint("1n")), true);
    test(&binary(bigint("1n"), BinaryOperator::BitwiseAnd, bigint("3n")), false);
    test(&binary(bigint("1n"), BinaryOperator::Subtraction, Expression::NumericLiteral), true);
    test(&binary(Expression::NumericLiteral, BinaryOperator::BitwiseOR, bigint("1n")), true);
}

#[test]
fn logical_conditional_parenthesized_sequence() {
    let logical = |left, right| {
        Expression::LogicalExpression(Box::new(LogicalExpression {
            left,
            operator: LogicalOperator::Or,
            right,
        }))
    };
    test(&logical(ident("bar"), Expression::NumericLiteral), false);
    test(&logical(ident("bar"), call()), true);
    let conditional = |test, consequent, alternate| {
        Expression::ConditionalExpression(Box::new(ConditionalExpression {
            test,
            consequent,
            alternate,
        }))
    };
    test(&conditional(ident("bar"), string("a"), Expression::NullLiteral), false);
    test(&conditional(ident("bar"), string("a"), ident("foo")), true);
    test(
        &Expression::ParenthesizedExpression(Box::new(ParenthesizedExpression {
            expression: call(),
        })),
        true,
    );
    test(
        &Expression::ParenthesizedExpression(Box::new(ParenthesizedExpression {
            expression: Expression::NumericLiteral,
        })),
        false,
    );
    test(
        &Expression::SequenceExpression(SequenceExpression {
            expressions: vec![Expression::NumericLiteral, ident("bar")],
        }),
        false,
    );
    test(
        &Expression::SequenceExpression(SequenceExpression {
            expressions: vec![Expression::NumericLiteral, Expression::NewExpression],
        }),
        true,
    );
}

#[test]
fn arrays() {
    test(&array(vec![]), false);
    test(&array(vec![ArrayExpressionElement::Elision, element(Expression::NumericLiteral)]), false);
    test(&array(vec![element(Expression::NumericLiteral), element(call())]), true);
    // spreading an array literal, a string or a template iterates without side effects
    test(&array(vec![spread(array(vec![element(ident("bar"))]))]), false);
    test(&array(vec![spread(array(vec![element(ident("foo"))]))]), true);
    test(&array(vec![spread(string("ab"))]), false);
    test(&array(vec![spread(Expression::TemplateLiteral(template(vec![Some("ab")], vec![])))]), false);
    // spreading anything else runs an iterator
    test(&array(vec![spread(ident("bar"))]), true);
    test(&array(vec![spread(object(vec![]))]), true);
}

#[test]
fn objects() {
    test(&object(vec![]), false);
    test(&object(vec![property(static_key("a"), Expression::NumericLiteral)]), false);
    test(&object(vec![property(static_key("a"), ident("foo"))]), true);
    test(
        &object(vec![property(
            PropertyKey::PrivateIdentifier(PrivateIdentifier { name: "a".to_string() }),
            Expression::NumericLiteral,
        )]),
        false,
    );
    test(
        &object(vec![property(PropertyKey::Expression(call()), Expression::NumericLiteral)]),
        true,
    );
    test(&object(vec![property(PropertyKey::Expression(string("a")), Expression::NumericLiteral)]), false);
    test(&object(vec![spread_property(array(vec![]))]), false);
    test(&object(vec![spread_property(string("a"))]), false);
    test(&object(vec![spread_property(ident("bar"))]), true);
    test(&object(vec![spread_property(object(vec![]))]), true);
}

#[test]
fn to_primitive_overrides() {
    // an object literal converts to a string unless it may override `toString`,
    // `valueOf` or `Symbol.toPrimitive`
    let with_key = |key: PropertyKey| {
        binary(string("a"), BinaryOperator::Addition, object(vec![property(key, Expression::FunctionExpression)]))
    };
    test(&with_key(static_key("foo")), false);
    test(&with_key(static_key("toString")), true);
    test(&with_key(static_key("valueOf")), true);
    test(&with_key(PropertyKey::Expression(string("valueOf"))), true);
    test(&with_key(PropertyKey::Expression(string("other"))), false);
    // `__proto__` sets the prototype: `{ __proto__: null }` has no `toString` at all
    test(
        &binary(string("a"), BinaryOperator::Addition, object(vec![property(static_key("__proto__"), Expression::NullLiteral)])),
        true,
    );
    test(&with_key(PropertyKey::Expression(string("__proto__"))), true);
    test(
        &unary(
            UnaryOperator::UnaryPlus,
            object(vec![property(static_key("__proto__"), ident("bar"))]),
        ),
        true,
    );
    test(&with_key(PropertyKey::PrivateIdentifier(PrivateIdentifier { name: "toString".to_string() })), false);
    test(
        &with_key(PropertyKey::Expression(Expression::TemplateLiteral(template(vec![Some("toString")], vec![])))),
        true,
    );
    test(
        &with_key(PropertyKey::Expression(Expression::TemplateLiteral(template(vec![Some("other")], vec![])))),
        false,
    );
    test(
        &with_key(PropertyKey::Expression(Expression::TemplateLiteral(template(vec![None], vec![])))),
        false,
    );
    test(
        &with_key(PropertyKey::Expression(Expression::TemplateLiteral(template(
            vec![Some("a"), Some("")],
            vec![string("b")],
        )))),
        true,
    );
    // a computed key may be `Symbol.toPrimitive`
    test(&with_key(PropertyKey::Expression(Expression::StaticMemberExpression)), true);
    // spreads
    let with_spread = |argument: Expression| {
        binary(string("a"), BinaryOperator::Addition, object(vec![spread_property(argument)]))
    };
    test(&with_spread(string("a")), false);
    test(&with_spread(ident("bar")), true);
    let nested = object(vec![property(static_key("toString"), Expression::FunctionExpression)]);
    test(
        &binary(
            Expression::NumericLiteral,
            BinaryOperator::Subtraction,
            object(vec![spread_property(nested)]),
        ),
        true,
    );
    test(
        &binary(
            Expression::NumericLiteral,
            BinaryOperator::Subtraction,
            object(vec![spread_property(object(vec![property(static_key("a"), Expression::NumericLiteral)]))]),
        ),
        // spreading an object runs its getters
        true,
    );
    test(
        &binary(
            Expression::NumericLiteral,
            BinaryOperator::Subtraction,
            object(vec![spread_property(array(vec![]))]),
        ),
        false,
    );
}

fn method(decorator_count: usize, key: PropertyKey) -> ClassElement {
    ClassElement::MethodDefinition(Box::new(MethodDefinition { decorator_count, key }))
}

fn field(is_static: bool, key: PropertyKey, value: Option<Expression>) -> ClassElement {
    ClassElement::PropertyDefinition(Box::new(PropertyDefinition {
        decorator_count: 0,
        is_static,
        key,
        value,
    }))
}

fn accessor(is_static: bool, key: PropertyKey, value: Option<Expression>) -> ClassElement {
    ClassElement::AccessorProperty(Box::new(AccessorProperty {
        decorator_count: 0,
        is_static,
        key,
        value,
    }))
}

#[test]
fn classes() {
    test(&class(vec![]), false);
    test(&class(vec![ClassElement::StaticBlock(StaticBlock { statement_count: 0 })]), false);
    test(&class(vec![ClassElement::StaticBlock(StaticBlock { statement_count: 2 })]), true);
    test(&class(vec![ClassElement::TSIndexSignature]), false);
    // computed keys are evaluated for every member, static or not
    test(&class(vec![method(0, static_key("m"))]), false);
    test(&class(vec![method(0, PropertyKey::Expression(call()))]), true);
    test(&class(vec![field(false, PropertyKey::Expression(call()), None)]), true);
    test(&class(vec![accessor(false, PropertyKey::Expression(ident("foo")), None)]), true);
    test(&class(vec![accessor(true, PropertyKey::Expression(ident("bar")), None)]), false);
    test(&class(vec![method(0, PropertyKey::Expression(string("m")))]), false);
    // initializers run at definition only for static members
    test(&class(vec![field(true, static_key("a"), Some(call()))]), true);
    test(&class(vec![field(true, static_key("a"), None)]), false);
    test(&class(vec![field(true, static_key("a"), Some(Expression::NumericLiteral))]), false);
    test(&class(vec![field(false, static_key("a"), Some(call()))]), false);
    test(&class(vec![accessor(true, static_key("x"), Some(call()))]), true);
    test(&class(vec![accessor(false, static_key("x"), Some(call()))]), false);
    // decorators are called
    test(&class(vec![method(1, static_key("m"))]), true);
    test(
        &Expression::ClassExpression(Box::new(Class {
            decorator_count: 1,
            super_class: None,
            body: vec![],
        })),
        true,
    );
    // the superclass is evaluated and must be a constructor
    test(
        &Expression::ClassExpression(Box::new(Class {
            decorator_count: 0,
            super_class: Some(call()),
            body: vec![],
        })),
        true,
    );
    test(
        &Expression::ClassExpression(Box::new(Class {
            decorator_count: 0,
            super_class: Some(ident("bar")),
            body: vec![],
        })),
        true,
    );
}

#[test]
fn node_kinds_answer_on_their_own() {
    let references = usual_references();
    let key = PropertyKey::Expression(ident("foo"));
    assert!(key.may_have_side_effects(&references));
    assert!(!static_key("a").may_have_side_effects(&references));
    let arr = ArrayExpression { elements: vec![element(ident("bar"))] };
    assert!(!arr.may_have_side_effects(&references));
    assert!(spread(ident("bar")).may_have_side_effects(&references));
    let prop = ObjectProperty { key: static_key("a"), value: call() };
    assert!(prop.may_have_side_effects(&references));
    let kind = spread_property(string("x"));
    assert!(!kind.may_have_side_effects(&references));
    let u = UnaryExpression { operator: UnaryOperator::Delete, argument: Expression::NumericLiteral };
    assert!(u.may_have_side_effects(&references));
    let b = BinaryExpression {
        left: Expression::NumericLiteral,
        operator: BinaryOperator::Addition,
        right: Expression::NumericLiteral,
    };
    assert!(!b.may_have_side_effects(&references));
    let l = LogicalExpression {
        left: Expression::NumericLiteral,
        operator: LogicalOperator::And,
        right: ident("foo"),
    };
    assert!(l.may_have_side_effects(&references));
    let c = Class {
        decorator_count: 0,
        super_class: None,
        body: vec![ClassElement::StaticBlock(StaticBlock { statement_count: 1 })],
    };
    assert!(c.may_have_side_effects(&references));
    assert!(!ClassElement::TSIndexSignature.may_have_side_effects(&references));
}

#[test]
fn less_reference_information_is_more_cautious() {
    // Whatever has a side effect with reference information has one without it.
    let exprs = vec![
        ident("bar"),
        ident("foo"),
        unary(UnaryOperator::UnaryNegation, ident("Infinity")),
        binary(ident("bar"), BinaryOperator::Subtraction, Expression::NumericLiteral),
        array(vec![element(ident("bar")), element(Expression::NumericLiteral)]),
    ];
    let expected_informed = [false, true, false, true, false];
    let expected_uninformed = [true, true, true, true, true];
    for (i, expr) in exprs.iter().enumerate() {
        let informed = expr.may_have_side_effects(&usual_references());
        let uninformed = expr.may_have_side_effects(&WithoutGlobalReferenceInformation);
        assert_eq!(informed, expected_informed[i], "{expr:?}");
        assert_eq!(uninformed, expected_uninformed[i], "{expr:?}");
        assert!(!informed || uninformed);
    }
}
