//! The part of the ECMAScript syntax tree that the side-effect analysis reads.
//!
//! Every node keeps, as plain values, exactly what the analysis looks at: the
//! kind of each expression, the operators, identifier names, string values and
//! the children through which the analysis descends. Expression kinds whose
//! contents the analysis never inspects carry no payload.
use vstd::prelude::*;

use crate::strings::starts_with_hyphen;


verus! {

/// A reference to a binding, such as `foo` in `foo + 1`.
#[derive(Debug)]
pub struct IdentifierReference {
    /// The name as written in the source.
    pub name: String,
    /// The reference that semantic analysis assigned to this identifier, if any.
    pub reference_id: Option<u32>,
}

/// A property name written as a plain identifier, such as `foo` in `{ foo: 1 }`.
#[derive(Debug)]
pub struct IdentifierName {
    pub name: String,
}

/// A private name, such as `#foo`.
#[derive(Debug)]
pub struct PrivateIdentifier {
    pub name: String,
}

/// A string literal; `value` is its cooked value.
#[derive(Debug)]
pub struct StringLiteral {
    pub value: String,
}

/// A BigInt literal such as `10n`; `raw` is the literal as it appears in the source.
#[derive(Debug)]
pub struct BigIntLiteral {
    pub raw: String,
}

/// One string part of a template literal.
#[derive(Debug)]
pub struct TemplateElement {
    /// The cooked value, absent where the raw text holds an invalid escape.
    pub cooked: Option<String>,
}

/// A template literal: `quasis` are its string parts, `expressions` what stands in `${..}`.
#[derive(Debug)]
pub struct TemplateLiteral {
    pub quasis: Vec<TemplateElement>,
    pub expressions: Vec<Expression>,
}

/// Unary operators.
#[derive(Debug, Clone, Copy, PartialEq, Eq, Structural)]
pub enum UnaryOperator {
    /// `-`
    UnaryNegation,
    /// `+`
    UnaryPlus,
    /// `!`
    LogicalNot,
    /// `~`
    BitwiseNot,
    /// `typeof`
    Typeof,
    /// `void`
    Void,
    /// `delete`
    Delete,
}

/// Binary operators.
#[derive(Debug, Clone, Copy, PartialEq, Eq, Structural)]
pub enum BinaryOperator {
    /// `==`
    Equality,
    /// `!=`
    Inequality,
    /// `===`
    StrictEquality,
    /// `!==`
    StrictInequality,
    /// `<`
    LessThan,
    /// `<=`
    LessEqualThan,
    /// `>`
    GreaterThan,
    /// `>=`
    GreaterEqualThan,
    /// `+`
    Addition,
    /// `-`
    Subtraction,
    /// `*`
    Multiplication,
    /// `/`
    Division,
    /// `%`
    Remainder,
    /// `**`
    Exponential,
    /// `<<`
    ShiftLeft,
    /// `>>`
    ShiftRight,
    /// `>>>`
    ShiftRightZeroFill,
    /// `|`
    BitwiseOR,
    /// `^`
    BitwiseXOR,
    /// `&`
    BitwiseAnd,
    /// `in`
    In,
    /// `instanceof`
    Instanceof,
}

/// Logical operators.
#[derive(Debug, Clone, Copy, PartialEq, Eq, Structural)]
pub enum LogicalOperator {
    /// `||`
    Or,
    /// `&&`
    And,
    /// `??`
    Coalesce,
}

/// `operator argument`
#[derive(Debug)]
pub struct UnaryExpression {
    pub operator: UnaryOperator,
    pub argument: Expression,
}

/// `left operator right`
#[derive(Debug)]
pub struct BinaryExpression {
    pub left: Expression,
    pub operator: BinaryOperator,
    pub right: Expression,
}

/// `left operator right` with a logical operator.
#[derive(Debug)]
pub struct LogicalExpression {
    pub left: Expression,
    pub operator: LogicalOperator,
    pub right: Expression,
}

/// `test ? consequent : alternate`
#[derive(Debug)]
pub struct ConditionalExpression {
    pub test: Expression,
    pub consequent: Expression,
    pub alternate: Expression,
}

/// `(expression)`
#[derive(Debug)]
pub struct ParenthesizedExpression {
    pub expression: Expression,
}

/// `a, b, c`
#[derive(Debug)]
pub struct SequenceExpression {
    pub expressions: Vec<Expression>,
}

/// `...argument`
#[derive(Debug)]
pub struct SpreadElement {
    pub argument: Expression,
}

/// `callee(arguments)`
#[derive(Debug)]
pub struct CallExpression {
    pub callee: Expression,
    pub arguments: Vec<Argument>,
}

/// One argument of a call.
#[derive(Debug)]
pub enum Argument {
    /// `...argument`
    SpreadElement(SpreadElement),
    /// Any other argument.
    Expression(Expression),
}

/// `[a, , ...b]`
#[derive(Debug)]
pub struct ArrayExpression {
    pub elements: Vec<ArrayExpressionElement>,
}

/// One element of an array literal.
#[derive(Debug)]
pub enum ArrayExpressionElement {
    /// `...argument`
    SpreadElement(SpreadElement),
    /// A hole, as in `[a, , b]`.
    Elision,
    /// Any other element.
    Expression(Expression),
}

/// `{ a: 1, ...b }`
#[derive(Debug)]
pub struct ObjectExpression {
    pub properties: Vec<ObjectPropertyKind>,
}

/// One member of an object literal.
#[derive(Debug)]
pub enum ObjectPropertyKind {
    /// `key: value`, a method, a getter or a setter.
    ObjectProperty(Box<ObjectProperty>),
    /// `...argument`
    SpreadProperty(SpreadElement),
}

/// `key: value`
#[derive(Debug)]
pub struct ObjectProperty {
    pub key: PropertyKey,
    pub value: Expression,
}

/// The key of a property or class member.
#[derive(Debug)]
pub enum PropertyKey {
    /// `a` in `{ a: 1 }`
    StaticIdentifier(IdentifierName),
    /// `#a` in `class { #a = 1 }`
    PrivateIdentifier(PrivateIdentifier),
    /// Any other key: a literal, or the expression of a computed key `[expr]`.
    Expression(Expression),
}

/// A class, as a declaration or an expression.
#[derive(Debug)]
pub struct Class {
    /// How many decorators are applied to the class itself.
    pub decorator_count: usize,
    /// The expression after `extends`, if there is one.
    pub super_class: Option<Expression>,
    /// The members of the class body.
    pub body: Vec<ClassElement>,
}

/// `static { .. }`; `statement_count` is how many statements its body holds.
#[derive(Debug)]
pub struct StaticBlock {
    pub statement_count: usize,
}

/// A method, getter, setter or constructor of a class.
#[derive(Debug)]
pub struct MethodDefinition {
    /// How many decorators are applied to the method and to its parameters.
    pub decorator_count: usize,
    pub key: PropertyKey,
}

/// A field of a class, with its initializer if it has one.
#[derive(Debug)]
pub struct PropertyDefinition {
    /// How many decorators are applied to the field.
    pub decorator_count: usize,
    pub is_static: bool,
    pub key: PropertyKey,
    pub value: Option<Expression>,
}

/// `accessor key = value` in a class.
#[derive(Debug)]
pub struct AccessorProperty {
    /// How many decorators are applied to the accessor.
    pub decorator_count: usize,
    pub is_static: bool,
    pub key: PropertyKey,
    pub value: Option<Expression>,
}

/// A member of a class body.
#[derive(Debug)]
pub enum ClassElement {
    StaticBlock(StaticBlock),
    MethodDefinition(Box<MethodDefinition>),
    PropertyDefinition(Box<PropertyDefinition>),
    AccessorProperty(Box<AccessorProperty>),
    /// A TypeScript index signature, `[key: string]: T`.
    TSIndexSignature,
}

/// An ECMAScript (or TypeScript) expression.
#[derive(Debug)]
pub enum Expression {
    BooleanLiteral(bool),
    NullLiteral,
    NumericLiteral,
    BigIntLiteral(BigIntLiteral),
    RegExpLiteral,
    StringLiteral(StringLiteral),
    TemplateLiteral(TemplateLiteral),
    Identifier(IdentifierReference),
    /// `new.target` or `import.meta`
    MetaProperty,
    Super,
    ArrayExpression(ArrayExpression),
    ArrowFunctionExpression,
    AssignmentExpression,
    AwaitExpression,
    BinaryExpression(Box<BinaryExpression>),
    CallExpression(Box<CallExpression>),
    ChainExpression,
    ClassExpression(Box<Class>),
    ConditionalExpression(Box<ConditionalExpression>),
    FunctionExpression,
    ImportExpression,
    LogicalExpression(Box<LogicalExpression>),
    NewExpression,
    ObjectExpression(ObjectExpression),
    ParenthesizedExpression(Box<ParenthesizedExpression>),
    SequenceExpression(SequenceExpression),
    TaggedTemplateExpression,
    ThisExpression,
    UnaryExpression(Box<UnaryExpression>),
    UpdateExpression,
    YieldExpression,
    PrivateInExpression,
    JSXElement,
    JSXFragment,
    TSAsExpression,
    TSSatisfiesExpression,
    TSTypeAssertion,
    TSNonNullExpression,
    TSInstantiationExpression,
    V8IntrinsicExpression,
    ComputedMemberExpression,
    StaticMemberExpression,
    PrivateFieldExpression,
}

impl Expression {
    /// Whether this is a numeric literal.
    pub fn is_number(&self) -> (r: bool)
        ensures
            r == (*self is NumericLiteral),
    {
        match self {
            Expression::NumericLiteral => true,
            _ => false,
        }
    }

    /// Whether this is a BigInt literal.
    pub fn is_big_int_literal(&self) -> (r: bool)
        ensures
            r == (*self is BigIntLiteral),
    {
        match self {
            Expression::BigIntLiteral(_) => true,
            _ => false,
        }
    }
}

/// Whether `c` names a base after a leading `0`: `x`, `o` or `b`, in either case.
pub open spec fn is_base_letter(c: char) -> bool {
    c == 'x' || c == 'X' || c == 'o' || c == 'O' || c == 'b' || c == 'B'
}

/// The digits of a BigInt literal as written: without its `n` suffix and
/// without a base prefix such as `0x`.
pub open spec fn big_int_digits(raw: Seq<char>) -> Seq<char> {
    let body = if raw.len() > 0 && raw.last() == 'n' {
        raw.drop_last()
    } else {
        raw
    };
    if body.len() >= 2 && body[0] == '0' && is_base_letter(body[1]) {
        body.skip(2)
    } else {
        body
    }
}

/// Whether every digit of the literal is `0` (numeric separators `_` aside):
/// the literal's value is zero, in whatever base it is written.
pub open spec fn big_int_digits_are_zero(raw: Seq<char>) -> bool {
    forall|i: int|
        0 <= i < big_int_digits(raw).len() ==> #[trigger] big_int_digits(raw)[i] == '0'
            || big_int_digits(raw)[i] == '_'
}

impl BigIntLiteral {
    /// Whether the literal's value is zero, as in `0n`, `0x0n` or `0b00n`.
    pub fn is_zero(&self) -> (r: bool)
        ensures
            r == big_int_digits_are_zero(self.raw@),
    {
        let s = self.raw.as_str();
        let len = s.unicode_len();
        let mut end = len;
        if end > 0 && s.get_char(end - 1) == 'n' {
            end = end - 1;
        }
        let mut start: usize = 0;
        if end >= 2 && s.get_char(0) == '0' {
            let c = s.get_char(1);
            if c == 'x' || c == 'X' || c == 'o' || c == 'O' || c == 'b' || c == 'B' {
                start = 2;
            }
        }
        let ghost digits = big_int_digits(s@);
        assert(digits =~= s@.subrange(start as int, end as int));
        let mut i = start;
        while i < end
            invariant
                start <= i <= end <= s@.len(),
                s@ == self.raw@,
                digits == big_int_digits(self.raw@),
                digits =~= s@.subrange(start as int, end as int),
                forall|j: int| start <= j < i ==> s@[j] == '0' || s@[j] == '_',
            decreases end - i,
        {
            let c = s.get_char(i);
            if c != '0' && c != '_' {
                assert(digits[i - start] == c);
                return false;
            }
            i += 1;
        }
        assert forall|j: int| 0 <= j < digits.len() implies #[trigger] digits[j] == '0'
            || digits[j] == '_' by {
            assert(digits[j] == s@[start + j]);
        }
        true
    }

    /// Whether the literal as written starts with `-`.
    pub fn is_negative(&self) -> (r: bool)
        ensures
            r == (self.raw@.len() > 0 && self.raw@[0] == '-'),
    {
        starts_with_hyphen(self.raw.as_str())
    }
}

/// The cooked value of the first string part of a template, if it has one.
pub open spec fn first_quasi(t: TemplateLiteral) -> Option<Seq<char>> {
    if t.quasis@.len() > 0 {
        match t.quasis@[0].cooked {
            Some(c) => Some(c@),
            None => None,
        }
    } else {
        None
    }
}

impl TemplateLiteral {
    /// Whether the template has no `${..}` part and a single string part.
    pub fn is_no_substitution_template(&self) -> (r: bool)
        ensures
            r == (self.expressions@.len() == 0 && self.quasis@.len() == 1),
    {
        self.expressions.len() == 0 && self.quasis.len() == 1
    }

    /// The cooked value of the first string part, if there is one and it has one.
    pub fn quasi(&self) -> (r: Option<&str>)
        ensures
            match r {
                Some(q) => first_quasi(*self) == Some(q@),
                None => first_quasi(*self) is None,
            },
    {
        if self.quasis.len() > 0 {
            match &self.quasis[0].cooked {
                Some(c) => Some(c.as_str()),
                None => None,
            }
        } else {
            None
        }
    }
}

} // verus!
