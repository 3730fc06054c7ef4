//! The part of the C abstract syntax tree that the translation to Rust reads.
//!
//! Each syntax element is wrapped in a [`Node`], as the C parser produces it.
//! Payloads that the translation never looks at are left out of the model.
use vstd::prelude::*;

verus! {

/// A syntax element as produced by the C parser.
#[derive(Debug)]
pub struct Node<T> {
    pub node: T,
}

impl<T> Node<T> {
    pub fn new(node: T) -> (r: Node<T>)
        ensures
            r.node == node,
    {
        Node { node }
    }
}

/// An identifier.
#[derive(Debug)]
pub struct Identifier {
    pub name: String,
}

/// C expressions.
#[derive(Debug)]
pub enum Expression {
    Identifier(Box<Node<Identifier>>),
    Constant(Box<Node<Constant>>),
    StringLiteral(Box<Node<StringLiteral>>),
    GenericSelection(Box<Node<GenericSelection>>),
    Member(Box<Node<MemberExpression>>),
    Call(Box<Node<CallExpression>>),
    CompoundLiteral(Box<Node<CompoundLiteral>>),
    SizeOfTy(Box<Node<SizeOfTy>>),
    SizeOfVal(Box<Node<SizeOfVal>>),
    AlignOf(Box<Node<AlignOf>>),
    UnaryOperator(Box<Node<UnaryOperatorExpression>>),
    Cast(Box<Node<CastExpression>>),
    BinaryOperator(Box<Node<BinaryOperatorExpression>>),
    Conditional(Box<Node<ConditionalExpression>>),
    Comma(Box<Vec<Node<Expression>>>),
    OffsetOf,
    VaArg,
    Statement,
}

/// Literal constants.
#[derive(Debug)]
pub enum Constant {
    Integer(Integer),
    Float(Float),
    /// The character constant as written, quotes included.
    Character(String),
}

#[derive(Debug)]
pub struct Integer {
    pub base: IntegerBase,
    /// The digits, without base prefix and suffix.
    pub number: String,
    pub suffix: IntegerSuffix,
}

#[derive(Debug, PartialEq, Eq, Structural, Clone, Copy)]
pub enum IntegerBase {
    Decimal,
    Octal,
    Hexadecimal,
    Binary,
}

#[derive(Debug, PartialEq, Eq, Structural, Clone, Copy)]
pub struct IntegerSuffix {
    pub size: IntegerSize,
    pub unsigned: bool,
    pub imaginary: bool,
}

#[derive(Debug, PartialEq, Eq, Structural, Clone, Copy)]
pub enum IntegerSize {
    Int,
    Long,
    LongLong,
}

#[derive(Debug)]
pub struct Float {
    pub base: FloatBase,
    /// The digits, without base prefix and suffix.
    pub number: String,
    pub suffix: FloatSuffix,
}

#[derive(Debug, PartialEq, Eq, Structural, Clone, Copy)]
pub enum FloatBase {
    Decimal,
    Hexadecimal,
}

#[derive(Debug, PartialEq, Eq, Structural, Clone, Copy)]
pub struct FloatSuffix {
    pub format: FloatFormat,
    pub imaginary: bool,
}

#[derive(Debug, PartialEq, Eq, Structural, Clone, Copy)]
pub enum FloatFormat {
    Float,
    Double,
    LongDouble,
    TS18661Format,
}

/// Adjacent string literal tokens, each as written (quotes and prefix included).
#[derive(Debug)]
pub struct StringLiteral {
    pub pieces: Vec<String>,
}

/// A `_Generic` selection, kept as the text the parser's debug rendering gives for it.
#[derive(Debug)]
pub struct GenericSelection {
    pub rendered: String,
}

#[derive(Debug)]
pub struct MemberExpression {
    pub operator: Node<MemberOperator>,
    pub expression: Box<Node<Expression>>,
    pub identifier: Node<Identifier>,
}

#[derive(Debug, PartialEq, Eq, Structural, Clone, Copy)]
pub enum MemberOperator {
    Direct,
    Indirect,
}

#[derive(Debug)]
pub struct CallExpression {
    pub callee: Box<Node<Expression>>,
    pub arguments: Vec<Node<Expression>>,
}

#[derive(Debug)]
pub struct CompoundLiteral {
    pub ty: Node<TypeName>,
    pub initializer_list: Vec<Node<InitializerListItem>>,
}

#[derive(Debug)]
pub struct SizeOfTy {
    pub ty: Node<TypeName>,
}

#[derive(Debug)]
pub struct SizeOfVal {
    pub expression: Box<Node<Expression>>,
}

#[derive(Debug)]
pub struct AlignOf {
    pub ty: Box<Node<TypeName>>,
}

#[derive(Debug, PartialEq, Eq, Structural, Clone, Copy)]
pub enum UnaryOperator {
    PostIncrement,
    PostDecrement,
    PreIncrement,
    PreDecrement,
    Address,
    Indirection,
    Plus,
    Minus,
    Complement,
    Negate,
}

#[derive(Debug)]
pub struct UnaryOperatorExpression {
    pub operator: Node<UnaryOperator>,
    pub operand: Box<Node<Expression>>,
}

#[derive(Debug)]
pub struct CastExpression {
    pub ty: Node<TypeName>,
    pub expression: Box<Node<Expression>>,
}

#[derive(Debug, PartialEq, Eq, Structural, Clone, Copy)]
pub enum BinaryOperator {
    Index,
    Multiply,
    Divide,
    Modulo,
    Plus,
    Minus,
    ShiftLeft,
    ShiftRight,
    Less,
    Greater,
    LessOrEqual,
    GreaterOrEqual,
    Equals,
    NotEquals,
    BitwiseAnd,
    BitwiseXor,
    BitwiseOr,
    LogicalAnd,
    LogicalOr,
    Assign,
    AssignMultiply,
    AssignDivide,
    AssignModulo,
    AssignPlus,
    AssignMinus,
    AssignShiftLeft,
    AssignShiftRight,
    AssignBitwiseAnd,
    AssignBitwiseXor,
    AssignBitwiseOr,
}

#[derive(Debug)]
pub struct BinaryOperatorExpression {
    pub operator: Node<BinaryOperator>,
    pub lhs: Box<Node<Expression>>,
    pub rhs: Box<Node<Expression>>,
}

#[derive(Debug)]
pub struct ConditionalExpression {
    pub condition: Box<Node<Expression>>,
    pub then_expression: Box<Node<Expression>>,
    pub else_expression: Box<Node<Expression>>,
}

/// An item of an initializer list, with its optional designation.
#[derive(Debug)]
pub struct InitializerListItem {
    pub designation: Vec<Node<Designator>>,
    pub initializer: Box<Node<Initializer>>,
}

#[derive(Debug)]
pub enum Initializer {
    Expression(Box<Node<Expression>>),
    List(Vec<Node<InitializerListItem>>),
}

#[derive(Debug)]
pub enum Designator {
    Index(Node<Expression>),
    Member(Node<Identifier>),
    Range(Node<RangeDesignator>),
}

#[derive(Debug)]
pub struct RangeDesignator {
    pub from: Node<Expression>,
    pub to: Node<Expression>,
}

/// A type name, as in casts and `sizeof`.
#[derive(Debug)]
pub struct TypeName {
    pub specifiers: Vec<Node<SpecifierQualifier>>,
    pub declarator: Option<Node<Declarator>>,
}

#[derive(Debug)]
pub enum SpecifierQualifier {
    TypeSpecifier(Node<TypeSpecifier>),
    TypeQualifier(Node<TypeQualifier>),
    Extension,
}

#[derive(Debug)]
pub enum DeclarationSpecifier {
    StorageClass,
    TypeSpecifier(Node<TypeSpecifier>),
    TypeQualifier(Node<TypeQualifier>),
    Function,
    Alignment,
    Extension,
}

#[derive(Debug)]
pub enum TypeSpecifier {
    Void,
    Char,
    Short,
    Int,
    Long,
    Float,
    Double,
    Signed,
    Unsigned,
    Bool,
    Complex,
    Atomic,
    Struct(Node<StructType>),
    Enum(Node<EnumType>),
    TypedefName(Node<Identifier>),
    TypeOf,
    TS18661Float,
}

#[derive(Debug)]
pub struct StructType {
    pub identifier: Option<Node<Identifier>>,
}

#[derive(Debug)]
pub struct EnumType {
    pub identifier: Option<Node<Identifier>>,
}

#[derive(Debug, PartialEq, Eq, Structural, Clone, Copy)]
pub enum TypeQualifier {
    Const,
    Restrict,
    Volatile,
    Nonnull,
    NullUnspecified,
    Nullable,
    Atomic,
}

/// The derived part of a declarator (pointers, arrays, functions), outermost first.
#[derive(Debug)]
pub struct Declarator {
    pub derived: Vec<Node<DerivedDeclarator>>,
}

#[derive(Debug)]
pub enum DerivedDeclarator {
    Pointer(Vec<Node<PointerQualifier>>),
    Array(Node<ArrayDeclarator>),
    Function(Node<FunctionDeclarator>),
    KRFunction,
    Block,
}

#[derive(Debug)]
pub enum PointerQualifier {
    TypeQualifier(Node<TypeQualifier>),
    Extension,
}

#[derive(Debug)]
pub struct ArrayDeclarator {
    pub size: ArraySize,
}

#[derive(Debug)]
pub enum ArraySize {
    Unknown,
    VariableUnknown,
    VariableExpression(Box<Node<Expression>>),
    StaticExpression(Box<Node<Expression>>),
}

#[derive(Debug)]
pub struct FunctionDeclarator {
    pub parameters: Vec<Node<ParameterDeclaration>>,
    pub ellipsis: Ellipsis,
}

#[derive(Debug, PartialEq, Eq, Structural, Clone, Copy)]
pub enum Ellipsis {
    Present,
    Absent,
}

#[derive(Debug)]
pub struct ParameterDeclaration {
    pub specifiers: Vec<Node<DeclarationSpecifier>>,
}

} // verus!
