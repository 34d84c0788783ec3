//! The node kinds of the tree, their closed unions, and the leaf types.
//!
//! Every node kind carries the common identity and location fields; an
//! expression kind adds the inferred-type bookkeeping fields, a statement
//! kind adds optional documentation. A field of a leaf type (a flag, an
//! identifier, a raw string, a location record, a descriptor) never holds
//! further nodes. The unions are closed: a tree position that admits more
//! than one kind holds exactly one variant, and each variant owns its
//! payload behind heap indirection because the tree is recursive.

use vstd::prelude::*;

use crate::location::SourceLocation;
use crate::traits::ExpressionTrait;
use crate::traits::NodeTrait;

verus! {

/// Leaf descriptor carrying the type the external compiler inferred for an
/// expression; either string may be absent.
#[derive(Debug, Clone, PartialEq, Eq)]
pub struct TypeDescriptions {
    /// The compiler's internal type identifier, if any.
    pub type_identifier: Option<String>,
    /// The canonical type string, if any.
    pub type_string: Option<String>,
}

/// Leaf discriminator of a literal expression's form.
#[derive(Debug, Clone, Copy, PartialEq, Eq)]
pub enum LiteralKind {
    /// A boolean literal.
    Bool,
    /// A numeric literal.
    Number,
    /// A string literal.
    Str,
}

/// A literal expression. All its kind-specific fields are leaves.
#[derive(Debug, PartialEq, Eq)]
pub struct Literal {
    pub id: usize,
    pub src: SourceLocation,
    pub argument_types: Vec<TypeDescriptions>,
    pub is_constant: bool,
    pub is_l_value: bool,
    pub is_pure: bool,
    pub l_value_requested: bool,
    pub type_descriptions: TypeDescriptions,
    /// The literal's form.
    pub kind: LiteralKind,
    /// The literal's textual value, if representable.
    pub value: Option<String>,
}

/// A function call expression: the called expression, then the arguments
/// in order.
#[derive(Debug, PartialEq, Eq)]
pub struct FunctionCall {
    pub id: usize,
    pub src: SourceLocation,
    pub argument_types: Vec<TypeDescriptions>,
    pub is_constant: bool,
    pub is_l_value: bool,
    pub is_pure: bool,
    pub l_value_requested: bool,
    pub type_descriptions: TypeDescriptions,
    /// The expression being called.
    pub expression: Expression,
    /// The argument expressions, in call order.
    pub arguments: Vec<Expression>,
}

/// The closed union of expression kinds.
#[derive(Debug, PartialEq, Eq)]
pub enum Expression {
    Literal(Box<Literal>),
    FunctionCall(Box<FunctionCall>),
}

/// A statement consisting of one expression.
#[derive(Debug, PartialEq, Eq)]
pub struct ExpressionStatement {
    pub id: usize,
    pub src: SourceLocation,
    pub documentation: Option<String>,
    /// The statement's expression.
    pub expression: Expression,
}

/// A return statement with an optional returned expression.
#[derive(Debug, PartialEq, Eq)]
pub struct Return {
    pub id: usize,
    pub src: SourceLocation,
    pub documentation: Option<String>,
    /// The returned expression, if any.
    pub expression: Option<Expression>,
}

/// A block of statements. An entry may be absent (the external document
/// writes `null` there); absent entries contribute no children.
#[derive(Debug, PartialEq, Eq)]
pub struct Block {
    pub id: usize,
    pub src: SourceLocation,
    pub documentation: Option<String>,
    /// The statements in order, each possibly absent.
    pub statements: Vec<Option<Statement>>,
}

/// The closed union of statement kinds.
#[derive(Debug, PartialEq, Eq)]
pub enum Statement {
    Block(Box<Block>),
    ExpressionStatement(Box<ExpressionStatement>),
    Return(Box<Return>),
}

impl NodeTrait for Literal {
    open spec fn spec_id(&self) -> usize {
        self.id
    }

    open spec fn spec_src(&self) -> SourceLocation {
        self.src
    }

    fn node_data(&self) -> (r: (usize, SourceLocation)) {
        (self.id, self.src)
    }

    fn id(&self) -> (r: usize) {
        self.id
    }

    fn src(&self) -> (r: SourceLocation) {
        self.src
    }
}

impl NodeTrait for FunctionCall {
    open spec fn spec_id(&self) -> usize {
        self.id
    }

    open spec fn spec_src(&self) -> SourceLocation {
        self.src
    }

    fn node_data(&self) -> (r: (usize, SourceLocation)) {
        (self.id, self.src)
    }

    fn id(&self) -> (r: usize) {
        self.id
    }

    fn src(&self) -> (r: SourceLocation) {
        self.src
    }
}

impl NodeTrait for ExpressionStatement {
    open spec fn spec_id(&self) -> usize {
        self.id
    }

    open spec fn spec_src(&self) -> SourceLocation {
        self.src
    }

    fn node_data(&self) -> (r: (usize, SourceLocation)) {
        (self.id, self.src)
    }

    fn id(&self) -> (r: usize) {
        self.id
    }

    fn src(&self) -> (r: SourceLocation) {
        self.src
    }
}

impl NodeTrait for Return {
    open spec fn spec_id(&self) -> usize {
        self.id
    }

    open spec fn spec_src(&self) -> SourceLocation {
        self.src
    }

    fn node_data(&self) -> (r: (usize, SourceLocation)) {
        (self.id, self.src)
    }

    fn id(&self) -> (r: usize) {
        self.id
    }

    fn src(&self) -> (r: SourceLocation) {
        self.src
    }
}

impl NodeTrait for Block {
    open spec fn spec_id(&self) -> usize {
        self.id
    }

    open spec fn spec_src(&self) -> SourceLocation {
        self.src
    }

    fn node_data(&self) -> (r: (usize, SourceLocation)) {
        (self.id, self.src)
    }

    fn id(&self) -> (r: usize) {
        self.id
    }

    fn src(&self) -> (r: SourceLocation) {
        self.src
    }
}

impl NodeTrait for Expression {
    open spec fn spec_id(&self) -> usize {
        match self {
            Expression::Literal(n) => (**n).spec_id(),
            Expression::FunctionCall(n) => (**n).spec_id(),
        }
    }

    open spec fn spec_src(&self) -> SourceLocation {
        match self {
            Expression::Literal(n) => (**n).spec_src(),
            Expression::FunctionCall(n) => (**n).spec_src(),
        }
    }

    fn node_data(&self) -> (r: (usize, SourceLocation)) {
        match self {
            Expression::Literal(n) => (&**n).node_data(),
            Expression::FunctionCall(n) => (&**n).node_data(),
        }
    }

    fn id(&self) -> (r: usize) {
        match self {
            Expression::Literal(n) => (&**n).id(),
            Expression::FunctionCall(n) => (&**n).id(),
        }
    }

    fn src(&self) -> (r: SourceLocation) {
        match self {
            Expression::Literal(n) => (&**n).src(),
            Expression::FunctionCall(n) => (&**n).src(),
        }
    }
}

impl NodeTrait for Statement {
    open spec fn spec_id(&self) -> usize {
        match self {
            Statement::Block(n) => (**n).spec_id(),
            Statement::ExpressionStatement(n) => (**n).spec_id(),
            Statement::Return(n) => (**n).spec_id(),
        }
    }

    open spec fn spec_src(&self) -> SourceLocation {
        match self {
            Statement::Block(n) => (**n).spec_src(),
            Statement::ExpressionStatement(n) => (**n).spec_src(),
            Statement::Return(n) => (**n).spec_src(),
        }
    }

    fn node_data(&self) -> (r: (usize, SourceLocation)) {
        match self {
            Statement::Block(n) => (&**n).node_data(),
            Statement::ExpressionStatement(n) => (&**n).node_data(),
            Statement::Return(n) => (&**n).node_data(),
        }
    }

    fn id(&self) -> (r: usize) {
        match self {
            Statement::Block(n) => (&**n).id(),
            Statement::ExpressionStatement(n) => (&**n).id(),
            Statement::Return(n) => (&**n).id(),
        }
    }

    fn src(&self) -> (r: SourceLocation) {
        match self {
            Statement::Block(n) => (&**n).src(),
            Statement::ExpressionStatement(n) => (&**n).src(),
            Statement::Return(n) => (&**n).src(),
        }
    }
}

impl ExpressionTrait for Literal {
    open spec fn spec_type(&self) -> Option<String> {
        self.type_descriptions.type_string
    }

    fn get_type(&self) -> (r: &Option<String>) {
        &self.type_descriptions.type_string
    }
}

impl ExpressionTrait for FunctionCall {
    open spec fn spec_type(&self) -> Option<String> {
        self.type_descriptions.type_string
    }

    fn get_type(&self) -> (r: &Option<String>) {
        &self.type_descriptions.type_string
    }
}

impl ExpressionTrait for Expression {
    open spec fn spec_type(&self) -> Option<String> {
        match self {
            Expression::Literal(n) => (**n).spec_type(),
            Expression::FunctionCall(n) => (**n).spec_type(),
        }
    }

    fn get_type(&self) -> (r: &Option<String>) {
        match self {
            Expression::Literal(n) => (&**n).get_type(),
            Expression::FunctionCall(n) => (&**n).get_type(),
        }
    }
}

} // verus!
