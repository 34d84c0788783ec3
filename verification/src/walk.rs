//! The generic node handle and the child-extraction protocol.
//!
//! A [`Node`] borrows one traversal-eligible value of the tree — a concrete
//! kind reached directly, or a union standing for "any expression" or "any
//! statement" — so one piece of code can walk any part of the tree. The
//! children of a node are determined per field shape, with one conversion
//! rule per shape ([`ToNodeVector`]): a single node-like field contributes
//! one handle, an optional one contributes one handle when present, a
//! collection contributes one handle per element in order, a collection of
//! optional values contributes one handle per present element with the
//! relative order kept, and a leaf field contributes nothing. A node kind's
//! children are the concatenation of its fields' contributions in declared
//! field order ([`NodeIterable`]).

use vstd::prelude::*;

use crate::ast::Block;
use crate::ast::Expression;
use crate::ast::ExpressionStatement;
use crate::ast::FunctionCall;
use crate::ast::Literal;
use crate::ast::LiteralKind;
use crate::ast::Return;
use crate::ast::Statement;
use crate::ast::TypeDescriptions;
use crate::location::dec_digits;
use crate::location::format_number;
use crate::location::SourceLocation;
use crate::traits::NodeTrait;

verus! {

/// A borrowed handle on one traversal-eligible value of the tree.
///
/// The union is closed and small: one arm per category (any expression, any
/// statement) and one per concrete kind that a walk can reach directly.
/// Handles compare by the value they point at, and rendering a handle
/// shows its identifier.
#[derive(Debug, Clone, Copy, PartialEq, Eq)]
pub enum Node<'a> {
    Block(&'a Block),
    Expression(&'a Expression),
    ExpressionStatement(&'a ExpressionStatement),
    FunctionCall(&'a FunctionCall),
    Statement(&'a Statement),
}

/// An ordered sequence of handles, built by concatenating per-field
/// contributions.
pub struct NodeVector<'a>(Vec<Node<'a>>);

impl<'a> View for NodeVector<'a> {
    type V = Seq<Node<'a>>;

    closed spec fn view(&self) -> Seq<Node<'a>> {
        self.0@
    }
}

/// The contribution of one field to its node's children sequence, one rule
/// per field shape.
pub trait ToNodeVector {
    /// The handles this field contributes, in order.
    spec fn spec_contribution<'a>(&'a self) -> Seq<Node<'a>>;

    /// Convert the field into its contribution.
    fn node_vector<'a>(&'a self) -> (r: NodeVector<'a>)
        ensures
            r@ == self.spec_contribution(),
    ;
}

impl<'a> NodeVector<'a> {
    /// The empty sequence of handles.
    pub fn new() -> (r: Self)
        ensures
            r@ == Seq::<Node<'a>>::empty(),
    {
        NodeVector(Vec::new())
    }

    /// Append the contribution of one more field.
    pub fn extend<T: ToNodeVector>(self, value: &'a T) -> (r: Self)
        ensures
            r@ == self@ + value.spec_contribution(),
    {
        let NodeVector(mut v) = self;
        let NodeVector(mut o) = value.node_vector();
        v.append(&mut o);
        NodeVector(v)
    }

    /// The collected handles, in order.
    pub fn iter(self) -> (r: Vec<Node<'a>>)
        ensures
            r@ == self@,
    {
        self.0
    }
}

/// The children contributed by a single expression field.
pub open spec fn expr_single_children<'x>(e: Expression) -> Seq<Node<'x>> {
    seq![Node::Expression(&e)]
}

/// The children contributed by an optional expression field.
pub open spec fn expr_opt_children<'x>(o: Option<Expression>) -> Seq<Node<'x>> {
    match o {
        Some(e) => seq![Node::Expression(&e)],
        None => Seq::empty(),
    }
}

/// The children contributed by a collection of expressions.
pub open spec fn expr_seq_children<'x>(s: Seq<Expression>) -> Seq<Node<'x>>
    decreases s.len(),
{
    if s.len() == 0 {
        Seq::empty()
    } else {
        expr_seq_children(s.drop_last()) + expr_single_children(s.last())
    }
}

/// The children contributed by one possibly absent collection entry.
pub open spec fn stmt_opt_children<'x>(o: Option<Statement>) -> Seq<Node<'x>> {
    match o {
        Some(st) => seq![Node::Statement(&st)],
        None => Seq::empty(),
    }
}

/// The children contributed by a collection of possibly absent statements:
/// one handle per present entry, absent entries skipped, relative order
/// kept.
pub open spec fn stmt_opt_seq_children<'x>(s: Seq<Option<Statement>>) -> Seq<Node<'x>>
    decreases s.len(),
{
    if s.len() == 0 {
        Seq::empty()
    } else {
        stmt_opt_seq_children(s.drop_last()) + stmt_opt_children(s.last())
    }
}

/// The children of a literal: none, all its kind-specific fields are
/// leaves.
pub open spec fn literal_children<'x>(l: Literal) -> Seq<Node<'x>> {
    Seq::empty()
}

/// The children of a function call: the called expression, then the
/// arguments in order.
pub open spec fn function_call_children<'x>(f: FunctionCall) -> Seq<Node<'x>> {
    expr_single_children(f.expression) + expr_seq_children(f.arguments@)
}

/// The children of an expression: those of its active variant.
pub open spec fn expression_children<'x>(e: Expression) -> Seq<Node<'x>> {
    match e {
        Expression::Literal(n) => literal_children(*n),
        Expression::FunctionCall(n) => function_call_children(*n),
    }
}

/// The children of an expression statement: its one expression.
pub open spec fn expression_statement_children<'x>(s: ExpressionStatement) -> Seq<Node<'x>> {
    expr_single_children(s.expression)
}

/// The children of a return statement: its expression when present.
pub open spec fn return_children<'x>(r: Return) -> Seq<Node<'x>> {
    expr_opt_children(r.expression)
}

/// The children of a block: one handle per present statement entry.
pub open spec fn block_children<'x>(b: Block) -> Seq<Node<'x>> {
    stmt_opt_seq_children(b.statements@)
}

/// The children of a statement: those of its active variant.
pub open spec fn statement_children<'x>(s: Statement) -> Seq<Node<'x>> {
    match s {
        Statement::Block(n) => block_children(*n),
        Statement::ExpressionStatement(n) => expression_statement_children(*n),
        Statement::Return(n) => return_children(*n),
    }
}

/// The children of whatever a handle points at.
pub open spec fn node_children<'x>(n: Node) -> Seq<Node<'x>> {
    match n {
        Node::Block(b) => block_children(*b),
        Node::Expression(e) => expression_children(*e),
        Node::ExpressionStatement(s) => expression_statement_children(*s),
        Node::FunctionCall(f) => function_call_children(*f),
        Node::Statement(s) => statement_children(*s),
    }
}

/// Enumeration of a node's immediate children, total and deterministic
/// over a constructed tree.
pub trait NodeIterable {
    /// The node's children, in field-declaration order.
    spec fn spec_children<'a>(&'a self) -> Seq<Node<'a>>;

    /// Enumerate the node's children.
    fn iter<'a>(&'a self) -> (r: Vec<Node<'a>>)
        ensures
            r@ == self.spec_children(),
    ;
}

impl<T: NodeIterable> NodeIterable for Box<T> {
    open spec fn spec_children<'a>(&'a self) -> Seq<Node<'a>> {
        (**self).spec_children()
    }

    fn iter<'a>(&'a self) -> (r: Vec<Node<'a>>) {
        (&**self).iter()
    }
}

impl ToNodeVector for Expression {
    open spec fn spec_contribution<'a>(&'a self) -> Seq<Node<'a>> {
        expr_single_children(*self)
    }

    fn node_vector<'a>(&'a self) -> (r: NodeVector<'a>) {
        let r = NodeVector(vec![Node::Expression(self)]);
        proof {
            assert(r@ =~= expr_single_children::<'a>(*self));
        }
        r
    }
}

impl ToNodeVector for Option<Expression> {
    open spec fn spec_contribution<'a>(&'a self) -> Seq<Node<'a>> {
        expr_opt_children(*self)
    }

    fn node_vector<'a>(&'a self) -> (r: NodeVector<'a>) {
        match self {
            Some(e) => {
                let r = NodeVector(vec![Node::Expression(e)]);
                proof {
                    assert(r@ =~= expr_opt_children::<'a>(*self));
                }
                r
            },
            None => {
                let r = NodeVector(Vec::new());
                proof {
                    assert(r@ =~= expr_opt_children::<'a>(*self));
                }
                r
            },
        }
    }
}

impl ToNodeVector for Vec<Expression> {
    open spec fn spec_contribution<'a>(&'a self) -> Seq<Node<'a>> {
        expr_seq_children(self@)
    }

    fn node_vector<'a>(&'a self) -> (r: NodeVector<'a>) {
        let ghost s = self@;
        let mut out: Vec<Node<'a>> = Vec::new();
        let mut i: usize = 0;
        while i < self.len()
            invariant
                i <= s.len(),
                s == self@,
                out@ == expr_seq_children::<'a>(s.take(i as int)),
            decreases s.len() - i,
        {
            out.push(Node::Expression(&self[i]));
            proof {
                assert(s.take(i + 1).drop_last() =~= s.take(i as int));
                assert(s.take(i + 1).last() == s[i as int]);
                assert(out@ =~= expr_seq_children::<'a>(s.take(i + 1)));
            }
            i += 1;
        }
        proof {
            assert(s.take(s.len() as int) =~= s);
        }
        NodeVector(out)
    }
}

impl ToNodeVector for Vec<Option<Statement>> {
    open spec fn spec_contribution<'a>(&'a self) -> Seq<Node<'a>> {
        stmt_opt_seq_children(self@)
    }

    fn node_vector<'a>(&'a self) -> (r: NodeVector<'a>) {
        let ghost s = self@;
        let mut out: Vec<Node<'a>> = Vec::new();
        let mut i: usize = 0;
        while i < self.len()
            invariant
                i <= s.len(),
                s == self@,
                out@ == stmt_opt_seq_children::<'a>(s.take(i as int)),
            decreases s.len() - i,
        {
            match &self[i] {
                Some(st) => {
                    out.push(Node::Statement(st));
                },
                None => {},
            }
            proof {
                assert(s.take(i + 1).drop_last() =~= s.take(i as int));
                assert(s.take(i + 1).last() == s[i as int]);
                assert(out@ =~= stmt_opt_seq_children::<'a>(s.take(i + 1)));
            }
            i += 1;
        }
        proof {
            assert(s.take(s.len() as int) =~= s);
        }
        NodeVector(out)
    }
}

impl ToNodeVector for bool {
    open spec fn spec_contribution<'a>(&'a self) -> Seq<Node<'a>> {
        Seq::empty()
    }

    fn node_vector<'a>(&'a self) -> (r: NodeVector<'a>) {
        NodeVector::new()
    }
}

impl ToNodeVector for usize {
    open spec fn spec_contribution<'a>(&'a self) -> Seq<Node<'a>> {
        Seq::empty()
    }

    fn node_vector<'a>(&'a self) -> (r: NodeVector<'a>) {
        NodeVector::new()
    }
}

impl ToNodeVector for String {
    open spec fn spec_contribution<'a>(&'a self) -> Seq<Node<'a>> {
        Seq::empty()
    }

    fn node_vector<'a>(&'a self) -> (r: NodeVector<'a>) {
        NodeVector::new()
    }
}

impl ToNodeVector for Option<String> {
    open spec fn spec_contribution<'a>(&'a self) -> Seq<Node<'a>> {
        Seq::empty()
    }

    fn node_vector<'a>(&'a self) -> (r: NodeVector<'a>) {
        NodeVector::new()
    }
}

impl ToNodeVector for SourceLocation {
    open spec fn spec_contribution<'a>(&'a self) -> Seq<Node<'a>> {
        Seq::empty()
    }

    fn node_vector<'a>(&'a self) -> (r: NodeVector<'a>) {
        NodeVector::new()
    }
}

impl ToNodeVector for TypeDescriptions {
    open spec fn spec_contribution<'a>(&'a self) -> Seq<Node<'a>> {
        Seq::empty()
    }

    fn node_vector<'a>(&'a self) -> (r: NodeVector<'a>) {
        NodeVector::new()
    }
}

impl ToNodeVector for Vec<TypeDescriptions> {
    open spec fn spec_contribution<'a>(&'a self) -> Seq<Node<'a>> {
        Seq::empty()
    }

    fn node_vector<'a>(&'a self) -> (r: NodeVector<'a>) {
        NodeVector::new()
    }
}

impl ToNodeVector for LiteralKind {
    open spec fn spec_contribution<'a>(&'a self) -> Seq<Node<'a>> {
        Seq::empty()
    }

    fn node_vector<'a>(&'a self) -> (r: NodeVector<'a>) {
        NodeVector::new()
    }
}

impl NodeIterable for Literal {
    open spec fn spec_children<'a>(&'a self) -> Seq<Node<'a>> {
        literal_children(*self)
    }

    fn iter<'a>(&'a self) -> (r: Vec<Node<'a>>) {
        let v = NodeVector::new()
            .extend(&self.argument_types)
            .extend(&self.is_constant)
            .extend(&self.is_l_value)
            .extend(&self.is_pure)
            .extend(&self.l_value_requested)
            .extend(&self.type_descriptions)
            .extend(&self.kind)
            .extend(&self.value);
        proof {
            assert(v@ =~= literal_children::<'a>(*self));
        }
        v.iter()
    }
}

impl NodeIterable for FunctionCall {
    open spec fn spec_children<'a>(&'a self) -> Seq<Node<'a>> {
        function_call_children(*self)
    }

    fn iter<'a>(&'a self) -> (r: Vec<Node<'a>>) {
        let v = NodeVector::new()
            .extend(&self.argument_types)
            .extend(&self.is_constant)
            .extend(&self.is_l_value)
            .extend(&self.is_pure)
            .extend(&self.l_value_requested)
            .extend(&self.type_descriptions)
            .extend(&self.expression)
            .extend(&self.arguments);
        proof {
            assert(v@ =~= function_call_children::<'a>(*self));
        }
        v.iter()
    }
}

impl NodeIterable for ExpressionStatement {
    open spec fn spec_children<'a>(&'a self) -> Seq<Node<'a>> {
        expression_statement_children(*self)
    }

    fn iter<'a>(&'a self) -> (r: Vec<Node<'a>>) {
        let v = NodeVector::new().extend(&self.documentation).extend(&self.expression);
        proof {
            assert(v@ =~= expression_statement_children::<'a>(*self));
        }
        v.iter()
    }
}

impl NodeIterable for Return {
    open spec fn spec_children<'a>(&'a self) -> Seq<Node<'a>> {
        return_children(*self)
    }

    fn iter<'a>(&'a self) -> (r: Vec<Node<'a>>) {
        let v = NodeVector::new().extend(&self.documentation).extend(&self.expression);
        proof {
            assert(v@ =~= return_children::<'a>(*self));
        }
        v.iter()
    }
}

impl NodeIterable for Block {
    open spec fn spec_children<'a>(&'a self) -> Seq<Node<'a>> {
        block_children(*self)
    }

    fn iter<'a>(&'a self) -> (r: Vec<Node<'a>>) {
        let v = NodeVector::new().extend(&self.documentation).extend(&self.statements);
        proof {
            assert(v@ =~= block_children::<'a>(*self));
        }
        v.iter()
    }
}

impl NodeIterable for Expression {
    open spec fn spec_children<'a>(&'a self) -> Seq<Node<'a>> {
        expression_children(*self)
    }

    fn iter<'a>(&'a self) -> (r: Vec<Node<'a>>) {
        match self {
            Expression::Literal(n) => (&**n).iter(),
            Expression::FunctionCall(n) => (&**n).iter(),
        }
    }
}

impl NodeIterable for Statement {
    open spec fn spec_children<'a>(&'a self) -> Seq<Node<'a>> {
        statement_children(*self)
    }

    fn iter<'a>(&'a self) -> (r: Vec<Node<'a>>) {
        match self {
            Statement::Block(n) => (&**n).iter(),
            Statement::ExpressionStatement(n) => (&**n).iter(),
            Statement::Return(n) => (&**n).iter(),
        }
    }
}

impl<'a> NodeIterable for Node<'a> {
    open spec fn spec_children<'b>(&'b self) -> Seq<Node<'b>> {
        node_children(*self)
    }

    fn iter<'b>(&'b self) -> (r: Vec<Node<'b>>) {
        match self {
            Node::Block(b) => (*b).iter(),
            Node::Expression(e) => (*e).iter(),
            Node::ExpressionStatement(s) => (*s).iter(),
            Node::FunctionCall(f) => (*f).iter(),
            Node::Statement(s) => (*s).iter(),
        }
    }
}

impl<'a> NodeTrait for Node<'a> {
    open spec fn spec_id(&self) -> usize {
        match self {
            Node::Block(b) => b.spec_id(),
            Node::Expression(e) => e.spec_id(),
            Node::ExpressionStatement(s) => s.spec_id(),
            Node::FunctionCall(f) => f.spec_id(),
            Node::Statement(s) => s.spec_id(),
        }
    }

    open spec fn spec_src(&self) -> SourceLocation {
        match self {
            Node::Block(b) => b.spec_src(),
            Node::Expression(e) => e.spec_src(),
            Node::ExpressionStatement(s) => s.spec_src(),
            Node::FunctionCall(f) => f.spec_src(),
            Node::Statement(s) => s.spec_src(),
        }
    }

    fn node_data(&self) -> (r: (usize, SourceLocation)) {
        match self {
            Node::Block(b) => (*b).node_data(),
            Node::Expression(e) => (*e).node_data(),
            Node::ExpressionStatement(s) => (*s).node_data(),
            Node::FunctionCall(f) => (*f).node_data(),
            Node::Statement(s) => (*s).node_data(),
        }
    }

    fn id(&self) -> (r: usize) {
        match self {
            Node::Block(b) => (*b).id(),
            Node::Expression(e) => (*e).id(),
            Node::ExpressionStatement(s) => (*s).id(),
            Node::FunctionCall(f) => (*f).id(),
            Node::Statement(s) => (*s).id(),
        }
    }

    fn src(&self) -> (r: SourceLocation) {
        match self {
            Node::Block(b) => (*b).src(),
            Node::Expression(e) => (*e).src(),
            Node::ExpressionStatement(s) => (*s).src(),
            Node::FunctionCall(f) => (*f).src(),
            Node::Statement(s) => (*s).src(),
        }
    }
}

impl<'a> Node<'a> {
    /// Render the handle for a human reader: the decimal identifier of the
    /// node it points at.
    pub fn render(&self) -> (r: String)
        ensures
            r@ == dec_digits(self.spec_id() as int),
    {
        format_number(self.id())
    }
}

} // verus!
