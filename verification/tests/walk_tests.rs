use solc_ast::ast::Block;
use solc_ast::ast::Expression;
use solc_ast::ast::ExpressionStatement;
use solc_ast::ast::FunctionCall;
use solc_ast::ast::Literal;
use solc_ast::ast::LiteralKind;
use solc_ast::ast::Return;
use solc_ast::ast::Statement;
use solc_ast::ast::TypeDescriptions;
use solc_ast::location::SourceLocation;
use solc_ast::traits::ExpressionTrait;
use solc_ast::traits::NodeTrait;
use solc_ast::walk::Node;
use solc_ast::walk::NodeIterable;
use solc_ast::walk::NodeVector;
use solc_ast::walk::ToNodeVector;

fn loc(start: usize) -> SourceLocation {
    SourceLocation { start: Some(start), length: Some(1), index: Some(0) }
}

fn td(type_string: Option<&str>) -> TypeDescriptions {
    TypeDescriptions {
        type_identifier: None,
        type_string: type_string.map(|s| s.to_owned()),
    }
}

fn lit(id: usize) -> Literal {
    Literal {
        id,
        src: loc(id),
        argument_types: Vec::new(),
        is_constant: false,
        is_l_value: false,
        is_pure: false,
        l_value_requested: false,
        type_descriptions: td(Some("uint256")),
        kind: LiteralKind::Number,
        value: Some("1".to_owned()),
    }
}

fn expr(id: usize) -> Expression {
    Expression::Literal(Box::new(lit(id)))
}

fn expr_stmt(id: usize, inner: usize) -> Statement {
    Statement::ExpressionStatement(Box::new(ExpressionStatement {
        id,
        src: loc(id),
        documentation: None,
        expression: expr(inner),
    }))
}

#[test]
fn node_vector_new_is_empty() {
    assert_eq!(NodeVector::new().iter().len(), 0);
}

#[test]
fn node_vector_extend_concatenates_in_order() {
    let a = expr(1);
    let b = expr(2);
    let v = NodeVector::new().extend(&a).extend(&b).iter();
    assert_eq!(v.len(), 2);
    assert_eq!(v[0], Node::Expression(&a));
    assert_eq!(v[1], Node::Expression(&b));
}

#[test]
fn leaf_fields_contribute_nothing() {
    assert_eq!(true.node_vector().iter().len(), 0);
    assert_eq!(7usize.node_vector().iter().len(), 0);
    assert_eq!("text".to_owned().node_vector().iter().len(), 0);
    assert_eq!(Some("text".to_owned()).node_vector().iter().len(), 0);
    assert_eq!(loc(3).node_vector().iter().len(), 0);
    assert_eq!(td(None).node_vector().iter().len(), 0);
    assert_eq!(vec![td(None), td(Some("bool"))].node_vector().iter().len(), 0);
    assert_eq!(LiteralKind::Bool.node_vector().iter().len(), 0);
}

#[test]
fn literal_has_no_children() {
    assert_eq!(lit(5).iter().len(), 0);
}

#[test]
fn optional_child_absent_contributes_zero() {
    let r = Return { id: 9, src: loc(9), documentation: None, expression: None };
    assert_eq!(r.iter().len(), 0);
}

#[test]
fn optional_child_present_contributes_one() {
    let r = Return { id: 9, src: loc(9), documentation: None, expression: Some(expr(4)) };
    let kids = r.iter();
    assert_eq!(kids.len(), 1);
    assert_eq!(kids[0].id(), 4);
}

#[test]
fn function_call_children_in_declared_order() {
    let call = FunctionCall {
        id: 10,
        src: loc(10),
        argument_types: vec![td(None)],
        is_constant: false,
        is_l_value: false,
        is_pure: true,
        l_value_requested: false,
        type_descriptions: td(Some("bool")),
        expression: expr(11),
        arguments: vec![expr(12), expr(13)],
    };
    let kids = call.iter();
    assert_eq!(kids.len(), 3);
    assert_eq!(kids[0].id(), 11);
    assert_eq!(kids[1].id(), 12);
    assert_eq!(kids[2].id(), 13);
}

#[test]
fn block_skips_absent_entries_keeps_order() {
    let b = Block {
        id: 1,
        src: loc(1),
        documentation: None,
        statements: vec![Some(expr_stmt(2, 3)), None, Some(expr_stmt(4, 5)), None],
    };
    let kids = b.iter();
    assert_eq!(kids.len(), 2);
    assert_eq!(kids[0].id(), 2);
    assert_eq!(kids[1].id(), 4);
}

#[test]
fn block_scenario_with_null_entry() {
    // a block of two entries, one expression statement and one absent
    let b = Block {
        id: 7,
        src: loc(7),
        documentation: None,
        statements: vec![Some(expr_stmt(8, 9)), None],
    };
    let kids = b.iter();
    assert_eq!(kids.len(), 1);
    assert_eq!(kids[0].id(), 8);
}

#[test]
fn children_enumeration_is_deterministic() {
    let b = Block {
        id: 1,
        src: loc(1),
        documentation: Some("docs".to_owned()),
        statements: vec![Some(expr_stmt(2, 3)), None, Some(expr_stmt(4, 5))],
    };
    assert_eq!(b.iter(), b.iter());
}

#[test]
fn handle_children_forward_to_value() {
    let b = Block {
        id: 1,
        src: loc(1),
        documentation: None,
        statements: vec![Some(expr_stmt(2, 3))],
    };
    let handle = Node::Block(&b);
    let kids = handle.iter();
    assert_eq!(kids.len(), 1);
    assert_eq!(kids[0].id(), 2);
}

#[test]
fn union_children_forward_to_variant() {
    let s = expr_stmt(2, 3);
    let kids = s.iter();
    assert_eq!(kids.len(), 1);
    assert_eq!(kids[0].id(), 3);
}

#[test]
fn node_data_returns_id_and_location() {
    let l = lit(21);
    assert_eq!(l.node_data(), (21, loc(21)));
    assert_eq!(l.id(), 21);
    assert_eq!(l.src(), loc(21));
}

#[test]
fn boxed_node_forwards_identity() {
    let b = Box::new(lit(33));
    assert_eq!(b.id(), 33);
    assert_eq!(b.src(), loc(33));
}

#[test]
fn union_identity_forwards_to_variant() {
    let e = expr(14);
    assert_eq!(e.id(), 14);
    let s = expr_stmt(15, 16);
    assert_eq!(s.id(), 15);
}

#[test]
fn handle_identity_forwards() {
    let e = expr(40);
    let h = Node::Expression(&e);
    assert_eq!(h.id(), 40);
    assert_eq!(h.src(), loc(40));
}

#[test]
fn handle_renders_its_id() {
    let e = expr(42);
    assert_eq!(Node::Expression(&e).render(), "42");
}

#[test]
fn handles_compare_by_pointee() {
    let a = expr(1);
    let b = expr(1);
    let c = expr(2);
    assert_eq!(Node::Expression(&a), Node::Expression(&b));
    assert_ne!(Node::Expression(&a), Node::Expression(&c));
}

#[test]
fn expression_type_comes_from_descriptor() {
    let l = lit(5);
    assert_eq!(l.get_type(), &Some("uint256".to_owned()));
    let e = expr(6);
    assert_eq!(e.get_type(), &Some("uint256".to_owned()));
    let boxed = Box::new(lit(7));
    assert_eq!(boxed.get_type(), &Some("uint256".to_owned()));
}

#[test]
fn expression_type_may_be_absent() {
    let mut l = lit(5);
    l.type_descriptions = td(None);
    assert_eq!(l.get_type(), &None);
}
