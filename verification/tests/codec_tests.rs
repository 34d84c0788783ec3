use solc_ast::ast::Block;
use solc_ast::ast::Expression;
use solc_ast::ast::ExpressionStatement;
use solc_ast::ast::FunctionCall;
use solc_ast::ast::Literal;
use solc_ast::ast::LiteralKind;
use solc_ast::ast::Return;
use solc_ast::ast::Statement;
use solc_ast::ast::TypeDescriptions;
use solc_ast::decode::decode_block;
use solc_ast::decode::decode_expression;
use solc_ast::decode::decode_literal;
use solc_ast::decode::decode_statement;
use solc_ast::decode::DecodeError;
use solc_ast::decode::FieldName;
use solc_ast::decode::NodeKind;
use solc_ast::document::Entry;
use solc_ast::document::Value;
use solc_ast::encode::encode_block;
use solc_ast::encode::encode_expression;
use solc_ast::encode::encode_literal;
use solc_ast::encode::encode_statement;
use solc_ast::location::SourceLocation;
use solc_ast::walk::NodeIterable;
use solc_ast::traits::NodeTrait;

fn entry(key: &str, value: Value) -> Entry {
    Entry { key: key.to_owned(), value }
}

fn obj(entries: Vec<Entry>) -> Value {
    Value::Obj(entries)
}

fn s(text: &str) -> Value {
    Value::Str(text.to_owned())
}

fn base(kind: &str, id: u64, src: &str) -> Vec<Entry> {
    vec![entry("nodeType", s(kind)), entry("id", Value::Int(id)), entry("src", s(src))]
}

fn loc(start: usize) -> SourceLocation {
    SourceLocation { start: Some(start), length: Some(1), index: Some(0) }
}

fn literal_doc(id: u64) -> Value {
    let mut es = base("Literal", id, "0:1:0");
    es.push(entry("typeDescriptions", obj(vec![
        entry("typeIdentifier", Value::Null),
        entry("typeString", s("uint256")),
    ])));
    es.push(entry("kind", s("number")));
    es.push(entry("value", s("1")));
    obj(es)
}

#[test]
fn minimal_expression_defaults() {
    // an expression with no argumentTypes, isConstant and the rest absent
    let decoded = decode_literal(&literal_doc(3)).unwrap();
    assert_eq!(decoded.argument_types, Vec::new());
    assert!(!decoded.is_constant);
    assert!(!decoded.is_l_value);
    assert!(!decoded.is_pure);
    assert!(!decoded.l_value_requested);
    assert_eq!(decoded.value, Some("1".to_owned()));
    assert_eq!(decoded.kind, LiteralKind::Number);
    assert_eq!(decoded.id, 3);
    assert_eq!(decoded.src, SourceLocation { start: Some(0), length: Some(1), index: Some(0) });
}

#[test]
fn explicit_null_collections_decode_empty() {
    let mut es = base("Literal", 3, "0:1:0");
    es.push(entry("argumentTypes", Value::Null));
    es.push(entry("typeDescriptions", Value::Null));
    es.push(entry("kind", s("bool")));
    let decoded = decode_literal(&obj(es)).unwrap();
    assert_eq!(decoded.argument_types, Vec::new());
    assert_eq!(decoded.value, None);
}

#[test]
fn unrecognized_extra_fields_are_ignored() {
    let mut es = base("Literal", 3, "0:1:0");
    es.push(entry("kind", s("bool")));
    es.push(entry("somethingNew", s("ignored")));
    assert!(decode_literal(&obj(es)).is_ok());
}

#[test]
fn missing_id_fails() {
    let es = vec![entry("nodeType", s("Literal")), entry("src", s("0:1:0")), entry("kind", s("bool"))];
    assert_eq!(
        decode_literal(&obj(es)),
        Err(DecodeError::MissingField { kind: NodeKind::Literal, field: FieldName::Id })
    );
}

#[test]
fn missing_src_fails() {
    let es = vec![entry("nodeType", s("Literal")), entry("id", Value::Int(1)), entry("kind", s("bool"))];
    assert_eq!(
        decode_literal(&obj(es)),
        Err(DecodeError::MissingField { kind: NodeKind::Literal, field: FieldName::Src })
    );
}

#[test]
fn malformed_location_fails() {
    let mut es = base("Literal", 1, "zero:one:two");
    es.push(entry("kind", s("bool")));
    assert_eq!(
        decode_literal(&obj(es)),
        Err(DecodeError::MalformedLocation { kind: NodeKind::Literal })
    );
}

#[test]
fn wrongly_typed_id_fails() {
    let es = vec![entry("nodeType", s("Literal")), entry("id", s("1")), entry("src", s("0:1:0"))];
    assert_eq!(
        decode_literal(&obj(es)),
        Err(DecodeError::MalformedField { kind: NodeKind::Literal, field: FieldName::Id })
    );
}

#[test]
fn wrongly_typed_flag_fails() {
    let mut es = base("Literal", 1, "0:1:0");
    es.push(entry("isConstant", s("yes")));
    assert_eq!(
        decode_literal(&obj(es)),
        Err(DecodeError::MalformedField { kind: NodeKind::Literal, field: FieldName::IsConstant })
    );
}

#[test]
fn non_object_fails() {
    assert_eq!(
        decode_statement(&Value::Null),
        Err(DecodeError::NotAnObject { kind: NodeKind::Statement })
    );
}

#[test]
fn missing_discriminator_fails() {
    let es = vec![entry("id", Value::Int(1)), entry("src", s("0:1:0"))];
    assert_eq!(
        decode_statement(&obj(es)),
        Err(DecodeError::MissingField { kind: NodeKind::Statement, field: FieldName::NodeType })
    );
}

#[test]
fn known_discriminator_decodes_to_that_variant() {
    let mut es = base("Return", 4, "0:1:0");
    es.push(entry("expression", Value::Null));
    let decoded = decode_statement(&obj(es)).unwrap();
    assert!(matches!(decoded, Statement::Return(_)));
}

#[test]
fn unknown_discriminator_fails_with_tag() {
    let es = base("WhileStatement", 4, "0:1:0");
    assert_eq!(
        decode_statement(&obj(es)),
        Err(DecodeError::UnknownDiscriminator {
            group: NodeKind::Statement,
            tag: "WhileStatement".to_owned(),
        })
    );
}

#[test]
fn unknown_expression_discriminator_fails() {
    let es = base("BinaryOperation", 4, "0:1:0");
    assert_eq!(
        decode_expression(&obj(es)),
        Err(DecodeError::UnknownDiscriminator {
            group: NodeKind::Expression,
            tag: "BinaryOperation".to_owned(),
        })
    );
}

#[test]
fn block_scenario_null_entry_contributes_nothing() {
    // a Block whose statements hold one ExpressionStatement and one null
    let mut inner = base("ExpressionStatement", 2, "0:1:0");
    inner.push(entry("expression", literal_doc(3)));
    let mut es = base("Block", 1, "0:4:0");
    es.push(entry("statements", Value::Arr(vec![obj(inner), Value::Null])));
    let block = decode_block(&obj(es)).unwrap();
    assert_eq!(block.statements.len(), 2);
    assert!(block.statements[1].is_none());
    let kids = block.iter();
    assert_eq!(kids.len(), 1);
    assert_eq!(kids[0].id(), 2);
}

#[test]
fn nested_element_error_propagates() {
    let mut es = base("Block", 1, "0:4:0");
    es.push(entry("statements", Value::Arr(vec![base_obj_without_src()])));
    assert_eq!(
        decode_block(&obj(es)),
        Err(DecodeError::MissingField { kind: NodeKind::Return, field: FieldName::Src })
    );
}

fn base_obj_without_src() -> Value {
    obj(vec![entry("nodeType", s("Return")), entry("id", Value::Int(9))])
}

fn sample_block() -> Block {
    let callee = Expression::Literal(Box::new(sample_literal(10)));
    let call = Expression::FunctionCall(Box::new(FunctionCall {
        id: 11,
        src: loc(11),
        argument_types: vec![
            TypeDescriptions { type_identifier: Some("t_bool".to_owned()), type_string: None },
        ],
        is_constant: false,
        is_l_value: false,
        is_pure: true,
        l_value_requested: false,
        type_descriptions: TypeDescriptions {
            type_identifier: None,
            type_string: Some("bool".to_owned()),
        },
        expression: callee,
        arguments: vec![Expression::Literal(Box::new(sample_literal(12)))],
    }));
    Block {
        id: 1,
        src: loc(1),
        documentation: Some("a block".to_owned()),
        statements: vec![
            Some(Statement::ExpressionStatement(Box::new(ExpressionStatement {
                id: 2,
                src: loc(2),
                documentation: None,
                expression: call,
            }))),
            None,
            Some(Statement::Return(Box::new(Return {
                id: 3,
                src: SourceLocation { start: None, length: None, index: None },
                documentation: Some("returns".to_owned()),
                expression: Some(Expression::Literal(Box::new(sample_literal(13)))),
            }))),
        ],
    }
}

fn sample_literal(id: usize) -> Literal {
    Literal {
        id,
        src: loc(id),
        argument_types: Vec::new(),
        is_constant: true,
        is_l_value: false,
        is_pure: true,
        l_value_requested: false,
        type_descriptions: TypeDescriptions {
            type_identifier: Some("t_rational".to_owned()),
            type_string: Some("int_const".to_owned()),
        },
        kind: LiteralKind::Number,
        value: Some("7".to_owned()),
    }
}

#[test]
fn round_trip_literal() {
    let l = sample_literal(5);
    assert_eq!(decode_literal(&encode_literal(&l)), Ok(l));
}

#[test]
fn round_trip_expression() {
    let e = Expression::Literal(Box::new(sample_literal(6)));
    assert_eq!(decode_expression(&encode_expression(&e)), Ok(e));
}

#[test]
fn round_trip_block() {
    let b = sample_block();
    assert_eq!(decode_block(&encode_block(&b)), Ok(b));
}

#[test]
fn round_trip_statement_union() {
    let st = Statement::Block(Box::new(sample_block()));
    assert_eq!(decode_statement(&encode_statement(&st)), Ok(st));
}

#[test]
fn round_trip_return_without_expression() {
    let st = Statement::Return(Box::new(Return {
        id: 3,
        src: loc(3),
        documentation: None,
        expression: None,
    }));
    assert_eq!(decode_statement(&encode_statement(&st)), Ok(st));
}

#[test]
fn encode_uses_camel_case_field_names() {
    let d = encode_literal(&sample_literal(5));
    match d {
        Value::Obj(entries) => {
            let keys: Vec<&str> = entries.iter().map(|e| e.key.as_str()).collect();
            assert_eq!(
                keys,
                vec![
                    "nodeType",
                    "id",
                    "src",
                    "argumentTypes",
                    "isConstant",
                    "isLValue",
                    "isPure",
                    "lValueRequested",
                    "typeDescriptions",
                    "kind",
                    "value",
                ]
            );
        },
        _ => panic!("encoded node is not an object"),
    }
}

#[test]
fn duplicate_field_uses_first_occurrence() {
    let mut es = base("Literal", 3, "0:1:0");
    es.push(entry("kind", s("bool")));
    es.push(entry("kind", s("number")));
    let decoded = decode_literal(&obj(es)).unwrap();
    assert_eq!(decoded.kind, LiteralKind::Bool);
}

#[test]
fn wrongly_typed_discriminator_fails() {
    let es = vec![entry("nodeType", Value::Int(7)), entry("id", Value::Int(1))];
    assert_eq!(
        decode_statement(&obj(es)),
        Err(DecodeError::MalformedField { kind: NodeKind::Statement, field: FieldName::NodeType })
    );
}

#[test]
fn wrongly_typed_statements_field_fails() {
    let mut es = base("Block", 1, "0:4:0");
    es.push(entry("statements", s("not an array")));
    assert_eq!(
        decode_block(&obj(es)),
        Err(DecodeError::MalformedField { kind: NodeKind::Block, field: FieldName::Statements })
    );
}

#[test]
fn wrongly_typed_argument_types_fails() {
    let mut es = base("Literal", 1, "0:1:0");
    es.push(entry("argumentTypes", Value::Bool(true)));
    assert_eq!(
        decode_literal(&obj(es)),
        Err(DecodeError::MalformedField {
            kind: NodeKind::Literal,
            field: FieldName::ArgumentTypes,
        })
    );
}

#[test]
fn unknown_literal_kind_tag_fails() {
    let mut es = base("Literal", 1, "0:1:0");
    es.push(entry("kind", s("hexNumber")));
    assert_eq!(
        decode_literal(&obj(es)),
        Err(DecodeError::MalformedField { kind: NodeKind::Literal, field: FieldName::Kind })
    );
}

#[test]
fn missing_literal_kind_fails() {
    let es = base("Literal", 1, "0:1:0");
    assert_eq!(
        decode_literal(&obj(es)),
        Err(DecodeError::MissingField { kind: NodeKind::Literal, field: FieldName::Kind })
    );
}

#[test]
fn function_call_decodes_through_expression_union() {
    let mut callee = base("Literal", 2, "0:1:0");
    callee.push(entry("kind", s("number")));
    let mut arg = base("Literal", 3, "2:1:0");
    arg.push(entry("kind", s("bool")));
    let mut es = base("FunctionCall", 1, "0:3:0");
    es.push(entry("expression", obj(callee)));
    es.push(entry("arguments", Value::Arr(vec![obj(arg)])));
    let decoded = decode_expression(&obj(es)).unwrap();
    match &decoded {
        Expression::FunctionCall(fc) => {
            assert_eq!(fc.id, 1);
            assert_eq!(fc.arguments.len(), 1);
        },
        _ => panic!("decoded to the wrong variant"),
    }
    let kids = decoded.iter();
    assert_eq!(kids.len(), 2);
    assert_eq!(kids[0].id(), 2);
    assert_eq!(kids[1].id(), 3);
}

#[test]
fn missing_call_expression_fails() {
    let es = base("FunctionCall", 1, "0:3:0");
    assert_eq!(
        decode_expression(&obj(es)),
        Err(DecodeError::MissingField {
            kind: NodeKind::FunctionCall,
            field: FieldName::Expression,
        })
    );
}

#[test]
fn encoded_statement_carries_its_tag() {
    let st = Statement::Return(Box::new(Return {
        id: 3,
        src: loc(3),
        documentation: None,
        expression: None,
    }));
    match encode_statement(&st) {
        Value::Obj(entries) => {
            assert_eq!(entries[0].key, "nodeType");
            assert_eq!(entries[0].value, Value::Str("Return".to_owned()));
        },
        _ => panic!("encoded node is not an object"),
    }
}
