//! Decoding node values from a structured document.
//!
//! Decoding is a one-shot pure function from a document fragment to a node
//! value or a failure. Every node object must carry an integer `id` and a
//! `src` location string; a union is discriminated by its `nodeType` field,
//! and a tag outside the closed list fails decoding rather than defaulting.
//! Absent boolean flags decode to `false`, absent or null collections to
//! empty, absent optional fields to absent; unrecognized extra fields are
//! ignored. Each decoder's contract equates its result with a specification
//! function over the mathematical model of the node, so success and every
//! failure are pinned down exactly.

use vstd::prelude::*;

use crate::ast::Block;
use crate::ast::Expression;
use crate::ast::ExpressionStatement;
use crate::ast::FunctionCall;
use crate::ast::Literal;
use crate::ast::LiteralKind;
use crate::ast::Return;
use crate::ast::Statement;
use crate::ast::TypeDescriptions;
use crate::document::get_field;
use crate::document::spec_get;
use crate::document::str_eq;
use crate::document::Entry;
use crate::document::Value;
use crate::location::parse_location;
use crate::location::spec_parse_location;
use crate::location::SourceLocation;

verus! {

broadcast use vstd::seq::axiom_seq_index_decreases;

/// The node kinds and unions a decode failure can name.
#[derive(Debug, Clone, Copy, PartialEq, Eq)]
pub enum NodeKind {
    Literal,
    FunctionCall,
    Expression,
    ExpressionStatement,
    Return,
    Block,
    Statement,
}

/// The field names a decode failure can name.
#[derive(Debug, Clone, Copy, PartialEq, Eq)]
pub enum FieldName {
    Id,
    Src,
    NodeType,
    Documentation,
    Statements,
    Expression,
    Arguments,
    ArgumentTypes,
    IsConstant,
    IsLValue,
    IsPure,
    LValueRequested,
    TypeDescriptions,
    TypeIdentifier,
    TypeString,
    Kind,
    Value,
}

/// Why a document fragment failed to decode. Every failure names the node
/// kind it arose in; an unknown discriminator also carries the raw tag.
#[derive(Debug, PartialEq, Eq)]
pub enum DecodeError {
    /// The fragment for this node is not an object.
    NotAnObject { kind: NodeKind },
    /// A required field is absent.
    MissingField { kind: NodeKind, field: FieldName },
    /// A field is present but has the wrong shape.
    MalformedField { kind: NodeKind, field: FieldName },
    /// The `src` string does not parse as a location.
    MalformedLocation { kind: NodeKind },
    /// A union's tag names no kind in its closed list.
    UnknownDiscriminator { group: NodeKind, tag: String },
}

/// The mathematical model of a decode failure: as [`DecodeError`], with the
/// raw tag as a character sequence.
pub ghost enum DecodeErrorV {
    NotAnObject { kind: NodeKind },
    MissingField { kind: NodeKind, field: FieldName },
    MalformedField { kind: NodeKind, field: FieldName },
    MalformedLocation { kind: NodeKind },
    UnknownDiscriminator { group: NodeKind, tag: Seq<char> },
}

/// The model of a [`DecodeError`].
pub open spec fn err_view(e: DecodeError) -> DecodeErrorV {
    match e {
        DecodeError::NotAnObject { kind } => DecodeErrorV::NotAnObject { kind },
        DecodeError::MissingField { kind, field } => DecodeErrorV::MissingField { kind, field },
        DecodeError::MalformedField { kind, field } => DecodeErrorV::MalformedField {
            kind,
            field,
        },
        DecodeError::MalformedLocation { kind } => DecodeErrorV::MalformedLocation { kind },
        DecodeError::UnknownDiscriminator { group, tag } => DecodeErrorV::UnknownDiscriminator {
            group,
            tag: tag@,
        },
    }
}

/// The mathematical model of a type descriptor.
pub ghost struct TypeDescriptionsV {
    pub type_identifier: Option<Seq<char>>,
    pub type_string: Option<Seq<char>>,
}

/// The mathematical model of a literal expression.
pub ghost struct LiteralV {
    pub id: usize,
    pub src: SourceLocation,
    pub argument_types: Seq<TypeDescriptionsV>,
    pub is_constant: bool,
    pub is_l_value: bool,
    pub is_pure: bool,
    pub l_value_requested: bool,
    pub type_descriptions: TypeDescriptionsV,
    pub kind: LiteralKind,
    pub value: Option<Seq<char>>,
}

/// The mathematical model of a function call expression.
pub ghost struct FunctionCallV {
    pub id: usize,
    pub src: SourceLocation,
    pub argument_types: Seq<TypeDescriptionsV>,
    pub is_constant: bool,
    pub is_l_value: bool,
    pub is_pure: bool,
    pub l_value_requested: bool,
    pub type_descriptions: TypeDescriptionsV,
    pub expression: ExpressionV,
    pub arguments: Seq<ExpressionV>,
}

/// The mathematical model of an expression.
pub ghost enum ExpressionV {
    Literal(LiteralV),
    FunctionCall(Box<FunctionCallV>),
}

/// The mathematical model of an expression statement.
pub ghost struct ExpressionStatementV {
    pub id: usize,
    pub src: SourceLocation,
    pub documentation: Option<Seq<char>>,
    pub expression: ExpressionV,
}

/// The mathematical model of a return statement.
pub ghost struct ReturnV {
    pub id: usize,
    pub src: SourceLocation,
    pub documentation: Option<Seq<char>>,
    pub expression: Option<ExpressionV>,
}

/// The mathematical model of a block.
pub ghost struct BlockV {
    pub id: usize,
    pub src: SourceLocation,
    pub documentation: Option<Seq<char>>,
    pub statements: Seq<Option<StatementV>>,
}

/// The mathematical model of a statement.
pub ghost enum StatementV {
    Block(Box<BlockV>),
    ExpressionStatement(Box<ExpressionStatementV>),
    Return(Box<ReturnV>),
}

/// The model of an optional string.
pub open spec fn opt_str_view(o: Option<String>) -> Option<Seq<char>> {
    match o {
        Some(s) => Some(s@),
        None => None,
    }
}

/// The model of a type descriptor.
pub open spec fn td_view(t: TypeDescriptions) -> TypeDescriptionsV {
    TypeDescriptionsV {
        type_identifier: opt_str_view(t.type_identifier),
        type_string: opt_str_view(t.type_string),
    }
}

/// The model of a sequence of type descriptors.
pub open spec fn td_seq_view(s: Seq<TypeDescriptions>) -> Seq<TypeDescriptionsV> {
    s.map_values(|t: TypeDescriptions| td_view(t))
}

/// The model of a literal expression.
pub open spec fn literal_view(l: Literal) -> LiteralV {
    LiteralV {
        id: l.id,
        src: l.src,
        argument_types: td_seq_view(l.argument_types@),
        is_constant: l.is_constant,
        is_l_value: l.is_l_value,
        is_pure: l.is_pure,
        l_value_requested: l.l_value_requested,
        type_descriptions: td_view(l.type_descriptions),
        kind: l.kind,
        value: opt_str_view(l.value),
    }
}

/// The model of an expression.
pub open spec fn expr_view(e: Expression) -> ExpressionV
    decreases e,
{
    match e {
        Expression::Literal(n) => ExpressionV::Literal(literal_view(*n)),
        Expression::FunctionCall(n) => ExpressionV::FunctionCall(
            Box::new(function_call_view(*n)),
        ),
    }
}

/// The model of a sequence of expressions.
pub open spec fn expr_seq_view(s: Seq<Expression>) -> Seq<ExpressionV>
    decreases s,
{
    if s.len() == 0 {
        Seq::empty()
    } else {
        expr_seq_view(s.drop_last()).push(expr_view(s.last()))
    }
}

/// The model of a function call expression.
pub open spec fn function_call_view(f: FunctionCall) -> FunctionCallV
    decreases f,
{
    FunctionCallV {
        id: f.id,
        src: f.src,
        argument_types: td_seq_view(f.argument_types@),
        is_constant: f.is_constant,
        is_l_value: f.is_l_value,
        is_pure: f.is_pure,
        l_value_requested: f.l_value_requested,
        type_descriptions: td_view(f.type_descriptions),
        expression: expr_view(f.expression),
        arguments: expr_seq_view(f.arguments@),
    }
}

/// The model of an expression statement.
pub open spec fn expression_statement_view(s: ExpressionStatement) -> ExpressionStatementV {
    ExpressionStatementV {
        id: s.id,
        src: s.src,
        documentation: opt_str_view(s.documentation),
        expression: expr_view(s.expression),
    }
}

/// The model of a return statement.
pub open spec fn return_view(r: Return) -> ReturnV {
    ReturnV {
        id: r.id,
        src: r.src,
        documentation: opt_str_view(r.documentation),
        expression: match r.expression {
            Some(e) => Some(expr_view(e)),
            None => None,
        },
    }
}

/// The model of a statement.
pub open spec fn stmt_view(s: Statement) -> StatementV
    decreases s,
{
    match s {
        Statement::Block(n) => StatementV::Block(Box::new(block_view(*n))),
        Statement::ExpressionStatement(n) => StatementV::ExpressionStatement(
            Box::new(expression_statement_view(*n)),
        ),
        Statement::Return(n) => StatementV::Return(Box::new(return_view(*n))),
    }
}

/// The model of a sequence of possibly absent statements.
pub open spec fn stmt_opt_seq_view(s: Seq<Option<Statement>>) -> Seq<Option<StatementV>>
    decreases s,
{
    if s.len() == 0 {
        Seq::empty()
    } else {
        stmt_opt_seq_view(s.drop_last()).push(
            match s.last() {
                Some(st) => Some(stmt_view(st)),
                None => None,
            },
        )
    }
}

/// The model of a block.
pub open spec fn block_view(b: Block) -> BlockV
    decreases b,
{
    BlockV {
        id: b.id,
        src: b.src,
        documentation: opt_str_view(b.documentation),
        statements: stmt_opt_seq_view(b.statements@),
    }
}

/// A value found by key lookup is structurally smaller than the entry list.
pub proof fn lemma_spec_get_smaller(es: Seq<Entry>, k: Seq<char>)
    ensures
        spec_get(es, k) matches Some(x) ==> decreases_to!(es => x),
    decreases es.len(),
{
    if es.len() > 0 {
        if es[0].key@ == k {
            assert(decreases_to!(es => es[0]));
            assert(decreases_to!(es[0] => es[0].value));
        } else {
            lemma_spec_get_smaller(es.drop_first(), k);
            assert(es.drop_first() =~= es.subrange(1, es.len() as int));
            assert(decreases_to!(es => es.subrange(1, es.len() as int)));
        }
    }
}

/// A field's value is structurally smaller than the object that holds it.
pub proof fn lemma_obj_field_smaller(v: Value, k: Seq<char>)
    ensures
        v matches Value::Obj(entries) ==> (spec_get(entries@, k) matches Some(x)
            ==> decreases_to!(v => x)),
{
    match v {
        Value::Obj(entries) => {
            assert(decreases_to!(v => entries));
            assert(decreases_to!(entries => entries@));
            lemma_spec_get_smaller(entries@, k);
        },
        _ => {},
    }
}

/// The required `id` and `src` of any node object.
pub open spec fn spec_node_data(es: Seq<Entry>, kind: NodeKind) -> Result<
    (usize, SourceLocation),
    DecodeErrorV,
> {
    match spec_get(es, "id"@) {
        None => Err(DecodeErrorV::MissingField { kind, field: FieldName::Id }),
        Some(Value::Int(n)) => if n <= usize::MAX {
            match spec_get(es, "src"@) {
                None => Err(DecodeErrorV::MissingField { kind, field: FieldName::Src }),
                Some(Value::Str(s)) => match spec_parse_location(s@) {
                    Some(loc) => Ok((n as usize, loc)),
                    None => Err(DecodeErrorV::MalformedLocation { kind }),
                },
                Some(_) => Err(DecodeErrorV::MalformedLocation { kind }),
            }
        } else {
            Err(DecodeErrorV::MalformedField { kind, field: FieldName::Id })
        },
        Some(_) => Err(DecodeErrorV::MalformedField { kind, field: FieldName::Id }),
    }
}

/// A boolean flag field: absent decodes to `false`.
pub open spec fn spec_flag(es: Seq<Entry>, kind: NodeKind, field: FieldName, k: Seq<char>) -> Result<
    bool,
    DecodeErrorV,
> {
    match spec_get(es, k) {
        None => Ok(false),
        Some(Value::Bool(b)) => Ok(b),
        Some(_) => Err(DecodeErrorV::MalformedField { kind, field }),
    }
}

/// An optional string field: absent or null decodes to `None`.
pub open spec fn spec_opt_string(
    es: Seq<Entry>,
    kind: NodeKind,
    field: FieldName,
    k: Seq<char>,
) -> Result<Option<Seq<char>>, DecodeErrorV> {
    match spec_get(es, k) {
        None => Ok(None),
        Some(Value::Null) => Ok(None),
        Some(Value::Str(s)) => Ok(Some(s@)),
        Some(_) => Err(DecodeErrorV::MalformedField { kind, field }),
    }
}

/// A type descriptor object.
pub open spec fn spec_td(v: Value, kind: NodeKind) -> Result<TypeDescriptionsV, DecodeErrorV> {
    match v {
        Value::Obj(entries) => match spec_opt_string(
            entries@,
            kind,
            FieldName::TypeIdentifier,
            "typeIdentifier"@,
        ) {
            Err(e) => Err(e),
            Ok(ti) => match spec_opt_string(
                entries@,
                kind,
                FieldName::TypeString,
                "typeString"@,
            ) {
                Err(e) => Err(e),
                Ok(ts) => Ok(TypeDescriptionsV { type_identifier: ti, type_string: ts }),
            },
        },
        _ => Err(DecodeErrorV::MalformedField { kind, field: FieldName::TypeDescriptions }),
    }
}

/// The `typeDescriptions` field: absent or null decodes to an empty
/// descriptor.
pub open spec fn spec_td_field(es: Seq<Entry>, kind: NodeKind) -> Result<
    TypeDescriptionsV,
    DecodeErrorV,
> {
    match spec_get(es, "typeDescriptions"@) {
        None => Ok(TypeDescriptionsV { type_identifier: None, type_string: None }),
        Some(Value::Null) => Ok(TypeDescriptionsV { type_identifier: None, type_string: None }),
        Some(v) => spec_td(v, kind),
    }
}

/// A sequence of type descriptors; the first failing element's error wins.
pub open spec fn spec_td_seq(s: Seq<Value>, kind: NodeKind) -> Result<
    Seq<TypeDescriptionsV>,
    DecodeErrorV,
>
    decreases s,
{
    if s.len() == 0 {
        Ok(Seq::empty())
    } else {
        match (spec_td_seq(s.drop_last(), kind), spec_td(s.last(), kind)) {
            (Err(e), _) => Err(e),
            (Ok(_), Err(e)) => Err(e),
            (Ok(p), Ok(t)) => Ok(p.push(t)),
        }
    }
}

/// The `argumentTypes` field: absent or null decodes to empty.
pub open spec fn spec_argument_types(es: Seq<Entry>, kind: NodeKind) -> Result<
    Seq<TypeDescriptionsV>,
    DecodeErrorV,
> {
    match spec_get(es, "argumentTypes"@) {
        None => Ok(Seq::empty()),
        Some(Value::Null) => Ok(Seq::empty()),
        Some(Value::Arr(vs)) => spec_td_seq(vs@, kind),
        Some(_) => Err(DecodeErrorV::MalformedField { kind, field: FieldName::ArgumentTypes }),
    }
}

/// The required `kind` field of a literal, a closed list of three tags.
pub open spec fn spec_literal_kind(es: Seq<Entry>) -> Result<LiteralKind, DecodeErrorV> {
    match spec_get(es, "kind"@) {
        None => Err(
            DecodeErrorV::MissingField { kind: NodeKind::Literal, field: FieldName::Kind },
        ),
        Some(Value::Str(s)) => if s@ == "bool"@ {
            Ok(LiteralKind::Bool)
        } else if s@ == "number"@ {
            Ok(LiteralKind::Number)
        } else if s@ == "string"@ {
            Ok(LiteralKind::Str)
        } else {
            Err(DecodeErrorV::MalformedField { kind: NodeKind::Literal, field: FieldName::Kind })
        },
        Some(_) => Err(
            DecodeErrorV::MalformedField { kind: NodeKind::Literal, field: FieldName::Kind },
        ),
    }
}

/// What a literal node object decodes to.
pub open spec fn spec_decode_literal(v: Value) -> Result<LiteralV, DecodeErrorV> {
    match v {
        Value::Obj(entries) => match spec_node_data(entries@, NodeKind::Literal) {
            Err(e) => Err(e),
            Ok(data) => match spec_argument_types(entries@, NodeKind::Literal) {
                Err(e) => Err(e),
                Ok(ats) => match spec_flag(
                    entries@,
                    NodeKind::Literal,
                    FieldName::IsConstant,
                    "isConstant"@,
                ) {
                    Err(e) => Err(e),
                    Ok(c) => match spec_flag(
                        entries@,
                        NodeKind::Literal,
                        FieldName::IsLValue,
                        "isLValue"@,
                    ) {
                        Err(e) => Err(e),
                        Ok(lv) => match spec_flag(
                            entries@,
                            NodeKind::Literal,
                            FieldName::IsPure,
                            "isPure"@,
                        ) {
                            Err(e) => Err(e),
                            Ok(p) => match spec_flag(
                                entries@,
                                NodeKind::Literal,
                                FieldName::LValueRequested,
                                "lValueRequested"@,
                            ) {
                                Err(e) => Err(e),
                                Ok(lvr) => match spec_td_field(entries@, NodeKind::Literal) {
                                    Err(e) => Err(e),
                                    Ok(td) => match spec_literal_kind(entries@) {
                                        Err(e) => Err(e),
                                        Ok(lk) => match spec_opt_string(
                                            entries@,
                                            NodeKind::Literal,
                                            FieldName::Value,
                                            "value"@,
                                        ) {
                                            Err(e) => Err(e),
                                            Ok(val) => Ok(
                                                LiteralV {
                                                    id: data.0,
                                                    src: data.1,
                                                    argument_types: ats,
                                                    is_constant: c,
                                                    is_l_value: lv,
                                                    is_pure: p,
                                                    l_value_requested: lvr,
                                                    type_descriptions: td,
                                                    kind: lk,
                                                    value: val,
                                                },
                                            ),
                                        },
                                    },
                                },
                            },
                        },
                    },
                },
            },
        },
        _ => Err(DecodeErrorV::NotAnObject { kind: NodeKind::Literal }),
    }
}

/// What an expression object decodes to: its `nodeType` tag picks the
/// concrete kind out of the closed list; an unknown tag fails.
pub open spec fn spec_decode_expression(v: Value) -> Result<ExpressionV, DecodeErrorV>
    decreases v, 3int,
{
    match v {
        Value::Obj(entries) => match spec_get(entries@, "nodeType"@) {
            None => Err(
                DecodeErrorV::MissingField { kind: NodeKind::Expression, field: FieldName::NodeType },
            ),
            Some(Value::Str(s)) => if s@ == "Literal"@ {
                match spec_decode_literal(v) {
                    Ok(l) => Ok(ExpressionV::Literal(l)),
                    Err(e) => Err(e),
                }
            } else if s@ == "FunctionCall"@ {
                match spec_decode_function_call(v) {
                    Ok(f) => Ok(ExpressionV::FunctionCall(Box::new(f))),
                    Err(e) => Err(e),
                }
            } else {
                Err(DecodeErrorV::UnknownDiscriminator { group: NodeKind::Expression, tag: s@ })
            },
            Some(_) => Err(
                DecodeErrorV::MalformedField {
                    kind: NodeKind::Expression,
                    field: FieldName::NodeType,
                },
            ),
        },
        _ => Err(DecodeErrorV::NotAnObject { kind: NodeKind::Expression }),
    }
}

/// What a sequence of expression fragments decodes to; the first failing
/// element's error wins.
pub open spec fn spec_expr_seq(s: Seq<Value>) -> Result<Seq<ExpressionV>, DecodeErrorV>
    decreases s, 4int,
{
    if s.len() == 0 {
        Ok(Seq::empty())
    } else {
        match (spec_expr_seq(s.drop_last()), spec_decode_expression(s.last())) {
            (Err(e), _) => Err(e),
            (Ok(_), Err(e)) => Err(e),
            (Ok(p), Ok(x)) => Ok(p.push(x)),
        }
    }
}

/// What a function call object decodes to.
pub open spec fn spec_decode_function_call(v: Value) -> Result<FunctionCallV, DecodeErrorV>
    decreases v, 2int,
    via spec_decode_function_call_dec
{
    match v {
        Value::Obj(entries) => match spec_node_data(entries@, NodeKind::FunctionCall) {
            Err(e) => Err(e),
            Ok(data) => match spec_argument_types(entries@, NodeKind::FunctionCall) {
                Err(e) => Err(e),
                Ok(ats) => match spec_flag(
                    entries@,
                    NodeKind::FunctionCall,
                    FieldName::IsConstant,
                    "isConstant"@,
                ) {
                    Err(e) => Err(e),
                    Ok(c) => match spec_flag(
                        entries@,
                        NodeKind::FunctionCall,
                        FieldName::IsLValue,
                        "isLValue"@,
                    ) {
                        Err(e) => Err(e),
                        Ok(lv) => match spec_flag(
                            entries@,
                            NodeKind::FunctionCall,
                            FieldName::IsPure,
                            "isPure"@,
                        ) {
                            Err(e) => Err(e),
                            Ok(p) => match spec_flag(
                                entries@,
                                NodeKind::FunctionCall,
                                FieldName::LValueRequested,
                                "lValueRequested"@,
                            ) {
                                Err(e) => Err(e),
                                Ok(lvr) => match spec_td_field(entries@, NodeKind::FunctionCall) {
                                    Err(e) => Err(e),
                                    Ok(td) => match spec_get(entries@, "expression"@) {
                                        None => Err(
                                            DecodeErrorV::MissingField {
                                                kind: NodeKind::FunctionCall,
                                                field: FieldName::Expression,
                                            },
                                        ),
                                        Some(child) => match spec_decode_expression(child) {
                                            Err(e) => Err(e),
                                            Ok(expr) => match spec_fc_arguments(v) {
                                                Err(e) => Err(e),
                                                Ok(args) => Ok(
                                                    FunctionCallV {
                                                        id: data.0,
                                                        src: data.1,
                                                        argument_types: ats,
                                                        is_constant: c,
                                                        is_l_value: lv,
                                                        is_pure: p,
                                                        l_value_requested: lvr,
                                                        type_descriptions: td,
                                                        expression: expr,
                                                        arguments: args,
                                                    },
                                                ),
                                            },
                                        },
                                    },
                                },
                            },
                        },
                    },
                },
            },
        },
        _ => Err(DecodeErrorV::NotAnObject { kind: NodeKind::FunctionCall }),
    }
}

/// The `arguments` field of a function call object: absent or null decodes
/// to empty.
pub open spec fn spec_fc_arguments(v: Value) -> Result<Seq<ExpressionV>, DecodeErrorV>
    decreases v, 1int,
    via spec_fc_arguments_dec
{
    match v {
        Value::Obj(entries) => match spec_get(entries@, "arguments"@) {
            None => Ok(Seq::empty()),
            Some(Value::Null) => Ok(Seq::empty()),
            Some(Value::Arr(vs)) => spec_expr_seq(vs@),
            Some(_) => Err(
                DecodeErrorV::MalformedField {
                    kind: NodeKind::FunctionCall,
                    field: FieldName::Arguments,
                },
            ),
        },
        _ => Ok(Seq::empty()),
    }
}

#[via_fn]
proof fn spec_decode_function_call_dec(v: Value) {
    lemma_obj_field_smaller(v, "expression"@);
}

#[via_fn]
proof fn spec_fc_arguments_dec(v: Value) {
    lemma_obj_field_smaller(v, "arguments"@);
    match v {
        Value::Obj(entries) => {
            match spec_get(entries@, "arguments"@) {
                Some(av) => {
                    match av {
                        Value::Arr(vs) => {
                            assert(decreases_to!(av => vs));
                            assert(decreases_to!(vs => vs@));
                        },
                        _ => {},
                    }
                },
                None => {},
            }
        },
        _ => {},
    }
}

/// What a statement object decodes to: its `nodeType` tag picks the
/// concrete kind out of the closed list; an unknown tag fails.
pub open spec fn spec_decode_statement(v: Value) -> Result<StatementV, DecodeErrorV>
    decreases v, 3int,
{
    match v {
        Value::Obj(entries) => match spec_get(entries@, "nodeType"@) {
            None => Err(
                DecodeErrorV::MissingField { kind: NodeKind::Statement, field: FieldName::NodeType },
            ),
            Some(Value::Str(s)) => if s@ == "Block"@ {
                match spec_decode_block(v) {
                    Ok(b) => Ok(StatementV::Block(Box::new(b))),
                    Err(e) => Err(e),
                }
            } else if s@ == "ExpressionStatement"@ {
                match spec_decode_expression_statement(v) {
                    Ok(b) => Ok(StatementV::ExpressionStatement(Box::new(b))),
                    Err(e) => Err(e),
                }
            } else if s@ == "Return"@ {
                match spec_decode_return(v) {
                    Ok(b) => Ok(StatementV::Return(Box::new(b))),
                    Err(e) => Err(e),
                }
            } else {
                Err(DecodeErrorV::UnknownDiscriminator { group: NodeKind::Statement, tag: s@ })
            },
            Some(_) => Err(
                DecodeErrorV::MalformedField {
                    kind: NodeKind::Statement,
                    field: FieldName::NodeType,
                },
            ),
        },
        _ => Err(DecodeErrorV::NotAnObject { kind: NodeKind::Statement }),
    }
}

/// What a sequence of possibly absent statement fragments decodes to: a
/// null entry decodes to an absent entry; the first failing element's
/// error wins.
pub open spec fn spec_stmt_opt_seq(s: Seq<Value>) -> Result<Seq<Option<StatementV>>, DecodeErrorV>
    decreases s, 4int,
{
    if s.len() == 0 {
        Ok(Seq::empty())
    } else {
        match (spec_stmt_opt_seq(s.drop_last()), spec_stmt_opt(s.last())) {
            (Err(e), _) => Err(e),
            (Ok(_), Err(e)) => Err(e),
            (Ok(p), Ok(x)) => Ok(p.push(x)),
        }
    }
}

/// What one possibly absent statement fragment decodes to.
pub open spec fn spec_stmt_opt(v: Value) -> Result<Option<StatementV>, DecodeErrorV>
    decreases v, 4int,
{
    match v {
        Value::Null => Ok(None),
        _ => match spec_decode_statement(v) {
            Ok(st) => Ok(Some(st)),
            Err(e) => Err(e),
        },
    }
}

/// What a block object decodes to.
pub open spec fn spec_decode_block(v: Value) -> Result<BlockV, DecodeErrorV>
    decreases v, 2int,
    via spec_decode_block_dec
{
    match v {
        Value::Obj(entries) => match spec_node_data(entries@, NodeKind::Block) {
            Err(e) => Err(e),
            Ok(data) => match spec_opt_string(
                entries@,
                NodeKind::Block,
                FieldName::Documentation,
                "documentation"@,
            ) {
                Err(e) => Err(e),
                Ok(doc) => match spec_get(entries@, "statements"@) {
                    None => Ok(
                        BlockV { id: data.0, src: data.1, documentation: doc, statements: Seq::empty() },
                    ),
                    Some(Value::Null) => Ok(
                        BlockV { id: data.0, src: data.1, documentation: doc, statements: Seq::empty() },
                    ),
                    Some(Value::Arr(vs)) => match spec_stmt_opt_seq(vs@) {
                        Err(e) => Err(e),
                        Ok(sts) => Ok(
                            BlockV { id: data.0, src: data.1, documentation: doc, statements: sts },
                        ),
                    },
                    Some(_) => Err(
                        DecodeErrorV::MalformedField {
                            kind: NodeKind::Block,
                            field: FieldName::Statements,
                        },
                    ),
                },
            },
        },
        _ => Err(DecodeErrorV::NotAnObject { kind: NodeKind::Block }),
    }
}

#[via_fn]
proof fn spec_decode_block_dec(v: Value) {
    match v {
        Value::Obj(entries) => {
            lemma_obj_field_smaller(v, "statements"@);
            match spec_get(entries@, "statements"@) {
                Some(av) => {
                    match av {
                        Value::Arr(vs) => {
                            assert(decreases_to!(av => vs));
                            assert(decreases_to!(vs => vs@));
                        },
                        _ => {},
                    }
                },
                None => {},
            }
        },
        _ => {},
    }
}

/// What an expression statement object decodes to.
pub open spec fn spec_decode_expression_statement(v: Value) -> Result<
    ExpressionStatementV,
    DecodeErrorV,
>
    decreases v, 2int,
    via spec_decode_expression_statement_dec
{
    match v {
        Value::Obj(entries) => match spec_node_data(entries@, NodeKind::ExpressionStatement) {
            Err(e) => Err(e),
            Ok(data) => match spec_opt_string(
                entries@,
                NodeKind::ExpressionStatement,
                FieldName::Documentation,
                "documentation"@,
            ) {
                Err(e) => Err(e),
                Ok(doc) => match spec_get(entries@, "expression"@) {
                    None => Err(
                        DecodeErrorV::MissingField {
                            kind: NodeKind::ExpressionStatement,
                            field: FieldName::Expression,
                        },
                    ),
                    Some(child) => match spec_decode_expression(child) {
                        Err(e) => Err(e),
                        Ok(expr) => Ok(
                            ExpressionStatementV {
                                id: data.0,
                                src: data.1,
                                documentation: doc,
                                expression: expr,
                            },
                        ),
                    },
                },
            },
        },
        _ => Err(DecodeErrorV::NotAnObject { kind: NodeKind::ExpressionStatement }),
    }
}

#[via_fn]
proof fn spec_decode_expression_statement_dec(v: Value) {
    lemma_obj_field_smaller(v, "expression"@);
}

/// What a return object decodes to: its expression may be absent or null.
pub open spec fn spec_decode_return(v: Value) -> Result<ReturnV, DecodeErrorV>
    decreases v, 2int,
    via spec_decode_return_dec
{
    match v {
        Value::Obj(entries) => match spec_node_data(entries@, NodeKind::Return) {
            Err(e) => Err(e),
            Ok(data) => match spec_opt_string(
                entries@,
                NodeKind::Return,
                FieldName::Documentation,
                "documentation"@,
            ) {
                Err(e) => Err(e),
                Ok(doc) => match spec_get(entries@, "expression"@) {
                    None => Ok(
                        ReturnV { id: data.0, src: data.1, documentation: doc, expression: None },
                    ),
                    Some(Value::Null) => Ok(
                        ReturnV { id: data.0, src: data.1, documentation: doc, expression: None },
                    ),
                    Some(child) => match spec_decode_expression(child) {
                        Err(e) => Err(e),
                        Ok(expr) => Ok(
                            ReturnV {
                                id: data.0,
                                src: data.1,
                                documentation: doc,
                                expression: Some(expr),
                            },
                        ),
                    },
                },
            },
        },
        _ => Err(DecodeErrorV::NotAnObject { kind: NodeKind::Return }),
    }
}

#[via_fn]
proof fn spec_decode_return_dec(v: Value) {
    lemma_obj_field_smaller(v, "expression"@);
}

/// The model of a boolean decode result.
pub open spec fn bool_res_view(r: Result<bool, DecodeError>) -> Result<bool, DecodeErrorV> {
    match r {
        Ok(b) => Ok(b),
        Err(e) => Err(err_view(e)),
    }
}

/// The model of an optional-string decode result.
pub open spec fn opt_str_res_view(r: Result<Option<String>, DecodeError>) -> Result<
    Option<Seq<char>>,
    DecodeErrorV,
> {
    match r {
        Ok(o) => Ok(opt_str_view(o)),
        Err(e) => Err(err_view(e)),
    }
}

/// The model of an identity-and-location decode result.
pub open spec fn data_res_view(r: Result<(usize, SourceLocation), DecodeError>) -> Result<
    (usize, SourceLocation),
    DecodeErrorV,
> {
    match r {
        Ok(d) => Ok(d),
        Err(e) => Err(err_view(e)),
    }
}

/// The model of a type-descriptor decode result.
pub open spec fn td_res_view(r: Result<TypeDescriptions, DecodeError>) -> Result<
    TypeDescriptionsV,
    DecodeErrorV,
> {
    match r {
        Ok(t) => Ok(td_view(t)),
        Err(e) => Err(err_view(e)),
    }
}

/// The model of a type-descriptor-collection decode result.
pub open spec fn tds_res_view(r: Result<Vec<TypeDescriptions>, DecodeError>) -> Result<
    Seq<TypeDescriptionsV>,
    DecodeErrorV,
> {
    match r {
        Ok(t) => Ok(td_seq_view(t@)),
        Err(e) => Err(err_view(e)),
    }
}

/// The model of a literal-kind decode result.
pub open spec fn kind_res_view(r: Result<LiteralKind, DecodeError>) -> Result<
    LiteralKind,
    DecodeErrorV,
> {
    match r {
        Ok(k) => Ok(k),
        Err(e) => Err(err_view(e)),
    }
}

/// The model of a literal decode result.
pub open spec fn lit_res_view(r: Result<Literal, DecodeError>) -> Result<LiteralV, DecodeErrorV> {
    match r {
        Ok(l) => Ok(literal_view(l)),
        Err(e) => Err(err_view(e)),
    }
}

/// The model of an expression decode result.
pub open spec fn expr_res_view(r: Result<Expression, DecodeError>) -> Result<
    ExpressionV,
    DecodeErrorV,
> {
    match r {
        Ok(x) => Ok(expr_view(x)),
        Err(e) => Err(err_view(e)),
    }
}

/// The model of a function-call decode result.
pub open spec fn fc_res_view(r: Result<FunctionCall, DecodeError>) -> Result<
    FunctionCallV,
    DecodeErrorV,
> {
    match r {
        Ok(f) => Ok(function_call_view(f)),
        Err(e) => Err(err_view(e)),
    }
}

/// The model of a statement decode result.
pub open spec fn stmt_res_view(r: Result<Statement, DecodeError>) -> Result<
    StatementV,
    DecodeErrorV,
> {
    match r {
        Ok(s) => Ok(stmt_view(s)),
        Err(e) => Err(err_view(e)),
    }
}

/// The model of a block decode result.
pub open spec fn block_res_view(r: Result<Block, DecodeError>) -> Result<BlockV, DecodeErrorV> {
    match r {
        Ok(b) => Ok(block_view(b)),
        Err(e) => Err(err_view(e)),
    }
}

/// The model of an expression-statement decode result.
pub open spec fn expr_stmt_res_view(r: Result<ExpressionStatement, DecodeError>) -> Result<
    ExpressionStatementV,
    DecodeErrorV,
> {
    match r {
        Ok(b) => Ok(expression_statement_view(b)),
        Err(e) => Err(err_view(e)),
    }
}

/// The model of a return-statement decode result.
pub open spec fn ret_res_view(r: Result<Return, DecodeError>) -> Result<ReturnV, DecodeErrorV> {
    match r {
        Ok(b) => Ok(return_view(b)),
        Err(e) => Err(err_view(e)),
    }
}

/// Once a prefix of a descriptor collection fails, the whole collection
/// fails with the same error.
proof fn lemma_td_seq_err(s: Seq<Value>, kind: NodeKind, i: int)
    requires
        0 <= i <= s.len(),
        spec_td_seq(s.take(i), kind) is Err,
    ensures
        spec_td_seq(s, kind) == spec_td_seq(s.take(i), kind),
    decreases s.len() - i,
{
    if i < s.len() {
        assert(s.take(i + 1).drop_last() =~= s.take(i));
        lemma_td_seq_err(s, kind, i + 1);
    } else {
        assert(s.take(i) =~= s);
    }
}

/// Once a prefix of an expression collection fails, the whole collection
/// fails with the same error.
proof fn lemma_expr_seq_err(s: Seq<Value>, i: int)
    requires
        0 <= i <= s.len(),
        spec_expr_seq(s.take(i)) is Err,
    ensures
        spec_expr_seq(s) == spec_expr_seq(s.take(i)),
    decreases s.len() - i,
{
    if i < s.len() {
        assert(s.take(i + 1).drop_last() =~= s.take(i));
        lemma_expr_seq_err(s, i + 1);
    } else {
        assert(s.take(i) =~= s);
    }
}

/// Once a prefix of a statement collection fails, the whole collection
/// fails with the same error.
proof fn lemma_stmt_opt_seq_err(s: Seq<Value>, i: int)
    requires
        0 <= i <= s.len(),
        spec_stmt_opt_seq(s.take(i)) is Err,
    ensures
        spec_stmt_opt_seq(s) == spec_stmt_opt_seq(s.take(i)),
    decreases s.len() - i,
{
    if i < s.len() {
        assert(s.take(i + 1).drop_last() =~= s.take(i));
        lemma_stmt_opt_seq_err(s, i + 1);
    } else {
        assert(s.take(i) =~= s);
    }
}

/// Decode the required `id` and `src` of a node object.
pub fn decode_node_data(entries: &Vec<Entry>, kind: NodeKind) -> (r: Result<
    (usize, SourceLocation),
    DecodeError,
>)
    ensures
        data_res_view(r) == spec_node_data(entries@, kind),
{
    match get_field(entries, "id") {
        None => Err(DecodeError::MissingField { kind, field: FieldName::Id }),
        Some(Value::Int(n)) => {
            if *n <= usize::MAX as u64 {
                match get_field(entries, "src") {
                    None => Err(DecodeError::MissingField { kind, field: FieldName::Src }),
                    Some(Value::Str(s)) => match parse_location(s.as_str()) {
                        Some(loc) => Ok((*n as usize, loc)),
                        None => Err(DecodeError::MalformedLocation { kind }),
                    },
                    Some(_) => Err(DecodeError::MalformedLocation { kind }),
                }
            } else {
                Err(DecodeError::MalformedField { kind, field: FieldName::Id })
            }
        },
        Some(_) => Err(DecodeError::MalformedField { kind, field: FieldName::Id }),
    }
}

/// Decode a boolean flag field; absent means `false`.
pub fn decode_flag(entries: &Vec<Entry>, kind: NodeKind, field: FieldName, k: &str) -> (r: Result<
    bool,
    DecodeError,
>)
    ensures
        bool_res_view(r) == spec_flag(entries@, kind, field, k@),
{
    match get_field(entries, k) {
        None => Ok(false),
        Some(Value::Bool(b)) => Ok(*b),
        Some(_) => Err(DecodeError::MalformedField { kind, field }),
    }
}

/// Decode an optional string field; absent or null means `None`.
pub fn decode_opt_string(
    entries: &Vec<Entry>,
    kind: NodeKind,
    field: FieldName,
    k: &str,
) -> (r: Result<Option<String>, DecodeError>)
    ensures
        opt_str_res_view(r) == spec_opt_string(entries@, kind, field, k@),
{
    match get_field(entries, k) {
        None => Ok(None),
        Some(Value::Null) => Ok(None),
        Some(Value::Str(s)) => Ok(Some(s.clone())),
        Some(_) => Err(DecodeError::MalformedField { kind, field }),
    }
}

/// Decode a type descriptor object.
pub fn decode_td(v: &Value, kind: NodeKind) -> (r: Result<TypeDescriptions, DecodeError>)
    ensures
        td_res_view(r) == spec_td(*v, kind),
{
    match v {
        Value::Obj(entries) => {
            match decode_opt_string(entries, kind, FieldName::TypeIdentifier, "typeIdentifier") {
                Err(e) => Err(e),
                Ok(ti) => match decode_opt_string(
                    entries,
                    kind,
                    FieldName::TypeString,
                    "typeString",
                ) {
                    Err(e) => Err(e),
                    Ok(ts) => Ok(TypeDescriptions { type_identifier: ti, type_string: ts }),
                },
            }
        },
        _ => Err(DecodeError::MalformedField { kind, field: FieldName::TypeDescriptions }),
    }
}

/// Decode the `typeDescriptions` field; absent or null means an empty
/// descriptor.
pub fn decode_td_field(entries: &Vec<Entry>, kind: NodeKind) -> (r: Result<
    TypeDescriptions,
    DecodeError,
>)
    ensures
        td_res_view(r) == spec_td_field(entries@, kind),
{
    match get_field(entries, "typeDescriptions") {
        None => Ok(TypeDescriptions { type_identifier: None, type_string: None }),
        Some(Value::Null) => Ok(TypeDescriptions { type_identifier: None, type_string: None }),
        Some(v) => decode_td(v, kind),
    }
}

/// Decode the `argumentTypes` field; absent or null means empty.
pub fn decode_argument_types(entries: &Vec<Entry>, kind: NodeKind) -> (r: Result<
    Vec<TypeDescriptions>,
    DecodeError,
>)
    ensures
        tds_res_view(r) == spec_argument_types(entries@, kind),
{
    match get_field(entries, "argumentTypes") {
        None => {
            let out: Vec<TypeDescriptions> = Vec::new();
            proof {
                assert(td_seq_view(out@) =~= Seq::<TypeDescriptionsV>::empty());
            }
            Ok(out)
        },
        Some(av) => match av {
        Value::Null => {
            let out: Vec<TypeDescriptions> = Vec::new();
            proof {
                assert(td_seq_view(out@) =~= Seq::<TypeDescriptionsV>::empty());
            }
            Ok(out)
        },
        Value::Arr(vs) => {
            let ghost s = vs@;
            let mut out: Vec<TypeDescriptions> = Vec::new();
            let mut i: usize = 0;
            proof {
                assert(s.take(0) =~= Seq::<Value>::empty());
                assert(td_seq_view(out@) =~= Seq::<TypeDescriptionsV>::empty());
            }
            while i < vs.len()
                invariant
                    i <= s.len(),
                    s == vs@,
                    spec_argument_types(entries@, kind) == spec_td_seq(s, kind),
                    spec_td_seq(s.take(i as int), kind) == Ok::<_, DecodeErrorV>(td_seq_view(out@)),
                decreases s.len() - i,
            {
                proof {
                    assert(s.take(i + 1).drop_last() =~= s.take(i as int));
                    assert(s.take(i + 1).last() == s[i as int]);
                }
                match decode_td(&vs[i], kind) {
                    Err(e) => {
                        proof {
                            lemma_td_seq_err(s, kind, i + 1);
                        }
                        return Err(e);
                    },
                    Ok(t) => {
                        let ghost old_out = out@;
                        out.push(t);
                        proof {
                            assert(td_seq_view(out@) =~= td_seq_view(old_out).push(td_view(t)));
                        }
                    },
                }
                i += 1;
            }
            proof {
                assert(s.take(s.len() as int) =~= s);
            }
            Ok(out)
        },
        _ => Err(DecodeError::MalformedField { kind, field: FieldName::ArgumentTypes }),
        },
    }
}

/// Decode the required `kind` tag of a literal.
pub fn decode_literal_kind(entries: &Vec<Entry>) -> (r: Result<LiteralKind, DecodeError>)
    ensures
        kind_res_view(r) == spec_literal_kind(entries@),
{
    match get_field(entries, "kind") {
        None => Err(DecodeError::MissingField { kind: NodeKind::Literal, field: FieldName::Kind }),
        Some(Value::Str(s)) => {
            if str_eq(s.as_str(), "bool") {
                Ok(LiteralKind::Bool)
            } else if str_eq(s.as_str(), "number") {
                Ok(LiteralKind::Number)
            } else if str_eq(s.as_str(), "string") {
                Ok(LiteralKind::Str)
            } else {
                Err(DecodeError::MalformedField { kind: NodeKind::Literal, field: FieldName::Kind })
            }
        },
        Some(_) => Err(
            DecodeError::MalformedField { kind: NodeKind::Literal, field: FieldName::Kind },
        ),
    }
}

/// Decode a literal node object.
pub fn decode_literal(v: &Value) -> (r: Result<Literal, DecodeError>)
    ensures
        lit_res_view(r) == spec_decode_literal(*v),
{
    match v {
        Value::Obj(entries) => {
            let data = match decode_node_data(entries, NodeKind::Literal) {
                Err(e) => {
                    return Err(e);
                },
                Ok(d) => d,
            };
            let ats = match decode_argument_types(entries, NodeKind::Literal) {
                Err(e) => {
                    return Err(e);
                },
                Ok(a) => a,
            };
            let c = match decode_flag(entries, NodeKind::Literal, FieldName::IsConstant, "isConstant") {
                Err(e) => {
                    return Err(e);
                },
                Ok(b) => b,
            };
            let lv = match decode_flag(entries, NodeKind::Literal, FieldName::IsLValue, "isLValue") {
                Err(e) => {
                    return Err(e);
                },
                Ok(b) => b,
            };
            let p = match decode_flag(entries, NodeKind::Literal, FieldName::IsPure, "isPure") {
                Err(e) => {
                    return Err(e);
                },
                Ok(b) => b,
            };
            let lvr = match decode_flag(
                entries,
                NodeKind::Literal,
                FieldName::LValueRequested,
                "lValueRequested",
            ) {
                Err(e) => {
                    return Err(e);
                },
                Ok(b) => b,
            };
            let td = match decode_td_field(entries, NodeKind::Literal) {
                Err(e) => {
                    return Err(e);
                },
                Ok(t) => t,
            };
            let lk = match decode_literal_kind(entries) {
                Err(e) => {
                    return Err(e);
                },
                Ok(k) => k,
            };
            let val = match decode_opt_string(entries, NodeKind::Literal, FieldName::Value, "value") {
                Err(e) => {
                    return Err(e);
                },
                Ok(o) => o,
            };
            Ok(
                Literal {
                    id: data.0,
                    src: data.1,
                    argument_types: ats,
                    is_constant: c,
                    is_l_value: lv,
                    is_pure: p,
                    l_value_requested: lvr,
                    type_descriptions: td,
                    kind: lk,
                    value: val,
                },
            )
        },
        _ => Err(DecodeError::NotAnObject { kind: NodeKind::Literal }),
    }
}

/// Decode an expression: dispatch on the `nodeType` tag.
pub fn decode_expression(v: &Value) -> (r: Result<Expression, DecodeError>)
    ensures
        expr_res_view(r) == spec_decode_expression(*v),
    decreases v, 3int,
{
    match v {
        Value::Obj(entries) => match get_field(entries, "nodeType") {
            None => Err(
                DecodeError::MissingField { kind: NodeKind::Expression, field: FieldName::NodeType },
            ),
            Some(tv) => match tv {
                Value::Str(s) => {
                    if str_eq(s.as_str(), "Literal") {
                        match decode_literal(v) {
                            Ok(l) => Ok(Expression::Literal(Box::new(l))),
                            Err(e) => Err(e),
                        }
                    } else if str_eq(s.as_str(), "FunctionCall") {
                        match decode_function_call(v) {
                            Ok(f) => Ok(Expression::FunctionCall(Box::new(f))),
                            Err(e) => Err(e),
                        }
                    } else {
                        Err(
                            DecodeError::UnknownDiscriminator {
                                group: NodeKind::Expression,
                                tag: s.clone(),
                            },
                        )
                    }
                },
                _ => Err(
                    DecodeError::MalformedField {
                        kind: NodeKind::Expression,
                        field: FieldName::NodeType,
                    },
                ),
            },
        },
        _ => Err(DecodeError::NotAnObject { kind: NodeKind::Expression }),
    }
}

/// Decode a function call node object.
pub fn decode_function_call(v: &Value) -> (r: Result<FunctionCall, DecodeError>)
    ensures
        fc_res_view(r) == spec_decode_function_call(*v),
    decreases v, 2int,
{
    match v {
        Value::Obj(entries) => {
            let data = match decode_node_data(entries, NodeKind::FunctionCall) {
                Err(e) => {
                    return Err(e);
                },
                Ok(d) => d,
            };
            let ats = match decode_argument_types(entries, NodeKind::FunctionCall) {
                Err(e) => {
                    return Err(e);
                },
                Ok(a) => a,
            };
            let c = match decode_flag(
                entries,
                NodeKind::FunctionCall,
                FieldName::IsConstant,
                "isConstant",
            ) {
                Err(e) => {
                    return Err(e);
                },
                Ok(b) => b,
            };
            let lv = match decode_flag(
                entries,
                NodeKind::FunctionCall,
                FieldName::IsLValue,
                "isLValue",
            ) {
                Err(e) => {
                    return Err(e);
                },
                Ok(b) => b,
            };
            let p = match decode_flag(entries, NodeKind::FunctionCall, FieldName::IsPure, "isPure") {
                Err(e) => {
                    return Err(e);
                },
                Ok(b) => b,
            };
            let lvr = match decode_flag(
                entries,
                NodeKind::FunctionCall,
                FieldName::LValueRequested,
                "lValueRequested",
            ) {
                Err(e) => {
                    return Err(e);
                },
                Ok(b) => b,
            };
            let td = match decode_td_field(entries, NodeKind::FunctionCall) {
                Err(e) => {
                    return Err(e);
                },
                Ok(t) => t,
            };
            let expr = match get_field(entries, "expression") {
                None => {
                    return Err(
                        DecodeError::MissingField {
                            kind: NodeKind::FunctionCall,
                            field: FieldName::Expression,
                        },
                    );
                },
                Some(child) => {
                    proof {
                        lemma_obj_field_smaller(*v, "expression"@);
                    }
                    match decode_expression(child) {
                        Err(e) => {
                            return Err(e);
                        },
                        Ok(x) => x,
                    }
                },
            };
            let args = match decode_fc_arguments(v, entries) {
                Err(e) => {
                    return Err(e);
                },
                Ok(a) => a,
            };
            Ok(
                FunctionCall {
                    id: data.0,
                    src: data.1,
                    argument_types: ats,
                    is_constant: c,
                    is_l_value: lv,
                    is_pure: p,
                    l_value_requested: lvr,
                    type_descriptions: td,
                    expression: expr,
                    arguments: args,
                },
            )
        },
        _ => Err(DecodeError::NotAnObject { kind: NodeKind::FunctionCall }),
    }
}

/// Decode the `arguments` field of a function call object; absent or null
/// means empty. `entries` must be the object's own entry list.
fn decode_fc_arguments(v: &Value, entries: &Vec<Entry>) -> (r: Result<Vec<Expression>, DecodeError>)
    requires
        *v == Value::Obj(*entries),
    ensures
        (match r {
            Ok(es) => Ok::<_, DecodeErrorV>(expr_seq_view(es@)),
            Err(e) => Err(err_view(e)),
        }) == spec_fc_arguments(*v),
    decreases v, 1int,
{
    match get_field(entries, "arguments") {
        None => {
            let out: Vec<Expression> = Vec::new();
            proof {
                assert(expr_seq_view(out@) =~= Seq::<ExpressionV>::empty());
            }
            Ok(out)
        },
        Some(av) => match av {
            Value::Null => {
                let out: Vec<Expression> = Vec::new();
                proof {
                    assert(expr_seq_view(out@) =~= Seq::<ExpressionV>::empty());
                }
                Ok(out)
            },
            Value::Arr(vs) => {
                let ghost s = vs@;
                let mut out: Vec<Expression> = Vec::new();
                let mut i: usize = 0;
                proof {
                    assert(s.take(0) =~= Seq::<Value>::empty());
                    assert(expr_seq_view(out@) =~= Seq::<ExpressionV>::empty());
                }
                while i < vs.len()
                    invariant
                        i <= s.len(),
                        s == vs@,
                        *v == Value::Obj(*entries),
                        spec_get(entries@, "arguments"@) == Some(*av),
                        *av == Value::Arr(*vs),
                        spec_fc_arguments(*v) == spec_expr_seq(s),
                        spec_expr_seq(s.take(i as int)) == Ok::<_, DecodeErrorV>(
                            expr_seq_view(out@),
                        ),
                    decreases s.len() - i,
                {
                    proof {
                        assert(s.take(i + 1).drop_last() =~= s.take(i as int));
                        assert(s.take(i + 1).last() == s[i as int]);
                        assert(decreases_to!(*av => *vs));
                        assert(decreases_to!(*vs => vs@));
                        assert(decreases_to!(vs@ => vs@[i as int]));
                        lemma_obj_field_smaller(*v, "arguments"@);
                    }
                    match decode_expression(&vs[i]) {
                        Err(e) => {
                            proof {
                                lemma_expr_seq_err(s, i + 1);
                            }
                            return Err(e);
                        },
                        Ok(x) => {
                            let ghost old_out = out@;
                            out.push(x);
                            proof {
                                assert(out@.drop_last() =~= old_out);
                                assert(out@.last() == x);
                                assert(expr_seq_view(out@) == expr_seq_view(old_out).push(
                                    expr_view(x),
                                ));
                            }
                        },
                    }
                    i += 1;
                }
                proof {
                    assert(s.take(s.len() as int) =~= s);
                }
                Ok(out)
            },
            _ => Err(
                DecodeError::MalformedField {
                    kind: NodeKind::FunctionCall,
                    field: FieldName::Arguments,
                },
            ),
        },
    }
}

/// Decode a statement: dispatch on the `nodeType` tag.
pub fn decode_statement(v: &Value) -> (r: Result<Statement, DecodeError>)
    ensures
        stmt_res_view(r) == spec_decode_statement(*v),
    decreases v, 3int,
{
    match v {
        Value::Obj(entries) => match get_field(entries, "nodeType") {
            None => Err(
                DecodeError::MissingField { kind: NodeKind::Statement, field: FieldName::NodeType },
            ),
            Some(tv) => match tv {
                Value::Str(s) => {
                    if str_eq(s.as_str(), "Block") {
                        match decode_block(v) {
                            Ok(b) => Ok(Statement::Block(Box::new(b))),
                            Err(e) => Err(e),
                        }
                    } else if str_eq(s.as_str(), "ExpressionStatement") {
                        match decode_expression_statement(v) {
                            Ok(b) => Ok(Statement::ExpressionStatement(Box::new(b))),
                            Err(e) => Err(e),
                        }
                    } else if str_eq(s.as_str(), "Return") {
                        match decode_return(v) {
                            Ok(b) => Ok(Statement::Return(Box::new(b))),
                            Err(e) => Err(e),
                        }
                    } else {
                        Err(
                            DecodeError::UnknownDiscriminator {
                                group: NodeKind::Statement,
                                tag: s.clone(),
                            },
                        )
                    }
                },
                _ => Err(
                    DecodeError::MalformedField {
                        kind: NodeKind::Statement,
                        field: FieldName::NodeType,
                    },
                ),
            },
        },
        _ => Err(DecodeError::NotAnObject { kind: NodeKind::Statement }),
    }
}

/// Decode a block node object.
pub fn decode_block(v: &Value) -> (r: Result<Block, DecodeError>)
    ensures
        block_res_view(r) == spec_decode_block(*v),
    decreases v, 2int,
{
    match v {
        Value::Obj(entries) => {
            let data = match decode_node_data(entries, NodeKind::Block) {
                Err(e) => {
                    return Err(e);
                },
                Ok(d) => d,
            };
            let doc = match decode_opt_string(
                entries,
                NodeKind::Block,
                FieldName::Documentation,
                "documentation",
            ) {
                Err(e) => {
                    return Err(e);
                },
                Ok(o) => o,
            };
            match get_field(entries, "statements") {
                None => {
                    let sts: Vec<Option<Statement>> = Vec::new();
                    proof {
                        assert(stmt_opt_seq_view(sts@) =~= Seq::<Option<StatementV>>::empty());
                    }
                    Ok(Block { id: data.0, src: data.1, documentation: doc, statements: sts })
                },
                Some(av) => match av {
                    Value::Null => {
                        let sts: Vec<Option<Statement>> = Vec::new();
                        proof {
                            assert(stmt_opt_seq_view(sts@) =~= Seq::<Option<StatementV>>::empty());
                        }
                        Ok(Block { id: data.0, src: data.1, documentation: doc, statements: sts })
                    },
                    Value::Arr(vs) => {
                        let ghost s = vs@;
                        let mut out: Vec<Option<Statement>> = Vec::new();
                        let mut i: usize = 0;
                        proof {
                            assert(s.take(0) =~= Seq::<Value>::empty());
                            assert(stmt_opt_seq_view(out@) =~= Seq::<Option<StatementV>>::empty());
                        }
                        while i < vs.len()
                            invariant
                                i <= s.len(),
                                s == vs@,
                                *v == Value::Obj(*entries),
                                spec_node_data(entries@, NodeKind::Block) == Ok::<
                                    _,
                                    DecodeErrorV,
                                >((data.0, data.1)),
                                spec_opt_string(
                                    entries@,
                                    NodeKind::Block,
                                    FieldName::Documentation,
                                    "documentation"@,
                                ) == Ok::<_, DecodeErrorV>(opt_str_view(doc)),
                                spec_get(entries@, "statements"@) == Some(*av),
                                *av == Value::Arr(*vs),
                                spec_stmt_opt_seq(s.take(i as int)) == Ok::<_, DecodeErrorV>(
                                    stmt_opt_seq_view(out@),
                                ),
                            decreases s.len() - i,
                        {
                            proof {
                                assert(s.take(i + 1).drop_last() =~= s.take(i as int));
                                assert(s.take(i + 1).last() == s[i as int]);
                                assert(decreases_to!(*av => *vs));
                                assert(decreases_to!(*vs => vs@));
                                assert(decreases_to!(vs@ => vs@[i as int]));
                                lemma_obj_field_smaller(*v, "statements"@);
                            }
                            let elem = match decode_stmt_opt(&vs[i]) {
                                Err(e) => {
                                    proof {
                                        lemma_stmt_opt_seq_err(s, i + 1);
                                    }
                                    return Err(e);
                                },
                                Ok(x) => x,
                            };
                            let ghost old_out = out@;
                            out.push(elem);
                            proof {
                                assert(out@.drop_last() =~= old_out);
                                assert(out@.last() == elem);
                            }
                            i += 1;
                        }
                        proof {
                            assert(s.take(s.len() as int) =~= s);
                        }
                        Ok(Block { id: data.0, src: data.1, documentation: doc, statements: out })
                    },
                    _ => Err(
                        DecodeError::MalformedField {
                            kind: NodeKind::Block,
                            field: FieldName::Statements,
                        },
                    ),
                },
            }
        },
        _ => Err(DecodeError::NotAnObject { kind: NodeKind::Block }),
    }
}

/// Decode one possibly absent statement entry: null means absent.
fn decode_stmt_opt(v: &Value) -> (r: Result<Option<Statement>, DecodeError>)
    ensures
        (match r {
            Ok(Some(st)) => Ok::<_, DecodeErrorV>(Some(stmt_view(st))),
            Ok(None) => Ok(None),
            Err(e) => Err(err_view(e)),
        }) == spec_stmt_opt(*v),
    decreases v, 4int,
{
    match v {
        Value::Null => Ok(None),
        _ => match decode_statement(v) {
            Ok(st) => Ok(Some(st)),
            Err(e) => Err(e),
        },
    }
}

/// Decode an expression statement node object.
pub fn decode_expression_statement(v: &Value) -> (r: Result<ExpressionStatement, DecodeError>)
    ensures
        expr_stmt_res_view(r) == spec_decode_expression_statement(*v),
    decreases v, 2int,
{
    match v {
        Value::Obj(entries) => {
            let data = match decode_node_data(entries, NodeKind::ExpressionStatement) {
                Err(e) => {
                    return Err(e);
                },
                Ok(d) => d,
            };
            let doc = match decode_opt_string(
                entries,
                NodeKind::ExpressionStatement,
                FieldName::Documentation,
                "documentation",
            ) {
                Err(e) => {
                    return Err(e);
                },
                Ok(o) => o,
            };
            match get_field(entries, "expression") {
                None => Err(
                    DecodeError::MissingField {
                        kind: NodeKind::ExpressionStatement,
                        field: FieldName::Expression,
                    },
                ),
                Some(child) => {
                    proof {
                        lemma_obj_field_smaller(*v, "expression"@);
                    }
                    match decode_expression(child) {
                        Err(e) => Err(e),
                        Ok(expr) => Ok(
                            ExpressionStatement {
                                id: data.0,
                                src: data.1,
                                documentation: doc,
                                expression: expr,
                            },
                        ),
                    }
                },
            }
        },
        _ => Err(DecodeError::NotAnObject { kind: NodeKind::ExpressionStatement }),
    }
}

/// Decode a return node object; its expression may be absent or null.
pub fn decode_return(v: &Value) -> (r: Result<Return, DecodeError>)
    ensures
        ret_res_view(r) == spec_decode_return(*v),
    decreases v, 2int,
{
    match v {
        Value::Obj(entries) => {
            let data = match decode_node_data(entries, NodeKind::Return) {
                Err(e) => {
                    return Err(e);
                },
                Ok(d) => d,
            };
            let doc = match decode_opt_string(
                entries,
                NodeKind::Return,
                FieldName::Documentation,
                "documentation",
            ) {
                Err(e) => {
                    return Err(e);
                },
                Ok(o) => o,
            };
            match get_field(entries, "expression") {
                None => Ok(Return { id: data.0, src: data.1, documentation: doc, expression: None }),
                Some(child) => match child {
                    Value::Null => Ok(
                        Return { id: data.0, src: data.1, documentation: doc, expression: None },
                    ),
                    _ => {
                        proof {
                            lemma_obj_field_smaller(*v, "expression"@);
                        }
                        match decode_expression(child) {
                            Err(e) => Err(e),
                            Ok(expr) => Ok(
                                Return {
                                    id: data.0,
                                    src: data.1,
                                    documentation: doc,
                                    expression: Some(expr),
                                },
                            ),
                        }
                    },
                },
            }
        },
        _ => Err(DecodeError::NotAnObject { kind: NodeKind::Return }),
    }
}

} // verus!
