//! Encoding node values back into structured documents.
//!
//! Re-encoding reproduces the field set and the lower-camel-case naming the
//! external compiler uses, with the node kind's tag in `nodeType`. The
//! round-trip law is each encoder's contract: decoding an encoded node
//! gives back exactly the node's mathematical model, for every node value.

use vstd::prelude::*;

use crate::ast::Block;
use crate::ast::Expression;
use crate::ast::ExpressionStatement;
use crate::ast::FunctionCall;
use crate::ast::Literal;
use crate::ast::LiteralKind;
use crate::ast::Return;
use crate::ast::Statement;
use crate::ast::TypeDescriptions;
use crate::decode::block_view;
use crate::decode::expr_seq_view;
use crate::decode::expr_view;
use crate::decode::expression_statement_view;
use crate::decode::function_call_view;
use crate::decode::literal_view;
use crate::decode::return_view;
use crate::decode::spec_argument_types;
use crate::decode::spec_decode_block;
use crate::decode::spec_decode_expression;
use crate::decode::spec_decode_expression_statement;
use crate::decode::spec_decode_function_call;
use crate::decode::spec_decode_literal;
use crate::decode::spec_decode_return;
use crate::decode::spec_decode_statement;
use crate::decode::spec_expr_seq;
use crate::decode::spec_fc_arguments;
use crate::decode::spec_flag;
use crate::decode::spec_literal_kind;
use crate::decode::spec_node_data;
use crate::decode::spec_opt_string;
use crate::decode::spec_stmt_opt;
use crate::decode::spec_stmt_opt_seq;
use crate::decode::spec_td;
use crate::decode::spec_td_field;
use crate::decode::spec_td_seq;
use crate::decode::stmt_opt_seq_view;
use crate::decode::stmt_view;
use crate::decode::td_seq_view;
use crate::decode::td_view;
use crate::decode::DecodeErrorV;
use crate::decode::ExpressionV;
use crate::decode::StatementV;
use crate::decode::FieldName;
use crate::decode::NodeKind;
use crate::document::spec_get;
use crate::document::Entry;
use crate::document::Value;
use crate::location::format_location;
use crate::location::lemma_location_roundtrip;

verus! {

/// A key lookup finds the entry at `j` when no earlier entry has that key.
pub proof fn lemma_spec_get_at(es: Seq<Entry>, k: Seq<char>, j: int)
    requires
        0 <= j < es.len(),
        es[j].key@ == k,
        forall|i: int| 0 <= i < j ==> (#[trigger] es[i]).key@ != k,
    ensures
        spec_get(es, k) == Some(es[j].value),
    decreases j,
{
    if j > 0 {
        let rest = es.drop_first();
        assert(forall|i: int| 0 <= i < j - 1 ==> rest[i] == es[i + 1]);
        lemma_spec_get_at(rest, k, j - 1);
    }
}

/// Encode an optional string as null or a string value.
fn encode_opt_string(o: &Option<String>) -> (r: Value)
    ensures
        match *o {
            Some(s) => r == Value::Str(s),
            None => r == Value::Null,
        },
{
    match o {
        Some(s) => Value::Str(s.clone()),
        None => Value::Null,
    }
}

/// Encode a type descriptor; decoding the result gives the descriptor's
/// model back under any node kind.
fn encode_td(t: &TypeDescriptions) -> (r: Value)
    ensures
        forall|kind: NodeKind| spec_td(r, kind) == Ok::<_, DecodeErrorV>(td_view(*t)),
{
    let mut entries: Vec<Entry> = Vec::new();
    entries.push(Entry { key: "typeIdentifier".to_owned(), value: encode_opt_string(&t.type_identifier) });
    entries.push(Entry { key: "typeString".to_owned(), value: encode_opt_string(&t.type_string) });
    let r = Value::Obj(entries);
    proof {
        reveal_strlit("typeIdentifier");
        reveal_strlit("typeString");
        let es = r->Obj_0@;
        assert(es.len() == 2);
        assert(es[0].key@ == "typeIdentifier"@);
        assert(es[1].key@ == "typeString"@);
        lemma_spec_get_at(es, "typeIdentifier"@, 0);
        lemma_spec_get_at(es, "typeString"@, 1);
        assert forall|kind: NodeKind| spec_td(r, kind) == Ok::<_, DecodeErrorV>(td_view(*t)) by {
            assert(spec_opt_string(es, kind, FieldName::TypeIdentifier, "typeIdentifier"@)
                == Ok::<_, DecodeErrorV>(td_view(*t).type_identifier));
            assert(spec_opt_string(es, kind, FieldName::TypeString, "typeString"@) == Ok::<
                _,
                DecodeErrorV,
            >(td_view(*t).type_string));
        }
    }
    r
}

/// Encode a collection of type descriptors.
fn encode_td_vec(ts: &Vec<TypeDescriptions>) -> (r: Vec<Value>)
    ensures
        forall|kind: NodeKind| spec_td_seq(r@, kind) == Ok::<_, DecodeErrorV>(td_seq_view(ts@)),
{
    let ghost s = ts@;
    let mut out: Vec<Value> = Vec::new();
    let mut i: usize = 0;
    proof {
        assert forall|kind: NodeKind| spec_td_seq(out@, kind) == Ok::<_, DecodeErrorV>(
            td_seq_view(s.take(0)),
        ) by {
            assert(td_seq_view(s.take(0)) =~= Seq::<crate::decode::TypeDescriptionsV>::empty());
        }
    }
    while i < ts.len()
        invariant
            i <= s.len(),
            s == ts@,
            out@.len() == i,
            forall|kind: NodeKind| spec_td_seq(out@, kind) == Ok::<_, DecodeErrorV>(
                td_seq_view(s.take(i as int)),
            ),
        decreases s.len() - i,
    {
        let ghost old_out = out@;
        let ev = encode_td(&ts[i]);
        out.push(ev);
        proof {
            assert(out@.drop_last() =~= old_out);
            assert(out@.last() == ev);
            assert(s.take(i + 1).drop_last() =~= s.take(i as int));
            assert(s.take(i + 1).last() == s[i as int]);
            assert forall|kind: NodeKind| spec_td_seq(out@, kind) == Ok::<_, DecodeErrorV>(
                td_seq_view(s.take(i + 1)),
            ) by {
                assert(spec_td_seq(old_out, kind) == Ok::<_, DecodeErrorV>(
                    td_seq_view(s.take(i as int)),
                ));
                assert(spec_td(ev, kind) == Ok::<_, DecodeErrorV>(td_view(s[i as int])));
                assert(td_seq_view(s.take(i + 1)) =~= td_seq_view(s.take(i as int)).push(
                    td_view(s[i as int]),
                ));
            }
        }
        i += 1;
    }
    proof {
        assert(s.take(s.len() as int) =~= s);
    }
    out
}

/// The tag string of a literal kind.
fn literal_kind_tag(k: LiteralKind) -> (r: String)
    ensures
        match k {
            LiteralKind::Bool => r@ == "bool"@,
            LiteralKind::Number => r@ == "number"@,
            LiteralKind::Str => r@ == "string"@,
        },
{
    match k {
        LiteralKind::Bool => "bool".to_owned(),
        LiteralKind::Number => "number".to_owned(),
        LiteralKind::Str => "string".to_owned(),
    }
}

/// Encode a literal node. Decoding the result gives the literal's model
/// back, for every literal value.
pub fn encode_literal(l: &Literal) -> (d: Value)
    ensures
        spec_decode_literal(d) == Ok::<_, DecodeErrorV>(literal_view(*l)),
        spec_decode_expression(d) == Ok::<_, DecodeErrorV>(ExpressionV::Literal(literal_view(*l))),
{
    let mut entries: Vec<Entry> = Vec::new();
    entries.push(Entry { key: "nodeType".to_owned(), value: Value::Str("Literal".to_owned()) });
    entries.push(Entry { key: "id".to_owned(), value: Value::Int(l.id as u64) });
    entries.push(Entry { key: "src".to_owned(), value: Value::Str(format_location(&l.src)) });
    entries.push(
        Entry { key: "argumentTypes".to_owned(), value: Value::Arr(encode_td_vec(&l.argument_types)) },
    );
    entries.push(Entry { key: "isConstant".to_owned(), value: Value::Bool(l.is_constant) });
    entries.push(Entry { key: "isLValue".to_owned(), value: Value::Bool(l.is_l_value) });
    entries.push(Entry { key: "isPure".to_owned(), value: Value::Bool(l.is_pure) });
    entries.push(
        Entry { key: "lValueRequested".to_owned(), value: Value::Bool(l.l_value_requested) },
    );
    entries.push(
        Entry { key: "typeDescriptions".to_owned(), value: encode_td(&l.type_descriptions) },
    );
    entries.push(Entry { key: "kind".to_owned(), value: Value::Str(literal_kind_tag(l.kind)) });
    entries.push(Entry { key: "value".to_owned(), value: encode_opt_string(&l.value) });
    let d = Value::Obj(entries);
    proof {
        reveal_strlit("nodeType");
        reveal_strlit("id");
        reveal_strlit("src");
        reveal_strlit("argumentTypes");
        reveal_strlit("isConstant");
        reveal_strlit("isLValue");
        reveal_strlit("isPure");
        reveal_strlit("lValueRequested");
        reveal_strlit("typeDescriptions");
        reveal_strlit("kind");
        reveal_strlit("value");
        reveal_strlit("Literal");
        reveal_strlit("bool");
        reveal_strlit("number");
        reveal_strlit("string");
        assert("nodeType"@[0] == 'n' && "isLValue"@[0] == 'i');
        assert("nodeType"@ != "isLValue"@);
        assert("string"@[0] == 's' && "number"@[0] == 'n');
        assert("string"@ != "number"@);
        let es = d->Obj_0@;
        assert(es.len() == 11);
        assert(es[0].key@ == "nodeType"@);
        assert(es[1].key@ == "id"@);
        assert(es[2].key@ == "src"@);
        assert(es[3].key@ == "argumentTypes"@);
        assert(es[4].key@ == "isConstant"@);
        assert(es[5].key@ == "isLValue"@);
        assert(es[6].key@ == "isPure"@);
        assert(es[7].key@ == "lValueRequested"@);
        assert(es[8].key@ == "typeDescriptions"@);
        assert(es[9].key@ == "kind"@);
        assert(es[10].key@ == "value"@);
        lemma_spec_get_at(es, "nodeType"@, 0);
        lemma_spec_get_at(es, "id"@, 1);
        lemma_spec_get_at(es, "src"@, 2);
        lemma_spec_get_at(es, "argumentTypes"@, 3);
        lemma_spec_get_at(es, "isConstant"@, 4);
        lemma_spec_get_at(es, "isLValue"@, 5);
        lemma_spec_get_at(es, "isPure"@, 6);
        lemma_spec_get_at(es, "lValueRequested"@, 7);
        lemma_spec_get_at(es, "typeDescriptions"@, 8);
        lemma_spec_get_at(es, "kind"@, 9);
        lemma_spec_get_at(es, "value"@, 10);
        lemma_location_roundtrip(l.src);
        assert(spec_node_data(es, NodeKind::Literal) == Ok::<_, DecodeErrorV>((l.id, l.src)));
        assert(spec_td_seq(es[3].value->Arr_0@, NodeKind::Literal) == Ok::<_, DecodeErrorV>(
            td_seq_view(l.argument_types@),
        ));
        assert(spec_argument_types(es, NodeKind::Literal) == Ok::<_, DecodeErrorV>(
            td_seq_view(l.argument_types@),
        ));
        assert(spec_flag(es, NodeKind::Literal, FieldName::IsConstant, "isConstant"@) == Ok::<
            _,
            DecodeErrorV,
        >(l.is_constant));
        assert(spec_flag(es, NodeKind::Literal, FieldName::IsLValue, "isLValue"@) == Ok::<
            _,
            DecodeErrorV,
        >(l.is_l_value));
        assert(spec_flag(es, NodeKind::Literal, FieldName::IsPure, "isPure"@) == Ok::<
            _,
            DecodeErrorV,
        >(l.is_pure));
        assert(spec_flag(es, NodeKind::Literal, FieldName::LValueRequested, "lValueRequested"@)
            == Ok::<_, DecodeErrorV>(l.l_value_requested));
        assert(spec_td(es[8].value, NodeKind::Literal) == Ok::<_, DecodeErrorV>(
            td_view(l.type_descriptions),
        ));
        assert(spec_td_field(es, NodeKind::Literal) == Ok::<_, DecodeErrorV>(
            td_view(l.type_descriptions),
        ));
        assert(spec_literal_kind(es) == Ok::<_, DecodeErrorV>(l.kind));
        assert(spec_opt_string(es, NodeKind::Literal, FieldName::Value, "value"@) == Ok::<
            _,
            DecodeErrorV,
        >(literal_view(*l).value));
        assert(spec_decode_literal(d) == Ok::<_, DecodeErrorV>(literal_view(*l)));
        assert(spec_decode_expression(d) == Ok::<_, DecodeErrorV>(
            ExpressionV::Literal(literal_view(*l)),
        ));
    }
    d
}

/// Encode an expression with its `nodeType` tag. Decoding the result gives
/// the expression's model back, for every expression value.
pub fn encode_expression(e: &Expression) -> (d: Value)
    ensures
        spec_decode_expression(d) == Ok::<_, DecodeErrorV>(expr_view(*e)),
    decreases e,
{
    match e {
        Expression::Literal(n) => encode_literal(&**n),
        Expression::FunctionCall(n) => encode_function_call(&**n),
    }
}

/// Encode a function call node. Decoding the result gives the call's model
/// back, for every function call value.
pub fn encode_function_call(f: &FunctionCall) -> (d: Value)
    ensures
        spec_decode_function_call(d) == Ok::<_, DecodeErrorV>(function_call_view(*f)),
        spec_decode_expression(d) == Ok::<_, DecodeErrorV>(
            ExpressionV::FunctionCall(Box::new(function_call_view(*f))),
        ),
    decreases f,
{
    let child = encode_expression(&f.expression);
    let ghost fargs = f.arguments@;
    let mut args: Vec<Value> = Vec::new();
    let mut i: usize = 0;
    proof {
        assert(fargs.take(0) =~= Seq::<Expression>::empty());
        assert(expr_seq_view(fargs.take(0)) =~= Seq::<crate::decode::ExpressionV>::empty());
        assert(spec_expr_seq(args@) == Ok::<_, DecodeErrorV>(expr_seq_view(fargs.take(0))));
    }
    while i < f.arguments.len()
        invariant
            i <= fargs.len(),
            fargs == f.arguments@,
            args@.len() == i,
            spec_expr_seq(args@) == Ok::<_, DecodeErrorV>(expr_seq_view(fargs.take(i as int))),
        decreases fargs.len() - i,
    {
        proof {
            assert(decreases_to!(*f => f.arguments));
            assert(decreases_to!(f.arguments => f.arguments@));
            assert(decreases_to!(f.arguments@ => f.arguments@[i as int]));
        }
        let ghost old_args = args@;
        let ev = encode_expression(&f.arguments[i]);
        args.push(ev);
        proof {
            assert(args@.drop_last() =~= old_args);
            assert(args@.last() == ev);
            assert(fargs.take(i + 1).drop_last() =~= fargs.take(i as int));
            assert(fargs.take(i + 1).last() == fargs[i as int]);
            assert(spec_expr_seq(args@) == Ok::<_, DecodeErrorV>(expr_seq_view(fargs.take(i + 1))));
        }
        i += 1;
    }
    proof {
        assert(fargs.take(fargs.len() as int) =~= fargs);
    }
    let mut entries: Vec<Entry> = Vec::new();
    entries.push(Entry { key: "nodeType".to_owned(), value: Value::Str("FunctionCall".to_owned()) });
    entries.push(Entry { key: "id".to_owned(), value: Value::Int(f.id as u64) });
    entries.push(Entry { key: "src".to_owned(), value: Value::Str(format_location(&f.src)) });
    entries.push(
        Entry { key: "argumentTypes".to_owned(), value: Value::Arr(encode_td_vec(&f.argument_types)) },
    );
    entries.push(Entry { key: "isConstant".to_owned(), value: Value::Bool(f.is_constant) });
    entries.push(Entry { key: "isLValue".to_owned(), value: Value::Bool(f.is_l_value) });
    entries.push(Entry { key: "isPure".to_owned(), value: Value::Bool(f.is_pure) });
    entries.push(
        Entry { key: "lValueRequested".to_owned(), value: Value::Bool(f.l_value_requested) },
    );
    entries.push(
        Entry { key: "typeDescriptions".to_owned(), value: encode_td(&f.type_descriptions) },
    );
    entries.push(Entry { key: "expression".to_owned(), value: child });
    entries.push(Entry { key: "arguments".to_owned(), value: Value::Arr(args) });
    let d = Value::Obj(entries);
    proof {
        reveal_strlit("nodeType");
        reveal_strlit("id");
        reveal_strlit("src");
        reveal_strlit("argumentTypes");
        reveal_strlit("isConstant");
        reveal_strlit("isLValue");
        reveal_strlit("isPure");
        reveal_strlit("lValueRequested");
        reveal_strlit("typeDescriptions");
        reveal_strlit("expression");
        reveal_strlit("arguments");
        reveal_strlit("FunctionCall");
        assert("nodeType"@[0] == 'n' && "isLValue"@[0] == 'i');
        assert("nodeType"@ != "isLValue"@);
        assert("isConstant"@[0] == 'i' && "expression"@[0] == 'e');
        assert("isConstant"@ != "expression"@);
        let es = d->Obj_0@;
        assert(es.len() == 11);
        assert(es[0].key@ == "nodeType"@);
        assert(es[1].key@ == "id"@);
        assert(es[2].key@ == "src"@);
        assert(es[3].key@ == "argumentTypes"@);
        assert(es[4].key@ == "isConstant"@);
        assert(es[5].key@ == "isLValue"@);
        assert(es[6].key@ == "isPure"@);
        assert(es[7].key@ == "lValueRequested"@);
        assert(es[8].key@ == "typeDescriptions"@);
        assert(es[9].key@ == "expression"@);
        assert(es[10].key@ == "arguments"@);
        lemma_spec_get_at(es, "nodeType"@, 0);
        lemma_spec_get_at(es, "id"@, 1);
        lemma_spec_get_at(es, "src"@, 2);
        lemma_spec_get_at(es, "argumentTypes"@, 3);
        lemma_spec_get_at(es, "isConstant"@, 4);
        lemma_spec_get_at(es, "isLValue"@, 5);
        lemma_spec_get_at(es, "isPure"@, 6);
        lemma_spec_get_at(es, "lValueRequested"@, 7);
        lemma_spec_get_at(es, "typeDescriptions"@, 8);
        lemma_spec_get_at(es, "expression"@, 9);
        lemma_spec_get_at(es, "arguments"@, 10);
        lemma_location_roundtrip(f.src);
        assert(spec_node_data(es, NodeKind::FunctionCall) == Ok::<_, DecodeErrorV>((f.id, f.src)));
        assert(spec_td_seq(es[3].value->Arr_0@, NodeKind::FunctionCall) == Ok::<_, DecodeErrorV>(
            td_seq_view(f.argument_types@),
        ));
        assert(spec_argument_types(es, NodeKind::FunctionCall) == Ok::<_, DecodeErrorV>(
            td_seq_view(f.argument_types@),
        ));
        assert(spec_td(es[8].value, NodeKind::FunctionCall) == Ok::<_, DecodeErrorV>(
            td_view(f.type_descriptions),
        ));
        assert(spec_td_field(es, NodeKind::FunctionCall) == Ok::<_, DecodeErrorV>(
            td_view(f.type_descriptions),
        ));
        assert(spec_fc_arguments(d) == Ok::<_, DecodeErrorV>(expr_seq_view(f.arguments@)));
        assert(spec_decode_function_call(d) == Ok::<_, DecodeErrorV>(function_call_view(*f)));
        reveal_strlit("Literal");
        assert("FunctionCall"@.len() == 12 && "Literal"@.len() == 7);
        assert(spec_decode_expression(d) == Ok::<_, DecodeErrorV>(
            ExpressionV::FunctionCall(Box::new(function_call_view(*f))),
        ));
    }
    d
}

/// Encode a statement with its `nodeType` tag. Decoding the result gives
/// the statement's model back, for every statement value.
pub fn encode_statement(s: &Statement) -> (d: Value)
    ensures
        spec_decode_statement(d) == Ok::<_, DecodeErrorV>(stmt_view(*s)),
    decreases s,
{
    match s {
        Statement::Block(n) => encode_block(&**n),
        Statement::ExpressionStatement(n) => encode_expression_statement(&**n),
        Statement::Return(n) => encode_return(&**n),
    }
}

/// Encode an expression statement node. Decoding the result gives the
/// statement's model back, for every value.
pub fn encode_expression_statement(s: &ExpressionStatement) -> (d: Value)
    ensures
        spec_decode_expression_statement(d) == Ok::<_, DecodeErrorV>(
            expression_statement_view(*s),
        ),
        spec_decode_statement(d) == Ok::<_, DecodeErrorV>(
            StatementV::ExpressionStatement(Box::new(expression_statement_view(*s))),
        ),
    decreases s,
{
    let child = encode_expression(&s.expression);
    let mut entries: Vec<Entry> = Vec::new();
    entries.push(
        Entry { key: "nodeType".to_owned(), value: Value::Str("ExpressionStatement".to_owned()) },
    );
    entries.push(Entry { key: "id".to_owned(), value: Value::Int(s.id as u64) });
    entries.push(Entry { key: "src".to_owned(), value: Value::Str(format_location(&s.src)) });
    entries.push(
        Entry { key: "documentation".to_owned(), value: encode_opt_string(&s.documentation) },
    );
    entries.push(Entry { key: "expression".to_owned(), value: child });
    let d = Value::Obj(entries);
    proof {
        reveal_strlit("nodeType");
        reveal_strlit("id");
        reveal_strlit("src");
        reveal_strlit("documentation");
        reveal_strlit("expression");
        reveal_strlit("ExpressionStatement");
        assert("nodeType"@.len() == 8 && "id"@.len() == 2 && "src"@.len() == 3);
        assert("documentation"@.len() == 13 && "expression"@.len() == 10);
        let es = d->Obj_0@;
        assert(es.len() == 5);
        assert(es[0].key@ == "nodeType"@);
        assert(es[1].key@ == "id"@);
        assert(es[2].key@ == "src"@);
        assert(es[3].key@ == "documentation"@);
        assert(es[4].key@ == "expression"@);
        lemma_spec_get_at(es, "nodeType"@, 0);
        lemma_spec_get_at(es, "id"@, 1);
        lemma_spec_get_at(es, "src"@, 2);
        lemma_spec_get_at(es, "documentation"@, 3);
        lemma_spec_get_at(es, "expression"@, 4);
        lemma_location_roundtrip(s.src);
        assert(spec_node_data(es, NodeKind::ExpressionStatement) == Ok::<_, DecodeErrorV>(
            (s.id, s.src),
        ));
        assert(spec_opt_string(
            es,
            NodeKind::ExpressionStatement,
            FieldName::Documentation,
            "documentation"@,
        ) == Ok::<_, DecodeErrorV>(expression_statement_view(*s).documentation));
        assert(spec_decode_expression_statement(d) == Ok::<_, DecodeErrorV>(
            expression_statement_view(*s),
        ));
        reveal_strlit("Block");
        assert("ExpressionStatement"@.len() == 19 && "Block"@.len() == 5);
        assert(spec_decode_statement(d) == Ok::<_, DecodeErrorV>(
            StatementV::ExpressionStatement(Box::new(expression_statement_view(*s))),
        ));
    }
    d
}

/// Encode a return node; an absent expression is written as null.
pub fn encode_return(s: &Return) -> (d: Value)
    ensures
        spec_decode_return(d) == Ok::<_, DecodeErrorV>(return_view(*s)),
        spec_decode_statement(d) == Ok::<_, DecodeErrorV>(
            StatementV::Return(Box::new(return_view(*s))),
        ),
    decreases s,
{
    let child = match &s.expression {
        Some(e) => encode_expression(e),
        None => Value::Null,
    };
    let mut entries: Vec<Entry> = Vec::new();
    entries.push(Entry { key: "nodeType".to_owned(), value: Value::Str("Return".to_owned()) });
    entries.push(Entry { key: "id".to_owned(), value: Value::Int(s.id as u64) });
    entries.push(Entry { key: "src".to_owned(), value: Value::Str(format_location(&s.src)) });
    entries.push(
        Entry { key: "documentation".to_owned(), value: encode_opt_string(&s.documentation) },
    );
    entries.push(Entry { key: "expression".to_owned(), value: child });
    let d = Value::Obj(entries);
    proof {
        reveal_strlit("nodeType");
        reveal_strlit("id");
        reveal_strlit("src");
        reveal_strlit("documentation");
        reveal_strlit("expression");
        reveal_strlit("Return");
        assert("nodeType"@.len() == 8 && "id"@.len() == 2 && "src"@.len() == 3);
        assert("documentation"@.len() == 13 && "expression"@.len() == 10);
        let es = d->Obj_0@;
        assert(es.len() == 5);
        assert(es[0].key@ == "nodeType"@);
        assert(es[1].key@ == "id"@);
        assert(es[2].key@ == "src"@);
        assert(es[3].key@ == "documentation"@);
        assert(es[4].key@ == "expression"@);
        lemma_spec_get_at(es, "nodeType"@, 0);
        lemma_spec_get_at(es, "id"@, 1);
        lemma_spec_get_at(es, "src"@, 2);
        lemma_spec_get_at(es, "documentation"@, 3);
        lemma_spec_get_at(es, "expression"@, 4);
        lemma_location_roundtrip(s.src);
        assert(spec_node_data(es, NodeKind::Return) == Ok::<_, DecodeErrorV>((s.id, s.src)));
        assert(spec_opt_string(es, NodeKind::Return, FieldName::Documentation, "documentation"@)
            == Ok::<_, DecodeErrorV>(return_view(*s).documentation));
        assert(spec_decode_return(d) == Ok::<_, DecodeErrorV>(return_view(*s)));
        reveal_strlit("Block");
        reveal_strlit("ExpressionStatement");
        assert("Return"@.len() == 6 && "Block"@.len() == 5 && "ExpressionStatement"@.len() == 19);
        assert(spec_decode_statement(d) == Ok::<_, DecodeErrorV>(
            StatementV::Return(Box::new(return_view(*s))),
        ));
    }
    d
}

/// Encode a block node; an absent statement entry is written as null.
pub fn encode_block(b: &Block) -> (d: Value)
    ensures
        spec_decode_block(d) == Ok::<_, DecodeErrorV>(block_view(*b)),
        spec_decode_statement(d) == Ok::<_, DecodeErrorV>(
            StatementV::Block(Box::new(block_view(*b))),
        ),
    decreases b,
{
    let ghost bsts = b.statements@;
    let mut sts: Vec<Value> = Vec::new();
    let mut i: usize = 0;
    proof {
        assert(bsts.take(0) =~= Seq::<Option<Statement>>::empty());
        assert(stmt_opt_seq_view(bsts.take(0)) =~= Seq::<Option<crate::decode::StatementV>>::empty());
        assert(spec_stmt_opt_seq(sts@) == Ok::<_, DecodeErrorV>(
            stmt_opt_seq_view(bsts.take(0)),
        ));
    }
    while i < b.statements.len()
        invariant
            i <= bsts.len(),
            bsts == b.statements@,
            sts@.len() == i,
            spec_stmt_opt_seq(sts@) == Ok::<_, DecodeErrorV>(stmt_opt_seq_view(bsts.take(i as int))),
        decreases bsts.len() - i,
    {
        proof {
            assert(decreases_to!(*b => b.statements));
            assert(decreases_to!(b.statements => b.statements@));
            assert(decreases_to!(b.statements@ => b.statements@[i as int]));
        }
        let ghost old_sts = sts@;
        let ev = match &b.statements[i] {
            Some(st) => {
                proof {
                    assert(decreases_to!(b.statements@[i as int] => *st));
                }
                encode_statement(st)
            },
            None => Value::Null,
        };
        sts.push(ev);
        proof {
            assert(sts@.drop_last() =~= old_sts);
            assert(sts@.last() == ev);
            assert(bsts.take(i + 1).drop_last() =~= bsts.take(i as int));
            assert(bsts.take(i + 1).last() == bsts[i as int]);
            assert(spec_stmt_opt(ev) == Ok::<_, DecodeErrorV>(
                match bsts[i as int] {
                    Some(st) => Some(stmt_view(st)),
                    None => None,
                },
            ));
            assert(spec_stmt_opt_seq(sts@) == Ok::<_, DecodeErrorV>(
                stmt_opt_seq_view(bsts.take(i + 1)),
            ));
        }
        i += 1;
    }
    proof {
        assert(bsts.take(bsts.len() as int) =~= bsts);
    }
    let mut entries: Vec<Entry> = Vec::new();
    entries.push(Entry { key: "nodeType".to_owned(), value: Value::Str("Block".to_owned()) });
    entries.push(Entry { key: "id".to_owned(), value: Value::Int(b.id as u64) });
    entries.push(Entry { key: "src".to_owned(), value: Value::Str(format_location(&b.src)) });
    entries.push(
        Entry { key: "documentation".to_owned(), value: encode_opt_string(&b.documentation) },
    );
    entries.push(Entry { key: "statements".to_owned(), value: Value::Arr(sts) });
    let d = Value::Obj(entries);
    proof {
        reveal_strlit("nodeType");
        reveal_strlit("id");
        reveal_strlit("src");
        reveal_strlit("documentation");
        reveal_strlit("statements");
        reveal_strlit("Block");
        assert("nodeType"@.len() == 8 && "id"@.len() == 2 && "src"@.len() == 3);
        assert("documentation"@.len() == 13 && "statements"@.len() == 10);
        let es = d->Obj_0@;
        assert(es.len() == 5);
        assert(es[0].key@ == "nodeType"@);
        assert(es[1].key@ == "id"@);
        assert(es[2].key@ == "src"@);
        assert(es[3].key@ == "documentation"@);
        assert(es[4].key@ == "statements"@);
        lemma_spec_get_at(es, "nodeType"@, 0);
        lemma_spec_get_at(es, "id"@, 1);
        lemma_spec_get_at(es, "src"@, 2);
        lemma_spec_get_at(es, "documentation"@, 3);
        lemma_spec_get_at(es, "statements"@, 4);
        lemma_location_roundtrip(b.src);
        assert(spec_node_data(es, NodeKind::Block) == Ok::<_, DecodeErrorV>((b.id, b.src)));
        assert(spec_opt_string(es, NodeKind::Block, FieldName::Documentation, "documentation"@)
            == Ok::<_, DecodeErrorV>(block_view(*b).documentation));
        assert(spec_decode_block(d) == Ok::<_, DecodeErrorV>(block_view(*b)));
        assert(spec_decode_statement(d) == Ok::<_, DecodeErrorV>(
            StatementV::Block(Box::new(block_view(*b))),
        ));
    }
    d
}

} // verus!
