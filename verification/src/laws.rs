//! The general laws of the child-extraction protocol and of union
//! decoding, stated over the same specification functions the executable
//! contracts use.

use vstd::prelude::*;

use crate::ast::Expression;
use crate::ast::LiteralKind;
use crate::ast::Statement;
use crate::ast::TypeDescriptions;
use crate::decode::spec_decode_block;
use crate::decode::spec_decode_expression_statement;
use crate::decode::spec_decode_return;
use crate::decode::spec_decode_statement;
use crate::decode::DecodeErrorV;
use crate::decode::NodeKind;
use crate::decode::StatementV;
use crate::document::spec_get;
use crate::document::Value;
use crate::location::SourceLocation;
use crate::walk::expr_opt_children;
use crate::walk::stmt_opt_seq_children;
use crate::walk::Node;
use crate::walk::NodeIterable;
use crate::walk::ToNodeVector;

verus! {

/// Optional-child arity: an optional child field contributes exactly one
/// handle when present and none when absent.
pub proof fn lemma_optional_child_arity<'x>(o: Option<Expression>)
    ensures
        o is Some ==> expr_opt_children::<'x>(o).len() == 1,
        o is None ==> expr_opt_children::<'x>(o).len() == 0,
{
}

/// The present elements of a collection of possibly absent statements, in
/// their original relative order.
pub open spec fn present_statements(s: Seq<Option<Statement>>) -> Seq<Statement>
    decreases s.len(),
{
    if s.len() == 0 {
        Seq::empty()
    } else {
        present_statements(s.drop_last()) + (match s.last() {
            Some(st) => seq![st],
            None => Seq::<Statement>::empty(),
        })
    }
}

/// The handles of a sequence of statements, one per statement, in order.
pub open spec fn stmt_handles<'x>(s: Seq<Statement>) -> Seq<Node<'x>> {
    s.map_values(|st: Statement| Node::Statement(&st))
}

/// Collection flattening: a collection of possibly absent statements
/// contributes exactly one handle per present element, absent elements
/// contribute nothing, and the relative order of the present elements is
/// kept.
pub proof fn lemma_collection_flattening<'x>(s: Seq<Option<Statement>>)
    ensures
        stmt_opt_seq_children::<'x>(s) == stmt_handles::<'x>(present_statements(s)),
        stmt_opt_seq_children::<'x>(s).len() == present_statements(s).len(),
    decreases s.len(),
{
    if s.len() == 0 {
        assert(stmt_opt_seq_children::<'x>(s) =~= stmt_handles::<'x>(present_statements(s)));
    } else {
        lemma_collection_flattening(s.drop_last());
        assert(stmt_opt_seq_children::<'x>(s) =~= stmt_handles::<'x>(present_statements(s)));
    }
}

/// Leaf exclusion: a field of a leaf type contributes no handle to the
/// children sequence, whatever its runtime value.
pub proof fn lemma_leaf_exclusion<'a>(
    flag: &'a bool,
    number: &'a usize,
    text: &'a String,
    opt_text: &'a Option<String>,
    loc: &'a SourceLocation,
    td: &'a TypeDescriptions,
    tds: &'a Vec<TypeDescriptions>,
    lk: &'a LiteralKind,
)
    ensures
        flag.spec_contribution().len() == 0,
        number.spec_contribution().len() == 0,
        text.spec_contribution().len() == 0,
        opt_text.spec_contribution().len() == 0,
        loc.spec_contribution().len() == 0,
        td.spec_contribution().len() == 0,
        tds.spec_contribution().len() == 0,
        lk.spec_contribution().len() == 0,
{
}

/// Determinism: two enumerations of the same node's children are equal
/// sequences.
pub proof fn lemma_children_deterministic<'a, T: NodeIterable>(
    n: &'a T,
    r1: Seq<Node<'a>>,
    r2: Seq<Node<'a>>,
)
    requires
        r1 == n.spec_children(),
        r2 == n.spec_children(),
    ensures
        r1 == r2,
{
}

/// Union dispatch: a statement object whose discriminator names a known
/// kind decodes to that kind's variant, and one whose discriminator names
/// no kind in the closed list fails with an unknown-discriminator error
/// carrying the raw tag.
pub proof fn lemma_union_dispatch(v: Value)
    ensures
        v matches Value::Obj(entries) ==> (spec_get(entries@, "nodeType"@) matches Some(
            Value::Str(t),
        ) ==> {
            &&& t@ == "Block"@ ==> spec_decode_statement(v) == (match spec_decode_block(v) {
                Ok(b) => Ok::<_, DecodeErrorV>(StatementV::Block(Box::new(b))),
                Err(e) => Err(e),
            })
            &&& t@ == "ExpressionStatement"@ ==> spec_decode_statement(v) == (
            match spec_decode_expression_statement(v) {
                Ok(b) => Ok::<_, DecodeErrorV>(StatementV::ExpressionStatement(Box::new(b))),
                Err(e) => Err(e),
            })
            &&& t@ == "Return"@ ==> spec_decode_statement(v) == (match spec_decode_return(v) {
                Ok(b) => Ok::<_, DecodeErrorV>(StatementV::Return(Box::new(b))),
                Err(e) => Err(e),
            })
            &&& (t@ != "Block"@ && t@ != "ExpressionStatement"@ && t@ != "Return"@)
                ==> spec_decode_statement(v) == Err::<StatementV, _>(
                DecodeErrorV::UnknownDiscriminator { group: NodeKind::Statement, tag: t@ },
            )
        }),
{
    reveal_strlit("Block");
    reveal_strlit("ExpressionStatement");
    reveal_strlit("Return");
    assert("Block"@.len() == 5 && "ExpressionStatement"@.len() == 19 && "Return"@.len() == 6);
}

} // verus!
