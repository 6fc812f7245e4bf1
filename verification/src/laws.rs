use vstd::prelude::*;

use crate::ast::{
    is_wrapper_kind, op_params, parse_result_matches, program_stmts, resolve_expr, stmt_of,
    ParseError, Program,
};
use crate::tree::Node;

verus! {

// ------------------------------------------------------------------
// Laws of the transformation
// ------------------------------------------------------------------

/// Order preservation and completeness for statements: a program node
/// builds to exactly its statement-tagged children, in source order, each
/// transformed by the statement rule.
pub proof fn lemma_program_statements_exact(cs: Seq<Node>)
    ensures
        program_stmts(cs) == cs.filter(|c: Node| c.kind is Statement).map_values(
            |c: Node| stmt_of(c),
        ),
    decreases cs.len(),
{
    reveal(Seq::filter);
    let pred = |c: Node| c.kind is Statement;
    let f = |c: Node| stmt_of(c);
    if cs.len() == 0 {
        assert(program_stmts(cs) =~= cs.filter(pred).map_values(f));
    } else {
        lemma_program_statements_exact(cs.drop_last());
        if pred(cs.last()) {
            assert(cs.filter(pred).map_values(f) =~= cs.drop_last().filter(pred).map_values(
                f,
            ).push(f(cs.last())));
        }
        assert(program_stmts(cs) =~= cs.filter(pred).map_values(f));
    }
}

/// Statement count: a program node yields one statement per
/// statement-tagged child — no line is lost and none is invented.
pub proof fn lemma_statement_count(cs: Seq<Node>)
    ensures
        program_stmts(cs).len() == cs.filter(|c: Node| c.kind is Statement).len(),
{
    lemma_program_statements_exact(cs);
}

/// Statement count at the entry point: a successful parse returns one
/// statement per statement-tagged child of the root, so no source line is
/// lost and none is invented.
pub proof fn lemma_parse_statement_count(root: Node, r: Result<Program, ParseError>)
    requires
        parse_result_matches(Ok(root), r),
        r is Ok,
    ensures
        r->Ok_0@.statements.len() == root.children@.filter(|c: Node| c.kind is Statement).len(),
{
    lemma_statement_count(root.children@);
}

/// Order preservation for operands: an operation node's parameters are
/// exactly its expression-tagged children that resolve to a value, in
/// source order.
pub proof fn lemma_operands_exact(cs: Seq<Node>)
    ensures
        op_params(cs) == cs.filter(
            |c: Node| c.kind is Expression && resolve_expr(c) is Some,
        ).map_values(|c: Node| resolve_expr(c)->0),
    decreases cs.len(),
{
    reveal(Seq::filter);
    let pred = |c: Node| c.kind is Expression && resolve_expr(c) is Some;
    let f = |c: Node| resolve_expr(c)->0;
    if cs.len() == 0 {
        assert(op_params(cs) =~= cs.filter(pred).map_values(f));
    } else {
        lemma_operands_exact(cs.drop_last());
        if pred(cs.last()) {
            assert(cs.filter(pred).map_values(f) =~= cs.drop_last().filter(pred).map_values(
                f,
            ).push(f(cs.last())));
        }
        assert(op_params(cs) =~= cs.filter(pred).map_values(f));
    }
}

/// When two errors carry the same content.
pub open spec fn errors_alike(e1: ParseError, e2: ParseError) -> bool {
    match (e1, e2) {
        (ParseError::ParseFailure(m1), ParseError::ParseFailure(m2)) => m1@ == m2@,
        (ParseError::StructureFailure, ParseError::StructureFailure) => true,
        (ParseError::MalformedOperation, ParseError::MalformedOperation) => true,
        _ => false,
    }
}

/// When two outcomes of `parse` are structurally identical.
pub open spec fn results_alike(
    r1: Result<Program, ParseError>,
    r2: Result<Program, ParseError>,
) -> bool {
    match (r1, r2) {
        (Ok(p1), Ok(p2)) => p1@ == p2@,
        (Err(e1), Err(e2)) => errors_alike(e1, e2),
        _ => false,
    }
}

/// Idempotence: any two results `parse` may return for the same engine
/// outcome are structurally identical — the transformation keeps no hidden
/// state between runs.
pub proof fn lemma_parse_deterministic(
    tree: Result<Node, String>,
    r1: Result<Program, ParseError>,
    r2: Result<Program, ParseError>,
)
    requires
        parse_result_matches(tree, r1),
        parse_result_matches(tree, r2),
    ensures
        results_alike(r1, r2),
{
}

/// Wrapper transparency: an expression node whose inner node is a
/// literal, label, register, or string-literal wrapper resolves to
/// whatever the wrapped node resolves to, never to the wrapper's own span.
pub proof fn lemma_wrapper_transparent(n: Node)
    requires
        n.children@.len() > 0,
        is_wrapper_kind(n.children@[0].kind),
    ensures
        resolve_expr(n) == resolve_expr(n.children@[0]),
{
}

} // verus!
