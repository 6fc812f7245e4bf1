use vstd::prelude::*;

verus! {

/// Structural tag of a generic parse-tree node.
///
/// The vocabulary is fixed by the grammar that drives the external parsing
/// engine; every tag the AST builder does not act on is folded into `Other`,
/// so that a grammar gaining new rules cannot break the builder.
#[derive(Clone, Copy, Debug, PartialEq, Eq)]
pub enum NodeKind {
    Program,
    Statement,
    Label,
    CommentText,
    Operation,
    Instruction,
    Directive,
    SpecialDirective,
    Expression,
    Literal,
    Register,
    StringLiteral,
    Other,
}

/// One node of the generic parse tree: its structural tag, the source-text
/// span it matched, and its immediate children in source order.
#[derive(Debug, PartialEq, Eq)]
pub struct Node {
    pub kind: NodeKind,
    pub text: String,
    pub children: Vec<Node>,
}

} // verus!
