use vstd::prelude::*;

use crate::tree::{Node, NodeKind};

verus! {

// ------------------------------------------------------------------
// The typed AST
// ------------------------------------------------------------------

/// One operand value: the resolved terminal text of an expression node.
#[derive(Debug, PartialEq, Eq)]
pub struct Expression {
    pub value: String,
}

/// An instruction or directive invocation with its operands in source order.
#[derive(Debug, PartialEq, Eq)]
pub struct Operation {
    pub instruction: String,
    pub parameters: Vec<Expression>,
}

/// One logical source line: optional label, optional operation, optional
/// trailing comment.  A line with none of the three is still a statement.
#[derive(Debug, PartialEq, Eq)]
pub struct Statement {
    pub label: Option<String>,
    pub comment: Option<String>,
    pub operation: Option<Operation>,
}

/// A whole source file: its statements in source-line order.
#[derive(Debug, PartialEq, Eq)]
pub struct Program {
    pub statements: Vec<Statement>,
}

/// Why `parse` failed.
#[derive(Debug, PartialEq, Eq)]
pub enum ParseError {
    /// The external parsing engine rejected the source text; its message is
    /// carried through without interpretation.
    ParseFailure(String),
    /// The tree handed in did not resolve to a program node.
    StructureFailure,
    /// An operation node carried no instruction, directive, or
    /// special-directive child.
    MalformedOperation,
}

// ------------------------------------------------------------------
// Mathematical views of the AST
// ------------------------------------------------------------------

/// Abstract value of an `Operation`.
pub struct OperationV {
    pub instruction: Seq<char>,
    pub parameters: Seq<Seq<char>>,
}

/// Abstract value of a `Statement`.
pub struct StatementV {
    pub label: Option<Seq<char>>,
    pub comment: Option<Seq<char>>,
    pub operation: Option<OperationV>,
}

/// Abstract value of a `Program`.
pub struct ProgramV {
    pub statements: Seq<StatementV>,
}

pub open spec fn view_of_string_opt(o: Option<String>) -> Option<Seq<char>> {
    match o {
        Some(s) => Some(s@),
        None => None,
    }
}

pub open spec fn view_of_operation_opt(o: Option<Operation>) -> Option<OperationV> {
    match o {
        Some(op) => Some(op@),
        None => None,
    }
}

impl View for Expression {
    type V = Seq<char>;

    open spec fn view(&self) -> Seq<char> {
        self.value@
    }
}

impl View for Operation {
    type V = OperationV;

    open spec fn view(&self) -> OperationV {
        OperationV {
            instruction: self.instruction@,
            parameters: self.parameters@.map_values(|e: Expression| e@),
        }
    }
}

impl View for Statement {
    type V = StatementV;

    open spec fn view(&self) -> StatementV {
        StatementV {
            label: view_of_string_opt(self.label),
            comment: view_of_string_opt(self.comment),
            operation: view_of_operation_opt(self.operation),
        }
    }
}

impl View for Program {
    type V = ProgramV;

    open spec fn view(&self) -> ProgramV {
        ProgramV { statements: self.statements@.map_values(|s: Statement| s@) }
    }
}

// ------------------------------------------------------------------
// What the builder computes, stated over the parse tree
// ------------------------------------------------------------------

/// Tags that are transparent wrappers around an expression's real value.
pub open spec fn is_wrapper_kind(k: NodeKind) -> bool {
    k is Literal || k is Label || k is Register || k is StringLiteral
}

/// Tags that carry an operation's instruction name.
pub open spec fn is_name_kind(k: NodeKind) -> bool {
    k is Instruction || k is Directive || k is SpecialDirective
}

/// Resolved terminal text of an expression-like node: descend through the
/// first child while it is a transparent wrapper; the first non-wrapper
/// child's own span is the value.  A node without children resolves to
/// nothing.
pub open spec fn resolve_expr(n: Node) -> Option<Seq<char>>
    decreases n,
{
    if n.children@.len() == 0 {
        None
    } else if is_wrapper_kind(n.children@[0].kind) {
        resolve_expr(n.children@[0])
    } else {
        Some(n.children@[0].text@)
    }
}

/// Instruction name of an operation node's children: the span of the last
/// name-tagged child, if any.
pub open spec fn op_name(cs: Seq<Node>) -> Option<Seq<char>>
    decreases cs.len(),
{
    if cs.len() == 0 {
        None
    } else if is_name_kind(cs.last().kind) {
        Some(cs.last().text@)
    } else {
        op_name(cs.drop_last())
    }
}

/// Operand values of an operation node's children: every expression-tagged
/// child that resolves to a value, in source order.
pub open spec fn op_params(cs: Seq<Node>) -> Seq<Seq<char>>
    decreases cs.len(),
{
    if cs.len() == 0 {
        Seq::empty()
    } else {
        let rest = op_params(cs.drop_last());
        if cs.last().kind is Expression {
            match resolve_expr(cs.last()) {
                Some(v) => rest.push(v),
                None => rest,
            }
        } else {
            rest
        }
    }
}

/// The operation an operation node builds to (meaningful only when a
/// name-tagged child exists; `malformed` captures the other case).
pub open spec fn op_of(n: Node) -> OperationV {
    OperationV { instruction: op_name(n.children@)->0, parameters: op_params(n.children@) }
}

/// Label of a statement node: span of the last label-tagged child, if any.
pub open spec fn stmt_label(cs: Seq<Node>) -> Option<Seq<char>>
    decreases cs.len(),
{
    if cs.len() == 0 {
        None
    } else if cs.last().kind is Label {
        Some(cs.last().text@)
    } else {
        stmt_label(cs.drop_last())
    }
}

/// Comment of a statement node: span of the last comment-tagged child.
pub open spec fn stmt_comment(cs: Seq<Node>) -> Option<Seq<char>>
    decreases cs.len(),
{
    if cs.len() == 0 {
        None
    } else if cs.last().kind is CommentText {
        Some(cs.last().text@)
    } else {
        stmt_comment(cs.drop_last())
    }
}

/// Operation of a statement node: built from the last operation-tagged
/// child, if any.
pub open spec fn stmt_operation(cs: Seq<Node>) -> Option<OperationV>
    decreases cs.len(),
{
    if cs.len() == 0 {
        None
    } else if cs.last().kind is Operation {
        Some(op_of(cs.last()))
    } else {
        stmt_operation(cs.drop_last())
    }
}

/// The statement a statement node builds to.
pub open spec fn stmt_of(n: Node) -> StatementV {
    StatementV {
        label: stmt_label(n.children@),
        comment: stmt_comment(n.children@),
        operation: stmt_operation(n.children@),
    }
}

/// The statements a program node builds to: one per statement-tagged child,
/// in source order; children of any other tag contribute nothing.
pub open spec fn program_stmts(cs: Seq<Node>) -> Seq<StatementV>
    decreases cs.len(),
{
    if cs.len() == 0 {
        Seq::empty()
    } else {
        let rest = program_stmts(cs.drop_last());
        if cs.last().kind is Statement {
            rest.push(stmt_of(cs.last()))
        } else {
            rest
        }
    }
}

/// A node is malformed when the builder's walk of it reaches an operation
/// node that has no instruction, directive, or special-directive child.
/// The walk descends through every child of a program or statement node;
/// below an operation node only expression children are visited, and those
/// never fail.
pub open spec fn malformed(n: Node) -> bool
    decreases n,
{
    match n.kind {
        NodeKind::Program => exists|i: int|
            0 <= i < n.children@.len() && malformed(#[trigger] n.children@[i]),
        NodeKind::Statement => exists|i: int|
            0 <= i < n.children@.len() && malformed(#[trigger] n.children@[i]),
        NodeKind::Operation => op_name(n.children@) is None,
        _ => false,
    }
}

// ------------------------------------------------------------------
// The builder
// ------------------------------------------------------------------

/// What a single parse-tree node builds to, before the caller filters for
/// the variant it expects.
enum Ast {
    Program(Program),
    Statement(Statement),
    Operation(Operation),
    Expression(Expression),
}

/// Abstract value of an `Ast`.
pub enum AstV {
    Program(ProgramV),
    Statement(StatementV),
    Operation(OperationV),
    Expression(Seq<char>),
}

impl View for Ast {
    type V = AstV;

    closed spec fn view(&self) -> AstV {
        match self {
            Ast::Program(p) => AstV::Program(p@),
            Ast::Statement(s) => AstV::Statement(s@),
            Ast::Operation(o) => AstV::Operation(o@),
            Ast::Expression(e) => AstV::Expression(e@),
        }
    }
}

/// The AST node a parse-tree node builds to, or `None` for a tag the
/// builder does not act on (meaningful only when the node is not
/// `malformed`).
pub open spec fn build_of(n: Node) -> Option<AstV> {
    match n.kind {
        NodeKind::Program => Some(AstV::Program(ProgramV { statements: program_stmts(n.children@) })),
        NodeKind::Statement => Some(AstV::Statement(stmt_of(n))),
        NodeKind::Operation => Some(AstV::Operation(op_of(n))),
        NodeKind::Expression => match resolve_expr(n) {
            Some(v) => Some(AstV::Expression(v)),
            None => None,
        },
        _ => None,
    }
}

spec fn view_of_ast_opt(o: Option<Ast>) -> Option<AstV> {
    match o {
        Some(a) => Some(a@),
        None => None,
    }
}

/// Terminal unwrapping: walk down through transparent wrapper children and
/// hand back the first non-wrapper child's span, if one exists.
fn expr_to_string(n: &Node) -> (r: Option<String>)
    ensures
        view_of_string_opt(r) == resolve_expr(*n),
    decreases *n,
{
    if n.children.len() == 0 {
        None
    } else {
        let c = &n.children[0];
        match c.kind {
            NodeKind::Literal | NodeKind::Label | NodeKind::Register | NodeKind::StringLiteral => {
                expr_to_string(c)
            }
            _ => Some(c.text.clone()),
        }
    }
}

/// Builds the AST node for one parse-tree node, recursively; fails exactly
/// on the trees whose walk meets an operation node without an instruction
/// name.
fn build_ast(n: &Node) -> (r: Result<Option<Ast>, ParseError>)
    ensures
        r is Ok <==> !malformed(*n),
        r is Err ==> r->Err_0 is MalformedOperation,
        r is Ok ==> view_of_ast_opt(r->Ok_0) == build_of(*n),
    decreases *n,
{
    match n.kind {
        NodeKind::Program => {
            let mut statements: Vec<Statement> = Vec::new();
            let mut i: usize = 0;
            while i < n.children.len()
                invariant
                    i <= n.children@.len(),
                    n.kind is Program,
                    forall|k: int| 0 <= k < i ==> !malformed(#[trigger] n.children@[k]),
                    statements@.map_values(|s: Statement| s@) == program_stmts(
                        n.children@.take(i as int),
                    ),
                decreases n.children@.len() - i,
            {
                let ghost prefix = n.children@.take(i as int);
                let child = &n.children[i];
                match build_ast(child) {
                    Ok(Some(Ast::Statement(s))) => statements.push(s),
                    Ok(_) => {}
                    Err(e) => {
                        return Err(e);
                    }
                }
                proof {
                    let stepped = n.children@.take(i + 1 as int);
                    assert(stepped.drop_last() =~= prefix);
                    assert(stepped.last() == n.children@[i as int]);
                    assert(statements@.map_values(|s: Statement| s@) =~= program_stmts(stepped));
                }
                i += 1;
            }
            proof {
                assert(n.children@.take(n.children@.len() as int) =~= n.children@);
            }
            Ok(Some(Ast::Program(Program { statements })))
        }
        NodeKind::Statement => {
            let mut label: Option<String> = None;
            let mut comment: Option<String> = None;
            let mut operation: Option<Operation> = None;
            let mut i: usize = 0;
            while i < n.children.len()
                invariant
                    i <= n.children@.len(),
                    n.kind is Statement,
                    forall|k: int| 0 <= k < i ==> !malformed(#[trigger] n.children@[k]),
                    view_of_string_opt(label) == stmt_label(n.children@.take(i as int)),
                    view_of_string_opt(comment) == stmt_comment(n.children@.take(i as int)),
                    view_of_operation_opt(operation) == stmt_operation(n.children@.take(i as int)),
                decreases n.children@.len() - i,
            {
                let ghost prefix = n.children@.take(i as int);
                let child = &n.children[i];
                match child.kind {
                    NodeKind::Label => label = Some(child.text.clone()),
                    NodeKind::CommentText => comment = Some(child.text.clone()),
                    _ => {
                        match build_ast(child) {
                            Ok(Some(Ast::Operation(o))) => operation = Some(o),
                            Ok(_) => {}
                            Err(e) => {
                                return Err(e);
                            }
                        }
                    }
                }
                proof {
                    let stepped = n.children@.take(i + 1 as int);
                    assert(stepped.drop_last() =~= prefix);
                    assert(stepped.last() == n.children@[i as int]);
                }
                i += 1;
            }
            proof {
                assert(n.children@.take(n.children@.len() as int) =~= n.children@);
            }
            Ok(Some(Ast::Statement(Statement { label, comment, operation })))
        }
        NodeKind::Operation => {
            let mut instruction: Option<String> = None;
            let mut parameters: Vec<Expression> = Vec::new();
            let mut i: usize = 0;
            while i < n.children.len()
                invariant
                    i <= n.children@.len(),
                    n.kind is Operation,
                    view_of_string_opt(instruction) == op_name(n.children@.take(i as int)),
                    parameters@.map_values(|e: Expression| e@) == op_params(
                        n.children@.take(i as int),
                    ),
                decreases n.children@.len() - i,
            {
                let ghost prefix = n.children@.take(i as int);
                let child = &n.children[i];
                match child.kind {
                    NodeKind::Instruction | NodeKind::Directive | NodeKind::SpecialDirective => {
                        instruction = Some(child.text.clone());
                    }
                    NodeKind::Expression => {
                        match build_ast(child) {
                            Ok(Some(Ast::Expression(e))) => parameters.push(e),
                            Ok(_) => {}
                            Err(e) => {
                                return Err(e);
                            }
                        }
                    }
                    _ => {}
                }
                proof {
                    let stepped = n.children@.take(i + 1 as int);
                    assert(stepped.drop_last() =~= prefix);
                    assert(stepped.last() == n.children@[i as int]);
                    assert(parameters@.map_values(|e: Expression| e@) =~= op_params(stepped));
                }
                i += 1;
            }
            proof {
                assert(n.children@.take(n.children@.len() as int) =~= n.children@);
            }
            match instruction {
                Some(ins) => Ok(Some(Ast::Operation(Operation { instruction: ins, parameters }))),
                None => Err(ParseError::MalformedOperation),
            }
        }
        NodeKind::Expression => {
            match expr_to_string(n) {
                Some(v) => Ok(Some(Ast::Expression(Expression { value: v }))),
                None => Ok(None),
            }
        }
        _ => Ok(None),
    }
}

// ------------------------------------------------------------------
// The entry point
// ------------------------------------------------------------------

/// Everything `parse` promises, in one place: the external engine's failure
/// is carried through as `ParseFailure`; a tree whose walk meets an
/// operation node without an instruction name fails as
/// `MalformedOperation`; a root that is not a program node fails as
/// `StructureFailure`; otherwise the program holds exactly the statements
/// the root's statement-tagged children build to, in source order.
pub open spec fn parse_result_matches(
    tree: Result<Node, String>,
    r: Result<Program, ParseError>,
) -> bool {
    match tree {
        Ok(root) => {
            if malformed(root) {
                r is Err && r->Err_0 is MalformedOperation
            } else if root.kind is Program {
                r is Ok && r->Ok_0@ == (ProgramV { statements: program_stmts(root.children@) })
            } else {
                r is Err && r->Err_0 is StructureFailure
            }
        },
        Err(m) => r is Err && r->Err_0 is ParseFailure && r->Err_0->ParseFailure_0@ == m@,
    }
}

/// Turns the external parsing engine's outcome into the typed AST: a
/// failure from the engine is propagated, and a delivered parse tree is
/// walked into a `Program`.
pub fn parse(tree: Result<Node, String>) -> (r: Result<Program, ParseError>)
    ensures
        parse_result_matches(tree, r),
{
    match tree {
        Ok(root) => match build_ast(&root) {
            Ok(Some(Ast::Program(p))) => Ok(p),
            Ok(_) => Err(ParseError::StructureFailure),
            Err(e) => Err(e),
        },
        Err(m) => Err(ParseError::ParseFailure(m)),
    }
}

// ------------------------------------------------------------------
// Accessors
// ------------------------------------------------------------------

impl Statement {
    /// Name of the statement's operation, if it carries one.
    pub fn operation_name(&self) -> (r: Option<&str>)
        ensures
            match self.operation {
                Some(o) => r is Some && r->0@ == o.instruction@,
                None => r is None,
            },
    {
        match &self.operation {
            Some(o) => Some(o.instruction.as_str()),
            None => None,
        }
    }
}

impl Operation {
    /// Text of the operation's first operand, if it has one.
    pub fn first_param_as_str(&self) -> (r: Option<&str>)
        ensures
            self.parameters@.len() == 0 ==> r is None,
            self.parameters@.len() > 0 ==> r is Some && r->0@ == self.parameters@[0].value@,
    {
        if self.parameters.len() == 0 {
            None
        } else {
            Some(self.parameters[0].value.as_str())
        }
    }
}

} // verus!
