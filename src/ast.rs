use vstd::prelude::*;

verus! {

/// A byte range of the source text: `lo` inclusive, `hi` exclusive.
#[derive(Clone, Copy, Debug, PartialEq, Eq, Structural)]
pub struct Span {
    pub lo: u32,
    pub hi: u32,
}

/// What an expression node is, as far as this rule needs to tell.
#[derive(Debug)]
pub enum ExprKind {
    /// A function expression, `function (..) {..}`.
    Function { is_async: bool },
    /// An arrow function expression, `(..) => ..`.
    Arrow { is_async: bool },
    /// A parenthesized expression; its one child is the wrapped expression.
    Paren,
    /// A bare identifier.
    Ident { sym: String },
    /// A constructor call, `new callee(args..)`; its first child is the
    /// callee and the remaining children are the arguments, in order.
    New,
    /// Any other kind of expression.
    Other,
}

/// An expression node of a syntax tree, with the expressions nested inside
/// it as children, in ascending source order.
#[derive(Debug)]
pub struct Expr {
    pub kind: ExprKind,
    pub span: Span,
    pub children: Vec<Expr>,
}

/// The root of a parsed source file: its top-level expressions, in source
/// order.
#[derive(Debug)]
pub enum Program {
    Module(Vec<Expr>),
    Script(Vec<Expr>),
}

impl Program {
    /// The top-level expressions, whatever the kind of program.
    pub open spec fn body(self) -> Seq<Expr> {
        match self {
            Program::Module(b) => b@,
            Program::Script(b) => b@,
        }
    }
}

} // verus!
