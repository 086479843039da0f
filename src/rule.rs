use vstd::prelude::*;
use crate::ast::{Expr, ExprKind, Program, Span};

verus! {

/// The rule's unique code.
pub const CODE: &'static str = "no-async-promise-executor";

/// The message of every finding of the rule.
pub const MESSAGE: &'static str = "Async promise executors are not allowed";

/// The remediation hint of every finding of the rule.
pub const HINT: &'static str = "Remove `async` from executor function and adjust promise code as needed";

/// The constructor whose executor argument the rule inspects.
pub const TARGET: &'static str = "Promise";

/// One reported violation of the rule.
#[derive(Clone, Copy, Debug, PartialEq, Eq)]
pub struct Finding {
    pub span: Span,
    pub code: &'static str,
    pub message: &'static str,
    pub hint: &'static str,
}

/// The finding reported for a constructor call at `span`.
pub open spec fn finding_at(span: Span) -> Finding {
    Finding { span, code: CODE, message: MESSAGE, hint: HINT }
}

/// True iff `e`, once any parentheses around it are taken off, is an async
/// function expression or an async arrow function.
pub open spec fn async_function_like(e: Expr) -> bool
    decreases e,
{
    match e.kind {
        ExprKind::Function { is_async } => is_async,
        ExprKind::Arrow { is_async } => is_async,
        ExprKind::Paren => e.children.len() > 0 && async_function_like(e.children@[0]),
        _ => false,
    }
}

/// True iff `e` is a bare identifier that reads `TARGET`.
pub open spec fn is_target_callee(e: Expr) -> bool {
    match e.kind {
        ExprKind::Ident { sym } => sym@ == TARGET@,
        _ => false,
    }
}

/// True iff `e` itself is a violation: a constructor call of `TARGET` whose
/// first argument is async-function-like. Later arguments play no part.
pub open spec fn violates(e: Expr) -> bool {
    &&& e.kind is New
    &&& e.children.len() >= 2
    &&& is_target_callee(e.children@[0])
    &&& async_function_like(e.children@[1])
}

/// The finding of `e` itself, not counting nested expressions.
pub open spec fn own_findings(e: Expr) -> Seq<Finding> {
    if violates(e) {
        seq![finding_at(e.span)]
    } else {
        Seq::empty()
    }
}

/// All findings in `e`, in pre-order: `e`'s own first, then those of each
/// child in turn.
pub open spec fn findings_in(e: Expr) -> Seq<Finding>
    decreases e, 1nat,
{
    own_findings(e) + findings_in_all(e.children@)
}

/// All findings in the expressions of `es`, one after another.
pub open spec fn findings_in_all(es: Seq<Expr>) -> Seq<Finding>
    decreases es, 0nat,
{
    if es.len() == 0 {
        Seq::empty()
    } else {
        findings_in_all(es.drop_last()) + findings_in(es[es.len() - 1])
    }
}

/// Tells whether `expr` is async-function-like, looking through any number
/// of parentheses.
pub fn is_async_function(expr: &Expr) -> (r: bool)
    ensures
        r == async_function_like(*expr),
    decreases expr,
{
    match &expr.kind {
        ExprKind::Function { is_async } => *is_async,
        ExprKind::Arrow { is_async } => *is_async,
        ExprKind::Paren => expr.children.len() > 0 && is_async_function(&expr.children[0]),
        _ => false,
    }
}

/// Walks a syntax tree and collects the rule's findings, in pre-order.
pub struct NoAsyncPromiseExecutorVisitor {
    pub diagnostics: Vec<Finding>,
}

impl NoAsyncPromiseExecutorVisitor {
    /// A visitor that has reported nothing yet.
    pub fn new() -> (r: Self)
        ensures
            r.diagnostics@ == Seq::<Finding>::empty(),
    {
        NoAsyncPromiseExecutorVisitor { diagnostics: Vec::new() }
    }

    /// Reports `new_expr` if it is a violation. Nested expressions are not
    /// looked at.
    pub fn visit_new_expr(&mut self, new_expr: &Expr)
        ensures
            final(self).diagnostics@ == old(self).diagnostics@ + own_findings(*new_expr),
    {
        if !matches!(new_expr.kind, ExprKind::New) || new_expr.children.len() < 2 {
            return;
        }
        let callee = &new_expr.children[0];
        if let ExprKind::Ident { sym } = &callee.kind {
            if *sym != String::from_str(TARGET) {
                return;
            }
            if is_async_function(&new_expr.children[1]) {
                self.diagnostics.push(
                    Finding { span: new_expr.span, code: CODE, message: MESSAGE, hint: HINT },
                );
            }
        }
    }

    /// Reports every violation in `expr`, nested ones included, in pre-order.
    pub fn visit_all(&mut self, expr: &Expr)
        ensures
            final(self).diagnostics@ == old(self).diagnostics@ + findings_in(*expr),
        decreases expr,
    {
        self.visit_new_expr(expr);
        self.visit_all_of(&expr.children);
        assert(self.diagnostics@ =~= old(self).diagnostics@ + findings_in(*expr));
    }

    /// Reports every violation in the expressions of `exprs`, one after another.
    pub fn visit_all_of(&mut self, exprs: &Vec<Expr>)
        ensures
            final(self).diagnostics@ == old(self).diagnostics@ + findings_in_all(exprs@),
        decreases exprs,
    {
        let mut i: usize = 0;
        while i < exprs.len()
            invariant
                i <= exprs.len(),
                self.diagnostics@ == old(self).diagnostics@ + findings_in_all(exprs@.subrange(0, i as int)),
            decreases exprs.len() - i,
        {
            self.visit_all(&exprs[i]);
            let ghost prefix = exprs@.subrange(0, i + 1);
            assert(prefix.drop_last() =~= exprs@.subrange(0, i as int));
            assert(prefix[prefix.len() - 1] == exprs@[i as int]);
            i = i + 1;
            assert(self.diagnostics@ =~= old(self).diagnostics@ + findings_in_all(prefix));
        }
        assert(exprs@.subrange(0, exprs.len() as int) =~= exprs@);
    }
}

/// The rule's documentation, with examples of code it rejects and accepts.
pub const DOCS: &'static str = r#"Requires that async promise executor functions are not used

Promise constructors take an executor function as an argument with `resolve` and 
`reject` parameters that can be used to control the state of the created Promise.
This function is allowed to be async but this is generally not a good idea for
several reasons:
* If an async executor function throws an error, the error will be lost and won't
cause the newly-constructed Promise to reject. This could make it difficult to
debug and handle some errors.
* If an async Promise executor function is using await, then this is usually a
sign that it is not actually necessary to use the new Promise constructor and the
code can be restructured to avoid the use of a promise, or the scope of the new
Promise constructor can be reduced, extracting the async code and changing it to
be synchronous.

### Invalid:
```typescript
new Promise(async function(resolve, reject) {});
new Promise(async (resolve, reject) => {});
```
    
### Valid:
```typescript
new Promise(function(resolve, reject) {});
new Promise((resolve, reject) => {});
```
"#;

/// All findings in a program, in pre-order over its top-level expressions.
pub open spec fn program_findings(program: Program) -> Seq<Finding> {
    findings_in_all(program.body())
}

/// Disallows async functions as promise executors.
pub struct NoAsyncPromiseExecutor;

impl NoAsyncPromiseExecutor {
    /// Makes the rule, ready to hand to a driver.
    pub fn new() -> (r: Box<Self>) {
        Box::new(NoAsyncPromiseExecutor)
    }

    /// The tags under which the rule is selected.
    pub fn tags(&self) -> (r: &'static [&'static str])
        ensures
            r@ == seq!["recommended"],
    {
        &["recommended"]
    }

    /// The rule's unique code.
    pub fn code(&self) -> (r: &'static str)
        ensures
            r == CODE,
    {
        CODE
    }

    /// The rule's documentation.
    pub fn docs(&self) -> (r: &'static str)
        ensures
            r == DOCS,
    {
        DOCS
    }

    /// Appends to `sink` every finding of the rule in `program`, in pre-order.
    pub fn lint_program(&self, program: &Program, sink: &mut Vec<Finding>)
        ensures
            final(sink)@ == old(sink)@ + program_findings(*program),
    {
        let mut visitor = NoAsyncPromiseExecutorVisitor::new();
        match program {
            Program::Module(m) => visitor.visit_all_of(m),
            Program::Script(s) => visitor.visit_all_of(s),
        }
        sink.append(&mut visitor.diagnostics);
    }
}

} // verus!
