use no_async_promise_executor::ast::{Expr, ExprKind, Program, Span};
use no_async_promise_executor::rule::{Finding, NoAsyncPromiseExecutor, CODE, HINT, MESSAGE};
use swc_common::sync::Lrc;
use swc_common::{BytePos, FileName, SourceMap, Spanned};
use swc_ecmascript::ast;
use swc_ecmascript::parser::{lexer::Lexer, Parser, StringInput, Syntax};
use swc_ecmascript::visit::{Visit, VisitWith};

struct TreeBuilder {
    levels: Vec<Vec<Expr>>,
}

fn kind_of(e: &ast::Expr) -> ExprKind {
    match e {
        ast::Expr::Fn(f) => ExprKind::Function { is_async: f.function.is_async },
        ast::Expr::Arrow(a) => ExprKind::Arrow { is_async: a.is_async },
        ast::Expr::Paren(_) => ExprKind::Paren,
        ast::Expr::Ident(i) => ExprKind::Ident { sym: i.sym.to_string() },
        ast::Expr::New(_) => ExprKind::New,
        _ => ExprKind::Other,
    }
}

impl Visit for TreeBuilder {
    fn visit_expr(&mut self, n: &ast::Expr) {
        let kind = kind_of(n);
        let sp = n.span();
        self.levels.push(Vec::new());
        n.visit_children_with(self);
        let children = self.levels.pop().unwrap();
        let e = Expr { kind, span: Span { lo: sp.lo.0, hi: sp.hi.0 }, children };
        self.levels.last_mut().unwrap().push(e);
    }
}

/// Parses `src` as a module and lints it; gives each finding as
/// (line, column, code, message, hint).
fn lint_source(src: &str) -> Vec<(usize, usize, &'static str, &'static str, &'static str)> {
    let cm: Lrc<SourceMap> = Default::default();
    let fm = cm.new_source_file(FileName::Custom("test.js".into()).into(), src.to_string());
    let lexer = Lexer::new(Syntax::Es(Default::default()), Default::default(), StringInput::from(&*fm), None);
    let mut parser = Parser::new_from(lexer);
    let module = parser.parse_module().expect("the source parses");
    let mut builder = TreeBuilder { levels: vec![Vec::new()] };
    module.visit_children_with(&mut builder);
    let program = Program::Module(builder.levels.pop().unwrap());

    let mut sink: Vec<Finding> = Vec::new();
    NoAsyncPromiseExecutor::new().lint_program(&program, &mut sink);
    sink.iter()
        .map(|f| {
            let loc = cm.lookup_char_pos(BytePos(f.span.lo));
            (loc.line, loc.col_display, f.code, f.message, f.hint)
        })
        .collect()
}

#[test]
fn no_async_promise_executor_valid() {
    for src in [
        "new Promise(function(resolve, reject) {});",
        "new Promise((resolve, reject) => {});",
        "new Promise((resolve, reject) => {}, async function unrelated() {})",
        "new Foo(async (resolve, reject) => {})",
        "new class { foo() { new Promise(function(resolve, reject) {}); } }",
    ] {
        assert_eq!(lint_source(src), vec![], "{}", src);
    }
}

#[test]
fn no_async_promise_executor_invalid() {
    let cases = [
        ("new Promise(async function(resolve, reject) {});", 1, 0),
        ("new Promise(async function foo(resolve, reject) {});", 1, 0),
        ("new Promise(async (resolve, reject) => {});", 1, 0),
        ("new Promise(((((async () => {})))));", 1, 0),
        (
            r#"
const a = new class {
  foo() {
    let b = new Promise(async function(resolve, reject) {});
  }
}
      "#,
            4,
            12,
        ),
    ];
    for (src, line, col) in cases {
        assert_eq!(lint_source(src), vec![(line, col, CODE, MESSAGE, HINT)], "{}", src);
    }
}

#[test]
fn parsed_findings_follow_source_order() {
    let src = "new Promise(async () => {});\nnew Foo(new Promise(async function() {}));\nf(new Promise((async () => 1)));";
    let found: Vec<(usize, usize)> = lint_source(src).iter().map(|f| (f.0, f.1)).collect();
    assert_eq!(found, vec![(1, 0), (2, 8), (3, 2)]);
    assert_eq!(lint_source(src), lint_source(src));
}
