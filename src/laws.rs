use vstd::prelude::*;
use crate::ast::{Expr, ExprKind};
use crate::rule::{
    async_function_like, finding_at, findings_in, findings_in_all, is_target_callee, own_findings,
    violates, Finding, TARGET,
};

verus! {

/// A constructor call yields no finding of its own when its callee is not the
/// bare identifier `Promise`, when it has no argument, or when its first
/// argument is not async-function-like.
pub proof fn lemma_no_finding_without_match(e: Expr)
    requires
        e.kind is New,
        e.children.len() >= 1,
        !is_target_callee(e.children@[0]) || e.children.len() < 2 || !async_function_like(
            e.children@[1],
        ),
    ensures
        own_findings(e) == Seq::<Finding>::empty(),
{
}

/// A `Promise` constructor call whose first argument is async-function-like
/// yields exactly one finding, anchored at the whole call.
pub proof fn lemma_one_finding_on_match(e: Expr)
    requires
        e.kind is New,
        e.children.len() >= 2,
        is_target_callee(e.children@[0]),
        async_function_like(e.children@[1]),
    ensures
        own_findings(e) == seq![finding_at(e.span)],
        own_findings(e).len() == 1,
        own_findings(e)[0].span == e.span,
{
}

/// Parentheses do not change whether an expression is async-function-like:
/// a parenthesized expression is so exactly when the expression it wraps is.
pub proof fn lemma_parens_unwrap(e: Expr)
    requires
        e.kind is Paren,
        e.children.len() > 0,
    ensures
        async_function_like(e) == async_function_like(e.children@[0]),
{
}

/// Only the callee and the first argument decide a call's own finding: two
/// constructor calls that agree on those two agree on whether they are
/// reported, whatever their later arguments.
pub proof fn lemma_only_first_argument(e1: Expr, e2: Expr)
    requires
        e1.kind is New,
        e2.kind is New,
        e1.children.len() >= 2,
        e2.children.len() >= 2,
        e1.children@[0] == e2.children@[0],
        e1.children@[1] == e2.children@[1],
    ensures
        violates(e1) == violates(e2),
        own_findings(e1).len() == own_findings(e2).len(),
{
}

/// The callee is matched by name alone: a constructor call of an identifier
/// other than `Promise` yields no finding of its own, whatever its arguments.
pub proof fn lemma_callee_matched_by_name(e: Expr, sym: String)
    requires
        e.kind is New,
        e.children.len() >= 1,
        e.children@[0].kind == (ExprKind::Ident { sym }),
        sym@ != TARGET@,
    ensures
        own_findings(e) == Seq::<Finding>::empty(),
{
}

/// The findings of a concatenation are those of its two parts, in order.
pub proof fn lemma_findings_in_all_concat(a: Seq<Expr>, b: Seq<Expr>)
    ensures
        findings_in_all(a + b) == findings_in_all(a) + findings_in_all(b),
    decreases b.len(),
{
    if b.len() == 0 {
        assert(a + b =~= a);
        assert(findings_in_all(a) + findings_in_all(b) =~= findings_in_all(a));
    } else {
        lemma_findings_in_all_concat(a, b.drop_last());
        assert((a + b).drop_last() =~= a + b.drop_last());
        assert((a + b)[(a + b).len() - 1] == b[b.len() - 1]);
        assert(findings_in_all(a + b) =~= findings_in_all(a) + findings_in_all(b));
    }
}

/// Nested violations are found where they stand: the findings of a tree are
/// its own, then those of the children before child `i`, then exactly the
/// findings of child `i` (with their own spans), then those after it.
pub proof fn lemma_nested_findings(e: Expr, i: int)
    requires
        0 <= i < e.children.len(),
    ensures
        findings_in(e) == own_findings(e) + findings_in_all(e.children@.subrange(0, i))
            + findings_in(e.children@[i]) + findings_in_all(
            e.children@.subrange(i + 1, e.children.len() as int),
        ),
{
    let s = e.children@;
    let front = s.subrange(0, i + 1);
    let back = s.subrange(i + 1, s.len() as int);
    assert(s =~= front + back);
    lemma_findings_in_all_concat(front, back);
    assert(front.drop_last() =~= s.subrange(0, i));
    assert(front[front.len() - 1] == s[i]);
    assert(findings_in(e) =~= own_findings(e) + findings_in_all(s.subrange(0, i)) + findings_in(
        s[i],
    ) + findings_in_all(back));
}


/// Each expression of `es` ends no later than any later one begins.
pub open spec fn in_source_order(es: Seq<Expr>) -> bool {
    forall|i: int, j: int| 0 <= i < j < es.len() ==> es[i].span.hi <= es[j].span.lo
}

/// The spans of `e` and of everything nested in it are well formed: each lies
/// inside its parent's, and siblings stand in source order.
pub open spec fn well_nested(e: Expr) -> bool
    decreases e, 1nat,
{
    &&& e.span.lo <= e.span.hi
    &&& forall|i: int|
        0 <= i < e.children.len() ==> e.span.lo <= #[trigger] e.children@[i].span.lo
            && e.children@[i].span.hi <= e.span.hi
    &&& in_source_order(e.children@)
    &&& all_well_nested(e.children@)
}

/// Every expression of `es` is well nested.
pub open spec fn all_well_nested(es: Seq<Expr>) -> bool
    decreases es, 0nat,
{
    es.len() == 0 || (all_well_nested(es.drop_last()) && well_nested(es[es.len() - 1]))
}

/// The findings of `fs` stand in ascending order of where they start.
pub open spec fn ascending(fs: Seq<Finding>) -> bool {
    forall|i: int, j: int| 0 <= i < j < fs.len() ==> fs[i].span.lo <= fs[j].span.lo
}

/// Every finding of `fs` has a span that lies in `lo..hi`.
pub open spec fn all_within(fs: Seq<Finding>, lo: u32, hi: u32) -> bool {
    forall|i: int|
        0 <= i < fs.len() ==> lo <= #[trigger] fs[i].span.lo && fs[i].span.lo <= fs[i].span.hi
            && fs[i].span.hi <= hi
}

/// In a tree whose spans are well nested, the findings come in ascending
/// source order, and each lies inside the tree's span. Since they are a
/// function of the tree alone, running the rule again over an unchanged tree
/// gives the same list in the same order.
pub proof fn lemma_findings_in_source_order(e: Expr)
    requires
        well_nested(e),
    ensures
        ascending(findings_in(e)),
        all_within(findings_in(e), e.span.lo, e.span.hi),
    decreases e, 1nat,
{
    lemma_findings_in_all_source_order(e.children@, e.span.lo, e.span.hi);
}

/// The sequence form of `lemma_findings_in_source_order`.
pub proof fn lemma_findings_in_all_source_order(es: Seq<Expr>, lo: u32, hi: u32)
    requires
        all_well_nested(es),
        in_source_order(es),
        forall|i: int| 0 <= i < es.len() ==> lo <= #[trigger] es[i].span.lo && es[i].span.hi <= hi,
    ensures
        ascending(findings_in_all(es)),
        all_within(findings_in_all(es), lo, hi),
    decreases es, 0nat,
{
    if es.len() > 0 {
        let front = es.drop_last();
        let last = es[es.len() - 1];
        assert forall|i: int| 0 <= i < front.len() implies lo <= #[trigger] front[i].span.lo
            && front[i].span.hi <= last.span.lo by {
            assert(es[i] == front[i]);
        }
        lemma_findings_in_all_source_order(front, lo, last.span.lo);
        lemma_findings_in_source_order(last);
        let a = findings_in_all(front);
        let b = findings_in(last);
        assert(findings_in_all(es) == a + b);
        assert(lo <= es[es.len() - 1].span.lo && es[es.len() - 1].span.hi <= hi);
        assert(well_nested(last));
        assert(last.span.lo <= last.span.hi);
        assert forall|i: int, j: int| 0 <= i < j < (a + b).len() implies (a + b)[i].span.lo <= (a
            + b)[j].span.lo by {
            if j < a.len() {
            } else if i >= a.len() {
                assert((a + b)[i] == b[i - a.len()]);
                assert((a + b)[j] == b[j - a.len()]);
            } else {
                assert((a + b)[i] == a[i]);
                assert((a + b)[j] == b[j - a.len()]);
            }
        }
        assert forall|i: int| 0 <= i < (a + b).len() implies lo <= #[trigger] (a + b)[i].span.lo
            && (a + b)[i].span.lo <= (a + b)[i].span.hi && (a + b)[i].span.hi <= hi by {
            if i < a.len() {
                assert((a + b)[i] == a[i]);
                assert(lo <= a[i].span.lo && a[i].span.hi <= last.span.lo);
            } else {
                assert((a + b)[i] == b[i - a.len()]);
                assert(last.span.lo <= b[i - a.len()].span.lo);
            }
        }
    }
}

} // verus!
