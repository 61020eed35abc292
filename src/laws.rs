//! What holds of the rewrite as a whole.
use vstd::prelude::*;
use crate::report::{
    exprs_have_error, exprs_have_marker, has_error, has_marker, reported, reported_exprs,
    reported_stmt, reported_stmts, stmt_has_error, stmt_has_marker, stmts_have_error,
    stmts_have_marker,
};
use crate::rewrite::{
    branch_completed, value_completed, bind_site, prepend, pure_unit_stmt, rewritten_expr, rewritten_stmts, single, unit_lifted,
};
use crate::syntax::{Expr, Exprs, Misuse, Pat, Raw, Stmt, StmtList};

verus! {

// ---- reporting leaves marker-free code alone ----

/// Reporting changes nothing in an expression that holds no marker.
pub proof fn lemma_report_keeps_unmarked(e: Expr)
    requires
        !has_marker(e),
    ensures
        reported(e) == e,
    decreases e,
{
    match e {
        Expr::Compound { parts, .. } => lemma_report_keeps_unmarked_exprs(*parts),
        Expr::Block { stmts, .. } => lemma_report_keeps_unmarked_stmts(*stmts),
        Expr::If { cond, then_branch, else_branch, .. } => {
            lemma_report_keeps_unmarked(*cond);
            lemma_report_keeps_unmarked_stmts(*then_branch);
            if let Some(b) = else_branch {
                lemma_report_keeps_unmarked(*b);
            }
        },
        Expr::For { iter, body, .. } => {
            lemma_report_keeps_unmarked(*iter);
            lemma_report_keeps_unmarked_stmts(*body);
        },
        Expr::Bind { recv, body, .. } => {
            lemma_report_keeps_unmarked(*recv);
            lemma_report_keeps_unmarked_stmts(*body);
        },
        Expr::Fold { iter, body, .. } => {
            lemma_report_keeps_unmarked(*iter);
            lemma_report_keeps_unmarked_stmts(*body);
        },
        Expr::Outer { inner, .. } => lemma_report_keeps_unmarked(*inner),
        _ => {},
    }
}

/// Reporting changes nothing in expressions that hold no marker.
pub proof fn lemma_report_keeps_unmarked_exprs(es: Exprs)
    requires
        !exprs_have_marker(es),
    ensures
        reported_exprs(es) == es,
    decreases es,
{
    if let Exprs::Cons { head, tail } = es {
        lemma_report_keeps_unmarked(*head);
        lemma_report_keeps_unmarked_exprs(*tail);
    }
}

/// Reporting changes nothing in a statement that holds no marker.
pub proof fn lemma_report_keeps_unmarked_stmt(s: Stmt)
    requires
        !stmt_has_marker(s),
    ensures
        reported_stmt(s) == s,
    decreases s,
{
    match s {
        Stmt::Let { init, .. } => {
            if let Some(e) = init {
                lemma_report_keeps_unmarked(*e);
            }
        },
        Stmt::Semi { expr } => lemma_report_keeps_unmarked(*expr),
        Stmt::Tail { expr } => lemma_report_keeps_unmarked(*expr),
        _ => {},
    }
}

/// Reporting changes nothing in statements that hold no marker.
pub proof fn lemma_report_keeps_unmarked_stmts(s: StmtList)
    requires
        !stmts_have_marker(s),
    ensures
        reported_stmts(s) == s,
    decreases s,
{
    if let StmtList::Cons { head, tail } = s {
        lemma_report_keeps_unmarked_stmt(*head);
        lemma_report_keeps_unmarked_stmts(*tail);
    }
}

// ---- reporting removes every marker and leaves a diagnostic for each ----

/// After reporting no marker is left, and where there was one a diagnostic
/// stands.
pub proof fn lemma_report_rejects(e: Expr)
    ensures
        !has_marker(reported(e)),
        has_marker(e) ==> has_error(reported(e)),
    decreases e,
{
    match e {
        Expr::Compound { parts, .. } => lemma_report_rejects_exprs(*parts),
        Expr::Block { stmts, .. } => lemma_report_rejects_stmts(*stmts),
        Expr::If { cond, then_branch, else_branch, .. } => {
            lemma_report_rejects(*cond);
            lemma_report_rejects_stmts(*then_branch);
            if let Some(b) = else_branch {
                lemma_report_rejects(*b);
            }
        },
        Expr::For { iter, body, .. } => {
            lemma_report_rejects(*iter);
            lemma_report_rejects_stmts(*body);
        },
        Expr::Bind { recv, body, .. } => {
            lemma_report_rejects(*recv);
            lemma_report_rejects_stmts(*body);
        },
        Expr::Fold { iter, body, .. } => {
            lemma_report_rejects(*iter);
            lemma_report_rejects_stmts(*body);
        },
        Expr::Outer { inner, .. } => lemma_report_rejects(*inner),
        _ => {},
    }
}

/// After reporting no marker is left in `es`, and where there was one a
/// diagnostic stands.
pub proof fn lemma_report_rejects_exprs(es: Exprs)
    ensures
        !exprs_have_marker(reported_exprs(es)),
        exprs_have_marker(es) ==> exprs_have_error(reported_exprs(es)),
    decreases es,
{
    if let Exprs::Cons { head, tail } = es {
        lemma_report_rejects(*head);
        lemma_report_rejects_exprs(*tail);
    }
}

/// After reporting no marker is left in `s`, and where there was one a
/// diagnostic stands.
pub proof fn lemma_report_rejects_stmt(s: Stmt)
    ensures
        !stmt_has_marker(reported_stmt(s)),
        stmt_has_marker(s) ==> stmt_has_error(reported_stmt(s)),
    decreases s,
{
    match s {
        Stmt::Let { init, .. } => {
            if let Some(e) = init {
                lemma_report_rejects(*e);
            }
        },
        Stmt::Semi { expr } => lemma_report_rejects(*expr),
        Stmt::Tail { expr } => lemma_report_rejects(*expr),
        _ => {},
    }
}

/// After reporting no marker is left in the statements, and where there was
/// one a diagnostic stands.
pub proof fn lemma_report_rejects_stmts(s: StmtList)
    ensures
        !stmts_have_marker(reported_stmts(s)),
        stmts_have_marker(s) ==> stmts_have_error(reported_stmts(s)),
    decreases s,
{
    if let StmtList::Cons { head, tail } = s {
        lemma_report_rejects_stmt(*head);
        lemma_report_rejects_stmts(*tail);
    }
}

// ---- the rewrite leaves marker-free code alone ----

/// An expression that holds no marker is its own rewrite.
pub proof fn lemma_rewrite_keeps_unmarked(e: Expr, ty: Raw)
    requires
        !has_marker(e),
    ensures
        rewritten_expr(e, ty) == e,
    decreases e,
{
    lemma_report_keeps_unmarked(e);
    match e {
        Expr::Block { stmts, .. } => lemma_rewrite_keeps_unmarked_stmts(*stmts, ty),
        Expr::Outer { inner, .. } => lemma_rewrite_keeps_unmarked(*inner, ty),
        _ => {},
    }
}

/// A statement sequence that holds no marker is its own rewrite.
pub proof fn lemma_rewrite_keeps_unmarked_stmts(s: StmtList, ty: Raw)
    requires
        !stmts_have_marker(s),
    ensures
        rewritten_stmts(s, ty) == s,
    decreases s,
{
    if let StmtList::Cons { head, tail } = s {
        lemma_rewrite_keeps_unmarked_stmts(*tail, ty);
        assert(!stmt_has_marker(*head));
        match *head {
            Stmt::Let { init, .. } => {
                if let Some(e) = init {
                    lemma_rewrite_keeps_unmarked(*e, ty);
                }
            },
            Stmt::Semi { expr } => lemma_rewrite_keeps_unmarked(*expr, ty),
            Stmt::Tail { expr } => lemma_rewrite_keeps_unmarked(*expr, ty),
            _ => {},
        }
    }
}

// ---- the rewrite leaves no marker behind ----

/// Putting a marker-free statement in front of marker-free statements adds
/// no marker.
pub proof fn lemma_prepend_unmarked(h: Stmt, t: StmtList)
    requires
        !stmt_has_marker(h),
        !stmts_have_marker(t),
    ensures
        !stmts_have_marker(prepend(h, t)),
        !stmts_have_marker(single(h)),
{
    assert(!stmts_have_marker(StmtList::Empty));
}

/// Lifting to unit adds no marker.
pub proof fn lemma_lift_unmarked(s: StmtList, ty: Raw, span: u64)
    requires
        !stmts_have_marker(s),
    ensures
        !stmts_have_marker(unit_lifted(s, ty, span)),
    decreases s,
{
    let unit = pure_unit_stmt(ty, span);
    assert(!has_marker(Expr::PureUnit { ty, span }));
    assert(!stmt_has_marker(unit));
    lemma_prepend_unmarked(unit, StmtList::Empty);
    if let StmtList::Cons { head, tail } = s {
        assert(!stmt_has_marker(*head));
        if let StmtList::Empty = *tail {
            if let Stmt::Tail { expr } = *head {
                if let Expr::Bind { recv, pat, body, mark } = *expr {
                    lemma_lift_unmarked(*body, ty, span);
                    let b = Expr::Bind {
                        recv,
                        pat,
                        body: Box::new(unit_lifted(*body, ty, span)),
                        mark,
                    };
                    assert(!has_marker(b));
                    lemma_prepend_unmarked(Stmt::Tail { expr: Box::new(b) }, StmtList::Empty);
                } else {
                    let b = Expr::Bind {
                        recv: expr,
                        pat: Pat::Wild { span },
                        body: Box::new(single(unit)),
                        mark: span,
                    };
                    assert(!has_marker(b));
                    lemma_prepend_unmarked(Stmt::Tail { expr: Box::new(b) }, StmtList::Empty);
                }
            } else {
                lemma_prepend_unmarked(*head, single(unit));
            }
        } else {
            lemma_lift_unmarked(*tail, ty, span);
            lemma_prepend_unmarked(*head, unit_lifted(*tail, ty, span));
        }
    }
}

/// Completing a sequence to end in a value adds no marker.
pub proof fn lemma_completed_unmarked(s: StmtList, ty: Raw, span: u64)
    requires
        !stmts_have_marker(s),
    ensures
        !stmts_have_marker(value_completed(s, ty, span)),
    decreases s,
{
    let unit = pure_unit_stmt(ty, span);
    assert(!has_marker(Expr::PureUnit { ty, span }));
    assert(!stmt_has_marker(unit));
    lemma_prepend_unmarked(unit, StmtList::Empty);
    if let StmtList::Cons { head, tail } = s {
        assert(!stmt_has_marker(*head));
        if let StmtList::Empty = *tail {
            if let Stmt::Tail { expr } = *head {
                if let Expr::Bind { recv, pat, body, mark } = *expr {
                    lemma_completed_unmarked(*body, ty, span);
                    let b = Expr::Bind {
                        recv,
                        pat,
                        body: Box::new(value_completed(*body, ty, span)),
                        mark,
                    };
                    assert(!has_marker(b));
                    lemma_prepend_unmarked(Stmt::Tail { expr: Box::new(b) }, StmtList::Empty);
                } else {
                    lemma_prepend_unmarked(Stmt::Tail { expr }, StmtList::Empty);
                }
            } else {
                lemma_prepend_unmarked(*head, single(unit));
            }
        } else {
            lemma_completed_unmarked(*tail, ty, span);
            lemma_prepend_unmarked(*head, value_completed(*tail, ty, span));
        }
    }
}

/// A bind site built from marker-free parts holds no marker.
pub proof fn lemma_bind_site_unmarked(bound: Expr, pat: Pat, rest: StmtList, mark: u64)
    requires
        !has_marker(bound),
        !stmts_have_marker(rest),
    ensures
        !stmts_have_marker(bind_site(bound, pat, rest, mark)),
{
    let b = Expr::Bind { recv: Box::new(bound), pat, body: Box::new(rest), mark };
    assert(!has_marker(b));
    lemma_prepend_unmarked(Stmt::Tail { expr: Box::new(b) }, StmtList::Empty);
    lemma_prepend_unmarked(Stmt::Tail { expr: Box::new(bound) }, StmtList::Empty);
}

/// The rewrite of an expression holds no marker.
pub proof fn lemma_rewrite_unmarked(e: Expr, ty: Raw)
    ensures
        !has_marker(rewritten_expr(e, ty)),
    decreases e,
{
    lemma_report_rejects(e);
    match e {
        Expr::Block { stmts, .. } => lemma_rewrite_unmarked_stmts(*stmts, ty),
        Expr::If { cond, then_branch, else_branch, span } => {
            lemma_report_rejects(*cond);
            lemma_rewrite_unmarked_stmts(*then_branch, ty);
            lemma_lift_unmarked(rewritten_stmts(*then_branch, ty), ty, span);
            let unit = pure_unit_stmt(ty, span);
            assert(!has_marker(Expr::PureUnit { ty, span }));
            lemma_prepend_unmarked(unit, StmtList::Empty);
            assert(!has_marker(Expr::Block { stmts: Box::new(single(unit)), span }));
            lemma_completed_unmarked(rewritten_stmts(*then_branch, ty), ty, span);
            if let Some(b) = else_branch {
                lemma_rewrite_unmarked(*b, ty);
                let rb = rewritten_expr(*b, ty);
                if let Expr::Block { stmts, span: bs } = rb {
                    lemma_completed_unmarked(*stmts, ty, bs);
                }
                assert(!has_marker(branch_completed(rb, ty)));
            }
        },
        Expr::For { iter, body, .. } => {
            lemma_report_rejects(*iter);
            lemma_rewrite_unmarked_stmts(*body, ty);
        },
        Expr::Outer { inner, .. } => lemma_rewrite_unmarked(*inner, ty),
        _ => {},
    }
}

/// The rewrite of a statement sequence holds no marker.
pub proof fn lemma_rewrite_unmarked_stmts(s: StmtList, ty: Raw)
    ensures
        !stmts_have_marker(rewritten_stmts(s, ty)),
    decreases s,
{
    if let StmtList::Cons { head, tail } = s {
        lemma_rewrite_unmarked_stmts(*tail, ty);
        let rest = rewritten_stmts(*tail, ty);
        match *head {
            Stmt::Let { pat, init } => {
                if let Some(e) = init {
                    match *e {
                        Expr::Try { inner, mark } => {
                            lemma_rewrite_unmarked(*inner, ty);
                            lemma_bind_site_unmarked(rewritten_expr(*inner, ty), pat, rest, mark);
                        },
                        other => {
                            lemma_rewrite_unmarked(other, ty);
                            let init2 = Some(Box::new(rewritten_expr(other, ty)));
                            lemma_prepend_unmarked(Stmt::Let { pat, init: init2 }, rest);
                        },
                    }
                } else {
                    lemma_prepend_unmarked(Stmt::Let { pat, init: None }, rest);
                }
            },
            Stmt::Arrow { pat, init, mark } => {
                if let Some(e) = init {
                    lemma_rewrite_unmarked(*e, ty);
                    lemma_bind_site_unmarked(rewritten_expr(*e, ty), pat, rest, mark);
                } else {
                    let err = Expr::Error { misuse: Misuse::Truncated, span: mark };
                    assert(!has_marker(err));
                    lemma_prepend_unmarked(Stmt::Semi { expr: Box::new(err) }, rest);
                }
            },
            Stmt::Semi { expr } => match *expr {
                Expr::Try { inner, mark } => {
                    lemma_rewrite_unmarked(*inner, ty);
                    lemma_bind_site_unmarked(
                        rewritten_expr(*inner, ty),
                        Pat::Wild { span: mark },
                        rest,
                        mark,
                    );
                },
                other => {
                    lemma_rewrite_unmarked(other, ty);
                    let e2 = Box::new(rewritten_expr(other, ty));
                    lemma_prepend_unmarked(Stmt::Semi { expr: e2 }, rest);
                },
            },
            Stmt::Tail { expr } => match *expr {
                Expr::Try { inner, mark } => {
                    lemma_rewrite_unmarked(*inner, ty);
                    lemma_bind_site_unmarked(
                        rewritten_expr(*inner, ty),
                        Pat::Wild { span: mark },
                        rest,
                        mark,
                    );
                },
                other => {
                    lemma_rewrite_unmarked(other, ty);
                    let e2 = Box::new(rewritten_expr(other, ty));
                    lemma_prepend_unmarked(Stmt::Tail { expr: e2 }, rest);
                },
            },
            other => {
                assert(!stmt_has_marker(other));
                lemma_prepend_unmarked(other, rest);
            },
        }
    }
}

/// Rewriting is idempotent: the rewrite of a sequence holds no marker, so
/// rewriting it again changes nothing; and a sequence with no marker in it
/// passes through unchanged.
pub proof fn lemma_rewrite_idempotent(s: StmtList, ty: Raw)
    ensures
        rewritten_stmts(rewritten_stmts(s, ty), ty) == rewritten_stmts(s, ty),
        !stmts_have_marker(s) ==> rewritten_stmts(s, ty) == s,
{
    lemma_rewrite_unmarked_stmts(s, ty);
    lemma_rewrite_keeps_unmarked_stmts(rewritten_stmts(s, ty), ty);
    if !stmts_have_marker(s) {
        lemma_rewrite_keeps_unmarked_stmts(s, ty);
    }
}

/// Rewriting an expression is idempotent as well.
pub proof fn lemma_rewrite_expr_idempotent(e: Expr, ty: Raw)
    ensures
        rewritten_expr(rewritten_expr(e, ty), ty) == rewritten_expr(e, ty),
        !has_marker(e) ==> rewritten_expr(e, ty) == e,
{
    lemma_rewrite_unmarked(e, ty);
    lemma_rewrite_keeps_unmarked(rewritten_expr(e, ty), ty);
    if !has_marker(e) {
        lemma_rewrite_keeps_unmarked(e, ty);
    }
}

// ---- the shape of what comes out ----

/// The statements of `a` followed by those of `b`.
pub open spec fn appended(a: StmtList, b: StmtList) -> StmtList
    decreases a,
{
    match a {
        StmtList::Empty => b,
        StmtList::Cons { head, tail } => prepend(*head, appended(*tail, b)),
    }
}

/// A statement that holds no marker is kept as it is, and the rewrite goes on
/// with what follows it.
pub proof fn lemma_unmarked_head_kept(h: Stmt, t: StmtList, ty: Raw)
    requires
        !stmt_has_marker(h),
    ensures
        rewritten_stmts(prepend(h, t), ty) == prepend(h, rewritten_stmts(t, ty)),
{
    match h {
        Stmt::Let { init, .. } => {
            if let Some(e) = init {
                lemma_rewrite_keeps_unmarked(*e, ty);
            }
        },
        Stmt::Semi { expr } => lemma_rewrite_keeps_unmarked(*expr, ty),
        Stmt::Tail { expr } => lemma_rewrite_keeps_unmarked(*expr, ty),
        _ => {},
    }
}

/// Statements without a marker before a last statement are kept, whatever
/// the last one becomes.
pub proof fn lemma_unmarked_prefix_kept(prefix: StmtList, last: StmtList, ty: Raw)
    requires
        !stmts_have_marker(prefix),
    ensures
        rewritten_stmts(appended(prefix, last), ty) == appended(prefix, rewritten_stmts(last, ty)),
    decreases prefix,
{
    if let StmtList::Cons { head, tail } = prefix {
        assert(!stmt_has_marker(*head));
        lemma_unmarked_prefix_kept(*tail, last, ty);
        lemma_unmarked_head_kept(*head, appended(*tail, last), ty);
    }
}

/// Whether `h` is one of the statements of `s`.
pub open spec fn listed(h: Stmt, s: StmtList) -> bool
    decreases s,
{
    match s {
        StmtList::Empty => false,
        StmtList::Cons { head, tail } => *head == h || listed(h, *tail),
    }
}

/// Whether `h` stands, unchanged, among the statements of `s` or of the
/// body of a `bind` chain that `s` ends in.
pub open spec fn kept_in(h: Stmt, s: StmtList) -> bool
    decreases s,
{
    match s {
        StmtList::Empty => false,
        StmtList::Cons { head, tail } => {
            ||| *head == h
            ||| kept_in(h, *tail)
            ||| (*head matches Stmt::Tail { expr } && *expr matches Expr::Bind { body, .. }
                && kept_in(h, *body))
        },
    }
}

/// A statement with no marker passes through the rewrite unchanged wherever
/// it stands in a sequence, also after bind sites, where it ends up inside
/// their continuations.
pub proof fn lemma_unmarked_stmt_kept_anywhere(h: Stmt, s: StmtList, ty: Raw)
    requires
        !stmt_has_marker(h),
        listed(h, s),
    ensures
        kept_in(h, rewritten_stmts(s, ty)),
    decreases s,
{
    if let StmtList::Cons { head, tail } = s {
        if *head == h {
            lemma_unmarked_head_kept(h, *tail, ty);
        } else {
            lemma_unmarked_stmt_kept_anywhere(h, *tail, ty);
            let rest = rewritten_stmts(*tail, ty);
            assert(!(rest is Empty));
            if bind_parts(*head) is Some {
                lemma_bind_site_step(*head, *tail, ty);
                let parts = bind_parts(*head)->0;
                let b = Expr::Bind {
                    recv: Box::new(rewritten_expr(parts.1, ty)),
                    pat: parts.0,
                    body: Box::new(rest),
                    mark: parts.2,
                };
                assert(kept_in(h, single(Stmt::Tail { expr: Box::new(b) })));
            } else {
                assert(rewritten_stmts(s, ty)->Cons_tail == rest);
            }
        }
    }
}

/// Tail elimination: when nothing follows a bind site and no marker comes
/// before it, the site becomes its bound expression itself, with no `bind`
/// and no closure; this holds of each form of bind site.
pub proof fn lemma_tail_bind_eliminated(
    prefix: StmtList,
    pat: Pat,
    bound: Expr,
    mark: u64,
    ty: Raw,
)
    requires
        !stmts_have_marker(prefix),
        !has_marker(bound),
    ensures
        ({
            let try_bound = Some(Box::new(Expr::Try { inner: Box::new(bound), mark }));
            let out = appended(prefix, single(Stmt::Tail { expr: Box::new(bound) }));
            &&& rewritten_stmts(
                appended(prefix, single(Stmt::Semi { expr: Box::new(Expr::Try { inner: Box::new(bound), mark }) })),
                ty,
            ) == out
            &&& rewritten_stmts(
                appended(prefix, single(Stmt::Tail { expr: Box::new(Expr::Try { inner: Box::new(bound), mark }) })),
                ty,
            ) == out
            &&& rewritten_stmts(appended(prefix, single(Stmt::Let { pat, init: try_bound })), ty) == out
            &&& rewritten_stmts(
                appended(prefix, single(Stmt::Arrow { pat, init: Some(Box::new(bound)), mark })),
                ty,
            ) == out
        }),
{
    lemma_rewrite_keeps_unmarked(bound, ty);
    let t = Box::new(Expr::Try { inner: Box::new(bound), mark });
    let out = single(Stmt::Tail { expr: Box::new(bound) });
    assert(rewritten_stmts(StmtList::Empty, ty) == StmtList::Empty);
    assert(rewritten_stmts(single(Stmt::Semi { expr: t }), ty) == out);
    assert(rewritten_stmts(single(Stmt::Tail { expr: t }), ty) == out);
    assert(rewritten_stmts(single(Stmt::Let { pat, init: Some(t) }), ty) == out);
    assert(rewritten_stmts(single(Stmt::Arrow { pat, init: Some(Box::new(bound)), mark }), ty) == out);
    lemma_unmarked_prefix_kept(prefix, single(Stmt::Semi { expr: t }), ty);
    lemma_unmarked_prefix_kept(prefix, single(Stmt::Tail { expr: t }), ty);
    lemma_unmarked_prefix_kept(prefix, single(Stmt::Let { pat, init: Some(t) }), ty);
    lemma_unmarked_prefix_kept(
        prefix,
        single(Stmt::Arrow { pat, init: Some(Box::new(bound)), mark }),
        ty,
    );
}

/// The pattern, bound expression and marker span of a bind site: `let p =
/// e?;`, `let p <- e;`, or `e?;` / `e?` (bound to `_`); `None` for any other
/// statement.
pub open spec fn bind_parts(s: Stmt) -> Option<(Pat, Expr, u64)> {
    match s {
        Stmt::Let { pat, init: Some(e) } => match *e {
            Expr::Try { inner, mark } => Some((pat, *inner, mark)),
            _ => None,
        },
        Stmt::Arrow { pat, init: Some(e), mark } => Some((pat, *e, mark)),
        Stmt::Semi { expr } => match *expr {
            Expr::Try { inner, mark } => Some((Pat::Wild { span: mark }, *inner, mark)),
            _ => None,
        },
        Stmt::Tail { expr } => match *expr {
            Expr::Try { inner, mark } => Some((Pat::Wild { span: mark }, *inner, mark)),
            _ => None,
        },
        _ => None,
    }
}

/// Each segment's plain statements, then its bind site, in order; then `last`.
pub open spec fn segments(segs: Seq<(StmtList, Stmt)>, last: StmtList) -> StmtList
    decreases segs.len(),
{
    if segs.len() == 0 {
        last
    } else {
        appended(segs[0].0, prepend(segs[0].1, segments(segs.drop_first(), last)))
    }
}

/// Each segment's plain statements followed by
/// `bound.bind(|pat| { ...the rest... })`: one level for each bind site, in
/// order, with `last` innermost.
pub open spec fn nested_binds(segs: Seq<(StmtList, Stmt)>, last: StmtList) -> StmtList
    decreases segs.len(),
{
    if segs.len() == 0 {
        last
    } else {
        let parts = bind_parts(segs[0].1)->0;
        appended(
            segs[0].0,
            single(
                Stmt::Tail {
                    expr: Box::new(
                        Expr::Bind {
                            recv: Box::new(parts.1),
                            pat: parts.0,
                            body: Box::new(nested_binds(segs.drop_first(), last)),
                            mark: parts.2,
                        },
                    ),
                },
            ),
        )
    }
}

/// A bind site becomes `bind_site` of its rewritten bound expression and
/// the rewrite of what follows it.
pub proof fn lemma_bind_site_step(site: Stmt, rest: StmtList, ty: Raw)
    requires
        bind_parts(site) is Some,
    ensures
        ({
            let parts = bind_parts(site)->0;
            rewritten_stmts(prepend(site, rest), ty) == bind_site(
                rewritten_expr(parts.1, ty),
                parts.0,
                rewritten_stmts(rest, ty),
                parts.2,
            )
        }),
{
}

/// Sequencing order: a sequence of bind sites, in any of their forms and
/// with marker-free statements between them, followed by marker-free
/// statements, becomes a chain of `bind` calls nested one level per bind
/// site in source order; the statements between the sites are kept, each in
/// front of the `bind` that follows it.
pub proof fn lemma_binds_nest_in_order(segs: Seq<(StmtList, Stmt)>, last: StmtList, ty: Raw)
    requires
        forall|i: int| 0 <= i < segs.len() ==> !stmts_have_marker(#[trigger] segs[i].0),
        forall|i: int| 0 <= i < segs.len() ==> bind_parts(#[trigger] segs[i].1) is Some,
        forall|i: int|
            0 <= i < segs.len() ==> !has_marker((bind_parts(#[trigger] segs[i].1)->0).1),
        !stmts_have_marker(last),
        !(last is Empty),
    ensures
        rewritten_stmts(segments(segs, last), ty) == nested_binds(segs, last),
    decreases segs.len(),
{
    if segs.len() == 0 {
        lemma_rewrite_keeps_unmarked_stmts(last, ty);
    } else {
        let rest = segs.drop_first();
        assert forall|i: int| 0 <= i < rest.len() implies !stmts_have_marker(#[trigger] rest[i].0) by {
            assert(rest[i] == segs[i + 1]);
        }
        assert forall|i: int| 0 <= i < rest.len() implies bind_parts(#[trigger] rest[i].1) is Some by {
            assert(rest[i] == segs[i + 1]);
        }
        assert forall|i: int|
            0 <= i < rest.len() implies !has_marker((bind_parts(#[trigger] rest[i].1)->0).1) by {
            assert(rest[i] == segs[i + 1]);
        }
        lemma_binds_nest_in_order(rest, last, ty);
        assert(!stmts_have_marker(segs[0].0));
        assert(bind_parts(segs[0].1) is Some);
        let parts = bind_parts(segs[0].1)->0;
        assert(!has_marker(parts.1));
        lemma_rewrite_keeps_unmarked(parts.1, ty);
        let tail = segments(rest, last);
        lemma_unmarked_prefix_kept(segs[0].0, prepend(segs[0].1, tail), ty);
        lemma_bind_site_step(segs[0].1, tail, ty);
        if rest.len() == 0 {
            assert(nested_binds(rest, last) == last);
        } else {
            let next = bind_parts(rest[0].1)->0;
            lemma_appended_keeps_nonempty(
                rest[0].0,
                single(
                    Stmt::Tail {
                        expr: Box::new(
                            Expr::Bind {
                                recv: Box::new(next.1),
                                pat: next.0,
                                body: Box::new(nested_binds(rest.drop_first(), last)),
                                mark: next.2,
                            },
                        ),
                    },
                ),
            );
        }
    }
}

/// A prefix followed by a non-empty sequence is non-empty.
pub proof fn lemma_appended_keeps_nonempty(p: StmtList, b: StmtList)
    requires
        !(b is Empty),
    ensures
        !(appended(p, b) is Empty),
{
}

/// A sequence that ends in `ty::pure(())`, in `e.bind(|_| ty::pure(()))`,
/// or in a `bind` whose body ends so.
pub open spec fn ends_in_unit(s: StmtList, ty: Raw, span: u64) -> bool
    decreases s,
{
    match s {
        StmtList::Empty => false,
        StmtList::Cons { head, tail } => match *tail {
            StmtList::Empty => {
                ||| *head == pure_unit_stmt(ty, span)
                ||| (*head matches Stmt::Tail { expr } && *expr matches Expr::Bind { pat, body, .. }
                    && ((pat == (Pat::Wild { span }) && *body == single(pure_unit_stmt(ty, span)))
                    || ends_in_unit(*body, ty, span)))
            },
            more => ends_in_unit(more, ty, span),
        },
    }
}

/// Lifting to unit always gives a sequence that ends in a unit-carrying
/// monadic value.
pub proof fn lemma_lift_ends_in_unit(s: StmtList, ty: Raw, span: u64)
    ensures
        ends_in_unit(unit_lifted(s, ty, span), ty, span),
    decreases s,
{
    let unit = single(pure_unit_stmt(ty, span));
    assert(ends_in_unit(unit, ty, span));
    if let StmtList::Cons { head, tail } = s {
        if *tail is Empty {
            if let Stmt::Tail { expr } = *head {
                if let Expr::Bind { body, .. } = *expr {
                    lemma_lift_ends_in_unit(*body, ty, span);
                }
            } else {
                assert(unit_lifted(s, ty, span) == prepend(*head, unit));
                assert(ends_in_unit(prepend(*head, unit), ty, span));
            }
        } else {
            lemma_lift_ends_in_unit(*tail, ty, span);
            let lifted = unit_lifted(*tail, ty, span);
            assert(!(lifted is Empty));
            assert(ends_in_unit(prepend(*head, lifted), ty, span));
        }
    }
}

/// A sequence whose `bind` chain ends, innermost, in a final expression.
pub open spec fn ends_in_value(s: StmtList) -> bool
    decreases s,
{
    match s {
        StmtList::Empty => false,
        StmtList::Cons { head, tail } => match *tail {
            StmtList::Empty => match *head {
                Stmt::Tail { expr } => match *expr {
                    Expr::Bind { body, .. } => ends_in_value(*body),
                    _ => true,
                },
                _ => false,
            },
            more => ends_in_value(more),
        },
    }
}

/// Completion always gives a sequence whose `bind` chain ends in a value,
/// so no branch of a desugared conditional ends in a statement.
pub proof fn lemma_completed_ends_in_value(s: StmtList, ty: Raw, span: u64)
    ensures
        ends_in_value(value_completed(s, ty, span)),
    decreases s,
{
    let unit = single(pure_unit_stmt(ty, span));
    assert(ends_in_value(unit));
    if let StmtList::Cons { head, tail } = s {
        if *tail is Empty {
            if let Stmt::Tail { expr } = *head {
                if let Expr::Bind { body, .. } = *expr {
                    lemma_completed_ends_in_value(*body, ty, span);
                }
            } else {
                assert(value_completed(s, ty, span) == prepend(*head, unit));
                assert(ends_in_value(prepend(*head, unit)));
            }
        } else {
            lemma_completed_ends_in_value(*tail, ty, span);
            let done = value_completed(*tail, ty, span);
            assert(!(done is Empty));
            assert(ends_in_value(prepend(*head, done)));
        }
    }
}

/// Conditional uniformity: a conditional with a marker in its body and no
/// `else` gets the `else` branch `ty::pure(())`, and its own branch is made
/// to end in a unit-carrying value; so `if c { m?; }`, with `m` no `bind`
/// chain itself, becomes
/// `if c { m.bind(|_| ty::pure(())) } else { ty::pure(()) }`.
pub proof fn lemma_if_without_else_uniform(
    cond: Expr,
    then_branch: StmtList,
    marked: Expr,
    mark: u64,
    span: u64,
    ty: Raw,
)
    requires
        !has_marker(cond),
    ensures
        stmts_have_marker(then_branch) ==> (rewritten_expr(
            Expr::If { cond: Box::new(cond), then_branch: Box::new(then_branch), else_branch: None, span },
            ty,
        ) matches Expr::If { cond: c, then_branch: t, else_branch: Some(b), .. } && *c == cond
            && ends_in_unit(*t, ty, span)
            && *b == (Expr::Block { stmts: Box::new(single(pure_unit_stmt(ty, span))), span })),
        !has_marker(marked) && !(marked is Bind) ==> rewritten_expr(
            Expr::If {
                cond: Box::new(cond),
                then_branch: Box::new(
                    single(Stmt::Semi { expr: Box::new(Expr::Try { inner: Box::new(marked), mark }) }),
                ),
                else_branch: None,
                span,
            },
            ty,
        ) == (Expr::If {
            cond: Box::new(cond),
            then_branch: Box::new(
                single(
                    Stmt::Tail {
                        expr: Box::new(
                            Expr::Bind {
                                recv: Box::new(marked),
                                pat: Pat::Wild { span },
                                body: Box::new(single(pure_unit_stmt(ty, span))),
                                mark: span,
                            },
                        ),
                    },
                ),
            ),
            else_branch: Some(
                Box::new(Expr::Block { stmts: Box::new(single(pure_unit_stmt(ty, span))), span }),
            ),
            span,
        }),
{
    lemma_report_keeps_unmarked(cond);
    lemma_lift_ends_in_unit(rewritten_stmts(then_branch, ty), ty, span);
    if !has_marker(marked) && !(marked is Bind) {
        lemma_rewrite_keeps_unmarked(marked, ty);
        let body = single(Stmt::Semi { expr: Box::new(Expr::Try { inner: Box::new(marked), mark }) });
        assert(stmts_have_marker(body)) by {
            assert(stmt_has_marker(*body->Cons_head));
        }
        assert(rewritten_stmts(StmtList::Empty, ty) == StmtList::Empty);
        let tail_only = single(Stmt::Tail { expr: Box::new(marked) });
        assert(rewritten_stmts(body, ty) == tail_only);
        assert(unit_lifted(tail_only, ty, span) == single(
            Stmt::Tail {
                expr: Box::new(
                    Expr::Bind {
                        recv: Box::new(marked),
                        pat: Pat::Wild { span },
                        body: Box::new(single(pure_unit_stmt(ty, span))),
                        mark: span,
                    },
                ),
            },
        ));
    }
}

/// Loop folding: `for x in xs { m?; }` becomes a fold over `xs` from
/// `ty::pure(())` whose step binds the accumulator, drops its value, and
/// then runs the rewritten body, here `m` itself:
/// `(xs).fold(ty::pure(()), |acc, x| acc.bind(|_| { m }))`.
pub proof fn lemma_loop_folds(
    pat: Raw,
    iter: Expr,
    marked: Expr,
    mark: u64,
    span: u64,
    ty: Raw,
)
    requires
        !has_marker(iter),
        !has_marker(marked),
    ensures
        rewritten_expr(
            Expr::For {
                pat,
                iter: Box::new(iter),
                body: Box::new(
                    single(Stmt::Semi { expr: Box::new(Expr::Try { inner: Box::new(marked), mark }) }),
                ),
                span,
            },
            ty,
        ) == (Expr::Fold {
            iter: Box::new(iter),
            pat,
            body: Box::new(single(Stmt::Tail { expr: Box::new(marked) })),
            ty,
            span,
        }),
{
    lemma_report_keeps_unmarked(iter);
    lemma_rewrite_keeps_unmarked(marked, ty);
    let body = single(Stmt::Semi { expr: Box::new(Expr::Try { inner: Box::new(marked), mark }) });
    assert(stmts_have_marker(body)) by {
        assert(stmt_has_marker(*body->Cons_head));
    }
    assert(rewritten_stmts(StmtList::Empty, ty) == StmtList::Empty);
    assert(rewritten_stmts(body, ty) == single(Stmt::Tail { expr: Box::new(marked) }));
}

/// Misuse rejection: a marker in the condition of a conditional is never
/// rewritten; the condition comes out with no marker left and a diagnostic in
/// its place, at the marker's own span when the marker is the whole
/// condition.
pub proof fn lemma_marker_in_condition_rejected(
    cond: Expr,
    then_branch: StmtList,
    else_branch: Option<Box<Expr>>,
    span: u64,
    ty: Raw,
)
    requires
        has_marker(cond),
    ensures
        rewritten_expr(Expr::If { cond: Box::new(cond), then_branch: Box::new(then_branch), else_branch, span }, ty)
            matches Expr::If { cond: c, .. } && *c == reported(cond) && has_error(*c) && !has_marker(*c)
            && (cond matches Expr::Try { mark, .. } ==> *c == (Expr::Error { misuse: Misuse::Placement, span: mark })),
{
    lemma_report_rejects(cond);
}

/// Misuse rejection for loops: a marker in the iterated expression of a loop
/// is never rewritten; a diagnostic stands in its place.
pub proof fn lemma_marker_in_iterable_rejected(
    pat: Raw,
    iter: Expr,
    body: StmtList,
    span: u64,
    ty: Raw,
)
    requires
        has_marker(iter),
    ensures
        ({
            let out = rewritten_expr(Expr::For { pat, iter: Box::new(iter), body: Box::new(body), span }, ty);
            &&& (out matches Expr::For { iter: i, .. } ==> *i == reported(iter))
            &&& (out matches Expr::Fold { iter: i, .. } ==> *i == reported(iter))
            &&& (out is For || out is Fold)
            &&& has_error(reported(iter)) && !has_marker(reported(iter))
        }),
{
    lemma_report_rejects(iter);
}

} // verus!
