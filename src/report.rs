//! Finding bind markers, and turning those that stand where no rewrite can
//! take them into diagnostics.
use vstd::prelude::*;
use crate::syntax::{Expr, Exprs, Misuse, Stmt, StmtList};

verus! {

/// Whether a bind marker occurs anywhere in `e`.
pub open spec fn has_marker(e: Expr) -> bool
    decreases e,
{
    match e {
        Expr::Plain { .. } => false,
        Expr::Compound { parts, .. } => exprs_have_marker(*parts),
        Expr::Try { .. } => true,
        Expr::Block { stmts, .. } => stmts_have_marker(*stmts),
        Expr::If { cond, then_branch, else_branch, .. } => {
            ||| has_marker(*cond)
            ||| stmts_have_marker(*then_branch)
            ||| (else_branch matches Some(b) && has_marker(*b))
        },
        Expr::For { iter, body, .. } => has_marker(*iter) || stmts_have_marker(*body),
        Expr::Bind { recv, body, .. } => has_marker(*recv) || stmts_have_marker(*body),
        Expr::Fold { iter, body, .. } => has_marker(*iter) || stmts_have_marker(*body),
        Expr::PureUnit { .. } => false,
        Expr::Outer { inner, .. } => has_marker(*inner),
        Expr::Error { .. } => false,
    }
}

/// Whether a bind marker occurs in any of `es`.
pub open spec fn exprs_have_marker(es: Exprs) -> bool
    decreases es,
{
    match es {
        Exprs::Empty => false,
        Exprs::Cons { head, tail } => has_marker(*head) || exprs_have_marker(*tail),
    }
}

/// Whether a bind marker occurs in `s`.
pub open spec fn stmt_has_marker(s: Stmt) -> bool
    decreases s,
{
    match s {
        Stmt::Let { init, .. } => init matches Some(e) && has_marker(*e),
        Stmt::Arrow { .. } => true,
        Stmt::Semi { expr } => has_marker(*expr),
        Stmt::Tail { expr } => has_marker(*expr),
        Stmt::Item { .. } => false,
    }
}

/// Whether a bind marker occurs in any statement of `s`.
pub open spec fn stmts_have_marker(s: StmtList) -> bool
    decreases s,
{
    match s {
        StmtList::Empty => false,
        StmtList::Cons { head, tail } => stmt_has_marker(*head) || stmts_have_marker(*tail),
    }
}

/// Whether a diagnostic stands anywhere in `e`.
pub open spec fn has_error(e: Expr) -> bool
    decreases e,
{
    match e {
        Expr::Plain { .. } => false,
        Expr::Compound { parts, .. } => exprs_have_error(*parts),
        Expr::Try { inner, .. } => has_error(*inner),
        Expr::Block { stmts, .. } => stmts_have_error(*stmts),
        Expr::If { cond, then_branch, else_branch, .. } => {
            ||| has_error(*cond)
            ||| stmts_have_error(*then_branch)
            ||| (else_branch matches Some(b) && has_error(*b))
        },
        Expr::For { iter, body, .. } => has_error(*iter) || stmts_have_error(*body),
        Expr::Bind { recv, body, .. } => has_error(*recv) || stmts_have_error(*body),
        Expr::Fold { iter, body, .. } => has_error(*iter) || stmts_have_error(*body),
        Expr::PureUnit { .. } => false,
        Expr::Outer { inner, .. } => has_error(*inner),
        Expr::Error { .. } => true,
    }
}

/// Whether a diagnostic stands in any of `es`.
pub open spec fn exprs_have_error(es: Exprs) -> bool
    decreases es,
{
    match es {
        Exprs::Empty => false,
        Exprs::Cons { head, tail } => has_error(*head) || exprs_have_error(*tail),
    }
}

/// Whether a diagnostic stands in `s`.
pub open spec fn stmt_has_error(s: Stmt) -> bool
    decreases s,
{
    match s {
        Stmt::Let { init, .. } => init matches Some(e) && has_error(*e),
        Stmt::Arrow { init, .. } => init matches Some(e) && has_error(*e),
        Stmt::Semi { expr } => has_error(*expr),
        Stmt::Tail { expr } => has_error(*expr),
        Stmt::Item { .. } => false,
    }
}

/// Whether a diagnostic stands in any statement of `s`.
pub open spec fn stmts_have_error(s: StmtList) -> bool
    decreases s,
{
    match s {
        StmtList::Empty => false,
        StmtList::Cons { head, tail } => stmt_has_error(*head) || stmts_have_error(*tail),
    }
}

/// `e` with every outermost bind marker replaced by a diagnostic at the
/// marker's span; all else kept.
pub open spec fn reported(e: Expr) -> Expr
    decreases e,
{
    match e {
        Expr::Compound { head, parts } => Expr::Compound {
            head,
            parts: Box::new(reported_exprs(*parts)),
        },
        Expr::Try { mark, .. } => Expr::Error { misuse: Misuse::Placement, span: mark },
        Expr::Block { stmts, span } => Expr::Block { stmts: Box::new(reported_stmts(*stmts)), span },
        Expr::If { cond, then_branch, else_branch, span } => Expr::If {
            cond: Box::new(reported(*cond)),
            then_branch: Box::new(reported_stmts(*then_branch)),
            else_branch: match else_branch {
                Some(b) => Some(Box::new(reported(*b))),
                None => None,
            },
            span,
        },
        Expr::For { pat, iter, body, span } => Expr::For {
            pat,
            iter: Box::new(reported(*iter)),
            body: Box::new(reported_stmts(*body)),
            span,
        },
        Expr::Bind { recv, pat, body, mark } => Expr::Bind {
            recv: Box::new(reported(*recv)),
            pat,
            body: Box::new(reported_stmts(*body)),
            mark,
        },
        Expr::Fold { iter, pat, body, ty, span } => Expr::Fold {
            iter: Box::new(reported(*iter)),
            pat,
            body: Box::new(reported_stmts(*body)),
            ty,
            span,
        },
        Expr::Outer { outer, inner } => Expr::Outer { outer, inner: Box::new(reported(*inner)) },
        other => other,
    }
}

/// Each of `es` with its misplaced markers reported.
pub open spec fn reported_exprs(es: Exprs) -> Exprs
    decreases es,
{
    match es {
        Exprs::Empty => Exprs::Empty,
        Exprs::Cons { head, tail } => Exprs::Cons {
            head: Box::new(reported(*head)),
            tail: Box::new(reported_exprs(*tail)),
        },
    }
}

/// `s` with its misplaced markers reported; an arrow binding here is itself
/// misplaced and becomes a diagnostic statement.
pub open spec fn reported_stmt(s: Stmt) -> Stmt
    decreases s,
{
    match s {
        Stmt::Let { pat, init } => Stmt::Let {
            pat,
            init: match init {
                Some(e) => Some(Box::new(reported(*e))),
                None => None,
            },
        },
        Stmt::Arrow { mark, .. } => Stmt::Semi {
            expr: Box::new(Expr::Error { misuse: Misuse::Placement, span: mark }),
        },
        Stmt::Semi { expr } => Stmt::Semi { expr: Box::new(reported(*expr)) },
        Stmt::Tail { expr } => Stmt::Tail { expr: Box::new(reported(*expr)) },
        other => other,
    }
}

/// Each statement of `s` with its misplaced markers reported.
pub open spec fn reported_stmts(s: StmtList) -> StmtList
    decreases s,
{
    match s {
        StmtList::Empty => StmtList::Empty,
        StmtList::Cons { head, tail } => StmtList::Cons {
            head: Box::new(reported_stmt(*head)),
            tail: Box::new(reported_stmts(*tail)),
        },
    }
}

/// Whether a bind marker occurs anywhere in `e`.
pub fn contains_marker(e: &Expr) -> (r: bool)
    ensures
        r == has_marker(*e),
    decreases e,
{
    match e {
        Expr::Plain { .. } => false,
        Expr::Compound { parts, .. } => exprs_contain_marker(parts),
        Expr::Try { .. } => true,
        Expr::Block { stmts, .. } => stmts_contain_marker(stmts),
        Expr::If { cond, then_branch, else_branch, .. } => {
            if contains_marker(cond) || stmts_contain_marker(then_branch) {
                true
            } else {
                match else_branch {
                    Some(b) => contains_marker(b),
                    None => false,
                }
            }
        },
        Expr::For { iter, body, .. } => contains_marker(iter) || stmts_contain_marker(body),
        Expr::Bind { recv, body, .. } => contains_marker(recv) || stmts_contain_marker(body),
        Expr::Fold { iter, body, .. } => contains_marker(iter) || stmts_contain_marker(body),
        Expr::PureUnit { .. } => false,
        Expr::Outer { inner, .. } => contains_marker(inner),
        Expr::Error { .. } => false,
    }
}

/// Whether a bind marker occurs in any of `es`.
pub fn exprs_contain_marker(es: &Exprs) -> (r: bool)
    ensures
        r == exprs_have_marker(*es),
    decreases es,
{
    match es {
        Exprs::Empty => false,
        Exprs::Cons { head, tail } => contains_marker(head) || exprs_contain_marker(tail),
    }
}

/// Whether a bind marker occurs in `s`.
pub fn stmt_contains_marker(s: &Stmt) -> (r: bool)
    ensures
        r == stmt_has_marker(*s),
    decreases s,
{
    match s {
        Stmt::Let { init, .. } => match init {
            Some(e) => contains_marker(e),
            None => false,
        },
        Stmt::Arrow { .. } => true,
        Stmt::Semi { expr } => contains_marker(expr),
        Stmt::Tail { expr } => contains_marker(expr),
        Stmt::Item { .. } => false,
    }
}

/// Whether a bind marker occurs in any statement of `s`.
pub fn stmts_contain_marker(s: &StmtList) -> (r: bool)
    ensures
        r == stmts_have_marker(*s),
    decreases s,
{
    match s {
        StmtList::Empty => false,
        StmtList::Cons { head, tail } => stmt_contains_marker(head) || stmts_contain_marker(tail),
    }
}

/// Replaces the bind markers of a sub-tree that no rewrite can take by
/// diagnostics anchored at their spans.
pub struct UnsupportedReporter;

impl UnsupportedReporter {
    /// `expr` with every outermost marker turned into a diagnostic.
    pub fn fold_expr(expr: Expr) -> (r: Expr)
        ensures
            r == reported(expr),
        decreases expr,
    {
        match expr {
            Expr::Compound { head, parts } => Expr::Compound {
                head,
                parts: Box::new(Self::fold_exprs(*parts)),
            },
            Expr::Try { mark, .. } => Expr::Error { misuse: Misuse::Placement, span: mark },
            Expr::Block { stmts, span } => Expr::Block { stmts: Box::new(Self::fold_stmts(*stmts)), span },
            Expr::If { cond, then_branch, else_branch, span } => {
                let cond = Self::fold_expr(*cond);
                let then_branch = Self::fold_stmts(*then_branch);
                let else_branch = match else_branch {
                    Some(b) => Some(Box::new(Self::fold_expr(*b))),
                    None => None,
                };
                Expr::If { cond: Box::new(cond), then_branch: Box::new(then_branch), else_branch, span }
            },
            Expr::For { pat, iter, body, span } => {
                let iter = Self::fold_expr(*iter);
                let body = Self::fold_stmts(*body);
                Expr::For { pat, iter: Box::new(iter), body: Box::new(body), span }
            },
            Expr::Bind { recv, pat, body, mark } => {
                let recv = Self::fold_expr(*recv);
                let body = Self::fold_stmts(*body);
                Expr::Bind { recv: Box::new(recv), pat, body: Box::new(body), mark }
            },
            Expr::Fold { iter, pat, body, ty, span } => {
                let iter = Self::fold_expr(*iter);
                let body = Self::fold_stmts(*body);
                Expr::Fold { iter: Box::new(iter), pat, body: Box::new(body), ty, span }
            },
            Expr::Outer { outer, inner } => Expr::Outer {
                outer,
                inner: Box::new(Self::fold_expr(*inner)),
            },
            other => other,
        }
    }

    /// Each of `es` with its markers reported.
    pub fn fold_exprs(es: Exprs) -> (r: Exprs)
        ensures
            r == reported_exprs(es),
        decreases es,
    {
        match es {
            Exprs::Empty => Exprs::Empty,
            Exprs::Cons { head, tail } => {
                let head = Self::fold_expr(*head);
                let tail = Self::fold_exprs(*tail);
                Exprs::Cons { head: Box::new(head), tail: Box::new(tail) }
            },
        }
    }

    /// `s` with its markers reported.
    pub fn fold_stmt(s: Stmt) -> (r: Stmt)
        ensures
            r == reported_stmt(s),
        decreases s,
    {
        match s {
            Stmt::Let { pat, init } => {
                let init = match init {
                    Some(e) => Some(Box::new(Self::fold_expr(*e))),
                    None => None,
                };
                Stmt::Let { pat, init }
            },
            Stmt::Arrow { mark, .. } => Stmt::Semi {
                expr: Box::new(Expr::Error { misuse: Misuse::Placement, span: mark }),
            },
            Stmt::Semi { expr } => Stmt::Semi { expr: Box::new(Self::fold_expr(*expr)) },
            Stmt::Tail { expr } => Stmt::Tail { expr: Box::new(Self::fold_expr(*expr)) },
            other => other,
        }
    }

    /// Each statement of `s` with its markers reported.
    pub fn fold_stmts(s: StmtList) -> (r: StmtList)
        ensures
            r == reported_stmts(s),
        decreases s,
    {
        match s {
            StmtList::Empty => StmtList::Empty,
            StmtList::Cons { head, tail } => {
                let head = Self::fold_stmt(*head);
                let tail = Self::fold_stmts(*tail);
                StmtList::Cons { head: Box::new(head), tail: Box::new(tail) }
            },
        }
    }
}

} // verus!
