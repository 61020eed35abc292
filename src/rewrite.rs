//! The rewrite of monadic notation into `bind` chains.
use vstd::prelude::*;
use crate::report::{
    has_marker, reported, stmts_contain_marker, stmts_have_marker, contains_marker,
    UnsupportedReporter,
};
use crate::syntax::{Expr, FnItem, Misuse, Pat, Raw, Stmt, StmtList};

verus! {

/// The sequence holding `s` alone.
pub open spec fn single(s: Stmt) -> StmtList {
    StmtList::Cons { head: Box::new(s), tail: Box::new(StmtList::Empty) }
}

/// `s` followed by `rest`.
pub open spec fn prepend(s: Stmt, rest: StmtList) -> StmtList {
    StmtList::Cons { head: Box::new(s), tail: Box::new(rest) }
}

/// The statement `ty::pure(())`.
pub open spec fn pure_unit_stmt(ty: Raw, span: u64) -> Stmt {
    Stmt::Tail { expr: Box::new(Expr::PureUnit { ty, span }) }
}

/// What a bind site becomes, given the rewrite of what follows it: the bound
/// expression alone when nothing follows, else `(bound).bind(|pat| { rest })`.
pub open spec fn bind_site(bound: Expr, pat: Pat, rest: StmtList, mark: u64) -> StmtList {
    match rest {
        StmtList::Empty => single(Stmt::Tail { expr: Box::new(bound) }),
        _ => single(
            Stmt::Tail {
                expr: Box::new(Expr::Bind { recv: Box::new(bound), pat, body: Box::new(rest), mark }),
            },
        ),
    }
}

/// `s` made to end in a unit-carrying monadic value: the chain of `bind`
/// calls that ends `s` is followed to its innermost body; there a final
/// expression `e` becomes `e.bind(|_| ty::pure(()))`, and where no final
/// expression stands, `ty::pure(())` is appended.
pub open spec fn unit_lifted(s: StmtList, ty: Raw, span: u64) -> StmtList
    decreases s,
{
    match s {
        StmtList::Empty => single(pure_unit_stmt(ty, span)),
        StmtList::Cons { head, tail } => match *tail {
            StmtList::Empty => match *head {
                Stmt::Tail { expr } => match *expr {
                    Expr::Bind { recv, pat, body, mark } => single(
                        Stmt::Tail {
                            expr: Box::new(
                                Expr::Bind {
                                    recv,
                                    pat,
                                    body: Box::new(unit_lifted(*body, ty, span)),
                                    mark,
                                },
                            ),
                        },
                    ),
                    other => single(
                        Stmt::Tail {
                            expr: Box::new(
                                Expr::Bind {
                                    recv: Box::new(other),
                                    pat: Pat::Wild { span },
                                    body: Box::new(single(pure_unit_stmt(ty, span))),
                                    mark: span,
                                },
                            ),
                        },
                    ),
                },
                other => prepend(other, single(pure_unit_stmt(ty, span))),
            },
            more => prepend(*head, unit_lifted(more, ty, span)),
        },
    }
}

/// `s` made to end in a value: the chain of `bind` calls that ends `s` is
/// followed to its innermost body; where that body ends in a final
/// expression it is kept, else `ty::pure(())` is appended.
pub open spec fn value_completed(s: StmtList, ty: Raw, span: u64) -> StmtList
    decreases s,
{
    match s {
        StmtList::Empty => single(pure_unit_stmt(ty, span)),
        StmtList::Cons { head, tail } => match *tail {
            StmtList::Empty => match *head {
                Stmt::Tail { expr } => match *expr {
                    Expr::Bind { recv, pat, body, mark } => single(
                        Stmt::Tail {
                            expr: Box::new(
                                Expr::Bind {
                                    recv,
                                    pat,
                                    body: Box::new(value_completed(*body, ty, span)),
                                    mark,
                                },
                            ),
                        },
                    ),
                    other => single(Stmt::Tail { expr: Box::new(other) }),
                },
                other => prepend(other, single(pure_unit_stmt(ty, span))),
            },
            more => prepend(*head, value_completed(more, ty, span)),
        },
    }
}

/// An `else` branch made to end in a value: a block is completed, an
/// `else if` is left to its own rewrite.
pub open spec fn branch_completed(e: Expr, ty: Raw) -> Expr {
    match e {
        Expr::Block { stmts, span } => Expr::Block {
            stmts: Box::new(value_completed(*stmts, ty, span)),
            span,
        },
        other => other,
    }
}

/// The rewrite of a statement sequence for the monad `ty`.
pub open spec fn rewritten_stmts(s: StmtList, ty: Raw) -> StmtList
    decreases s,
{
    match s {
        StmtList::Empty => StmtList::Empty,
        StmtList::Cons { head, tail } => {
            let rest = rewritten_stmts(*tail, ty);
            match *head {
                Stmt::Let { pat, init } => match init {
                    Some(e) => match *e {
                        Expr::Try { inner, mark } => bind_site(
                            rewritten_expr(*inner, ty),
                            pat,
                            rest,
                            mark,
                        ),
                        other => prepend(
                            Stmt::Let { pat, init: Some(Box::new(rewritten_expr(other, ty))) },
                            rest,
                        ),
                    },
                    None => prepend(Stmt::Let { pat, init: None }, rest),
                },
                Stmt::Arrow { pat, init, mark } => match init {
                    Some(e) => bind_site(rewritten_expr(*e, ty), pat, rest, mark),
                    None => prepend(
                        Stmt::Semi {
                            expr: Box::new(Expr::Error { misuse: Misuse::Truncated, span: mark }),
                        },
                        rest,
                    ),
                },
                Stmt::Semi { expr } => match *expr {
                    Expr::Try { inner, mark } => bind_site(
                        rewritten_expr(*inner, ty),
                        Pat::Wild { span: mark },
                        rest,
                        mark,
                    ),
                    other => prepend(Stmt::Semi { expr: Box::new(rewritten_expr(other, ty)) }, rest),
                },
                Stmt::Tail { expr } => match *expr {
                    Expr::Try { inner, mark } => bind_site(
                        rewritten_expr(*inner, ty),
                        Pat::Wild { span: mark },
                        rest,
                        mark,
                    ),
                    other => prepend(Stmt::Tail { expr: Box::new(rewritten_expr(other, ty)) }, rest),
                },
                other => prepend(other, rest),
            }
        },
    }
}

/// The rewrite of an expression for the monad `ty`: blocks are rewritten as
/// sequences; a conditional or a loop whose body holds a marker is desugared;
/// anywhere else a marker is reported.
pub open spec fn rewritten_expr(e: Expr, ty: Raw) -> Expr
    decreases e,
{
    match e {
        Expr::Block { stmts, span } => Expr::Block {
            stmts: Box::new(rewritten_stmts(*stmts, ty)),
            span,
        },
        Expr::If { cond, then_branch, else_branch, span } => {
            if stmts_have_marker(*then_branch) || (else_branch matches Some(b) && has_marker(*b)) {
                match else_branch {
                    Some(b) => Expr::If {
                        cond: Box::new(reported(*cond)),
                        then_branch: Box::new(
                            value_completed(rewritten_stmts(*then_branch, ty), ty, span),
                        ),
                        else_branch: Some(Box::new(branch_completed(rewritten_expr(*b, ty), ty))),
                        span,
                    },
                    None => Expr::If {
                        cond: Box::new(reported(*cond)),
                        then_branch: Box::new(
                            unit_lifted(rewritten_stmts(*then_branch, ty), ty, span),
                        ),
                        else_branch: Some(
                            Box::new(
                                Expr::Block {
                                    stmts: Box::new(single(pure_unit_stmt(ty, span))),
                                    span,
                                },
                            ),
                        ),
                        span,
                    },
                }
            } else {
                reported(Expr::If { cond, then_branch, else_branch, span })
            }
        },
        Expr::For { pat, iter, body, span } => {
            if stmts_have_marker(*body) {
                Expr::Fold {
                    iter: Box::new(reported(*iter)),
                    pat,
                    body: Box::new(rewritten_stmts(*body, ty)),
                    ty,
                    span,
                }
            } else {
                reported(Expr::For { pat, iter, body, span })
            }
        },
        Expr::Outer { outer, inner } => Expr::Outer {
            outer,
            inner: Box::new(rewritten_expr(*inner, ty)),
        },
        other => reported(other),
    }
}

/// What a bind site becomes, given the rewrite of what follows it.
fn continuation(bound: Expr, pat: Pat, rest: StmtList, mark: u64) -> (r: StmtList)
    ensures
        r == bind_site(bound, pat, rest, mark),
{
    let expr = match rest {
        StmtList::Empty => bound,
        rest => Expr::Bind { recv: Box::new(bound), pat, body: Box::new(rest), mark },
    };
    StmtList::Cons {
        head: Box::new(Stmt::Tail { expr: Box::new(expr) }),
        tail: Box::new(StmtList::Empty),
    }
}

/// The statement `ty::pure(())` at `span`.
fn pure_unit(monadic_type: &Raw, span: u64) -> (r: Stmt)
    ensures
        r == pure_unit_stmt(*monadic_type, span),
{
    Stmt::Tail { expr: Box::new(Expr::PureUnit { ty: monadic_type.duplicate(), span }) }
}

/// Makes `s` end in a unit-carrying monadic value.
pub fn lift_to_unit(s: StmtList, monadic_type: &Raw, span: u64) -> (r: StmtList)
    ensures
        r == unit_lifted(s, *monadic_type, span),
    decreases s,
{
    match s {
        StmtList::Empty => StmtList::Cons {
            head: Box::new(pure_unit(monadic_type, span)),
            tail: Box::new(StmtList::Empty),
        },
        StmtList::Cons { head, tail } => match *tail {
            StmtList::Empty => match *head {
                Stmt::Tail { expr } => {
                    let lifted = match *expr {
                        Expr::Bind { recv, pat, body, mark } => {
                            let body = lift_to_unit(*body, monadic_type, span);
                            Expr::Bind { recv, pat, body: Box::new(body), mark }
                        },
                        other => {
                            let body = StmtList::Cons {
                                head: Box::new(pure_unit(monadic_type, span)),
                                tail: Box::new(StmtList::Empty),
                            };
                            Expr::Bind {
                                recv: Box::new(other),
                                pat: Pat::Wild { span },
                                body: Box::new(body),
                                mark: span,
                            }
                        },
                    };
                    StmtList::Cons {
                        head: Box::new(Stmt::Tail { expr: Box::new(lifted) }),
                        tail: Box::new(StmtList::Empty),
                    }
                },
                other => {
                    let last = StmtList::Cons {
                        head: Box::new(pure_unit(monadic_type, span)),
                        tail: Box::new(StmtList::Empty),
                    };
                    StmtList::Cons { head: Box::new(other), tail: Box::new(last) }
                },
            },
            more => {
                let rest = lift_to_unit(more, monadic_type, span);
                StmtList::Cons { head, tail: Box::new(rest) }
            },
        },
    }
}

/// Makes `s` end in a value.
pub fn complete_to_value(s: StmtList, monadic_type: &Raw, span: u64) -> (r: StmtList)
    ensures
        r == value_completed(s, *monadic_type, span),
    decreases s,
{
    match s {
        StmtList::Empty => StmtList::Cons {
            head: Box::new(pure_unit(monadic_type, span)),
            tail: Box::new(StmtList::Empty),
        },
        StmtList::Cons { head, tail } => match *tail {
            StmtList::Empty => match *head {
                Stmt::Tail { expr } => {
                    let last = match *expr {
                        Expr::Bind { recv, pat, body, mark } => {
                            let body = complete_to_value(*body, monadic_type, span);
                            Expr::Bind { recv, pat, body: Box::new(body), mark }
                        },
                        other => other,
                    };
                    StmtList::Cons {
                        head: Box::new(Stmt::Tail { expr: Box::new(last) }),
                        tail: Box::new(StmtList::Empty),
                    }
                },
                other => {
                    let last = StmtList::Cons {
                        head: Box::new(pure_unit(monadic_type, span)),
                        tail: Box::new(StmtList::Empty),
                    };
                    StmtList::Cons { head: Box::new(other), tail: Box::new(last) }
                },
            },
            more => {
                let rest = complete_to_value(more, monadic_type, span);
                StmtList::Cons { head, tail: Box::new(rest) }
            },
        },
    }
}

/// Rewrites statement `head` placed in front of the statements `tail`,
/// given `rest`, the rewrite of `tail`.
fn rewrite_step(head: Stmt, rest: StmtList, Ghost(tail): Ghost<StmtList>, monadic_type: &Raw) -> (r:
    StmtList)
    requires
        rest == rewritten_stmts(tail, *monadic_type),
    ensures
        r == rewritten_stmts(prepend(head, tail), *monadic_type),
    decreases head,
{
    match head {
        Stmt::Let { pat, init } => match init {
            Some(e) => match *e {
                Expr::Try { inner, mark } => {
                    let bound = monadic_expr_parser(*inner, monadic_type);
                    continuation(bound, pat, rest, mark)
                },
                other => {
                    let init = monadic_expr_parser(other, monadic_type);
                    let s = Stmt::Let { pat, init: Some(Box::new(init)) };
                    StmtList::Cons { head: Box::new(s), tail: Box::new(rest) }
                },
            },
            None => {
                let s = Stmt::Let { pat, init: None };
                StmtList::Cons { head: Box::new(s), tail: Box::new(rest) }
            },
        },
        Stmt::Arrow { pat, init, mark } => match init {
            Some(e) => {
                let bound = monadic_expr_parser(*e, monadic_type);
                continuation(bound, pat, rest, mark)
            },
            None => {
                let err = Expr::Error { misuse: Misuse::Truncated, span: mark };
                let s = Stmt::Semi { expr: Box::new(err) };
                StmtList::Cons { head: Box::new(s), tail: Box::new(rest) }
            },
        },
        Stmt::Semi { expr } => match *expr {
            Expr::Try { inner, mark } => {
                let bound = monadic_expr_parser(*inner, monadic_type);
                continuation(bound, Pat::Wild { span: mark }, rest, mark)
            },
            other => {
                let e = monadic_expr_parser(other, monadic_type);
                let s = Stmt::Semi { expr: Box::new(e) };
                StmtList::Cons { head: Box::new(s), tail: Box::new(rest) }
            },
        },
        Stmt::Tail { expr } => match *expr {
            Expr::Try { inner, mark } => {
                let bound = monadic_expr_parser(*inner, monadic_type);
                continuation(bound, Pat::Wild { span: mark }, rest, mark)
            },
            other => {
                let e = monadic_expr_parser(other, monadic_type);
                let s = Stmt::Tail { expr: Box::new(e) };
                StmtList::Cons { head: Box::new(s), tail: Box::new(rest) }
            },
        },
        other => {
            StmtList::Cons { head: Box::new(other), tail: Box::new(rest) }
        },
    }
}

/// The sequence of the given statements, in order.
pub open spec fn from_items(s: Seq<Stmt>) -> StmtList
    decreases s.len(),
{
    if s.len() == 0 {
        StmtList::Empty
    } else {
        prepend(s[0], from_items(s.drop_first()))
    }
}

/// A sequence is rebuilt from its statements.
proof fn lemma_from_items(l: StmtList)
    ensures
        from_items(l.items()) == l,
    decreases l,
{
    if let StmtList::Cons { head, tail } = l {
        lemma_from_items(*tail);
        assert(l.items().drop_first() =~= tail.items());
    }
}

/// Each statement of a sequence is smaller than the sequence.
proof fn lemma_items_smaller(l: StmtList, i: int)
    requires
        0 <= i < l.items().len(),
    ensures
        decreases_to!(l => l.items()[i]),
    decreases l,
{
    if let StmtList::Cons { head, tail } = l {
        if i == 0 {
            assert(l.items()[0] == *head);
            assert(decreases_to!(l => *head));
        } else {
            lemma_items_smaller(*tail, i - 1);
            assert(l.items()[i] == tail.items()[i - 1]);
            assert(decreases_to!(l => *tail));
        }
    }
}

/// Rewrites a statement sequence in monadic notation for the monad
/// `monadic_type`. The statements are taken from the front, then the
/// continuations are built from the back, so the depth of recursion is the
/// nesting depth of the input, not its length.
pub fn monadic_parse(input: StmtList, monadic_type: &Raw) -> (r: StmtList)
    ensures
        r == rewritten_stmts(input, *monadic_type),
    decreases input,
{
    let ghost whole = input;
    let mut v = input.into_vec();
    let ghost all = v@;
    let ghost n = all.len() as int;
    let mut acc = StmtList::Empty;
    assert(all.subrange(n, n) =~= Seq::<Stmt>::empty());
    while v.len() > 0
        invariant
            v.len() <= n,
            all == whole.items(),
            whole == input,
            v@ == all.subrange(0, v.len() as int),
            n == all.len(),
            acc == rewritten_stmts(from_items(all.subrange(v.len() as int, n)), *monadic_type),
        decreases v.len(),
    {
        let ghost k: int = v.len() - 1;
        let ghost after = from_items(all.subrange(k + 1, n));
        let ghost before = v@;
        let s = v.pop().unwrap();
        proof {
            assert(before == all.subrange(0, k + 1));
            assert(v@ =~= all.subrange(0, k));
            assert(s == before[k]);
            assert(s == all[k]);
            assert(all.subrange(k, n).drop_first() =~= all.subrange(k + 1, n));
            assert(from_items(all.subrange(k, n)) == prepend(s, after));
            lemma_items_smaller(whole, k);
        }
        acc = rewrite_step(s, acc, Ghost(after), monadic_type);
    }
    proof {
        assert(all.subrange(0, n) =~= all);
        lemma_from_items(whole);
    }
    acc
}

/// Rewrites one expression for the monad `monadic_type`.
pub fn monadic_expr_parser(expr: Expr, monadic_type: &Raw) -> (r: Expr)
    ensures
        r == rewritten_expr(expr, *monadic_type),
    decreases expr,
{
    match expr {
        Expr::Block { stmts, span } => {
            let stmts = monadic_parse(*stmts, monadic_type);
            Expr::Block { stmts: Box::new(stmts), span }
        },
        Expr::If { cond, then_branch, else_branch, span } => {
            let marked = stmts_contain_marker(&then_branch) || match &else_branch {
                Some(b) => contains_marker(b),
                None => false,
            };
            if !marked {
                return UnsupportedReporter::fold_expr(
                    Expr::If { cond, then_branch, else_branch, span },
                );
            }
            let cond = UnsupportedReporter::fold_expr(*cond);
            let then_rewritten = monadic_parse(*then_branch, monadic_type);
            match else_branch {
                Some(b) => {
                    let b = match monadic_expr_parser(*b, monadic_type) {
                        Expr::Block { stmts, span } => {
                            let stmts = complete_to_value(*stmts, monadic_type, span);
                            Expr::Block { stmts: Box::new(stmts), span }
                        },
                        other => other,
                    };
                    let then_completed = complete_to_value(then_rewritten, monadic_type, span);
                    Expr::If {
                        cond: Box::new(cond),
                        then_branch: Box::new(then_completed),
                        else_branch: Some(Box::new(b)),
                        span,
                    }
                },
                None => {
                    let then_lifted = lift_to_unit(then_rewritten, monadic_type, span);
                    let unit = StmtList::Cons {
                        head: Box::new(pure_unit(monadic_type, span)),
                        tail: Box::new(StmtList::Empty),
                    };
                    Expr::If {
                        cond: Box::new(cond),
                        then_branch: Box::new(then_lifted),
                        else_branch: Some(Box::new(Expr::Block { stmts: Box::new(unit), span })),
                        span,
                    }
                },
            }
        },
        Expr::For { pat, iter, body, span } => {
            if !stmts_contain_marker(&body) {
                return UnsupportedReporter::fold_expr(Expr::For { pat, iter, body, span });
            }
            let iter = UnsupportedReporter::fold_expr(*iter);
            let body = monadic_parse(*body, monadic_type);
            Expr::Fold {
                iter: Box::new(iter),
                pat,
                body: Box::new(body),
                ty: monadic_type.duplicate(),
                span,
            }
        },
        Expr::Outer { outer, inner } => {
            let inner = monadic_expr_parser(*inner, monadic_type);
            Expr::Outer { outer, inner: Box::new(inner) }
        },
        other => UnsupportedReporter::fold_expr(other),
    }
}

/// Rewrites a function written in monadic notation: its body becomes a
/// `bind` chain and its return type is wrapped in `monadic_type`.
pub fn monadic(monadic_type: Raw, function: FnItem) -> (r: FnItem)
    ensures
        r.head == function.head,
        r.ret == function.ret,
        r.monad == Some(monadic_type),
        r.body == rewritten_stmts(function.body, monadic_type),
{
    let FnItem { head, ret, monad: _, body } = function;
    let body = monadic_parse(body, &monadic_type);
    FnItem { head, ret, monad: Some(monadic_type), body }
}

} // verus!
