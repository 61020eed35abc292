use mrust::monad::{Applicative, Monad};
use mrust::rewrite::{monadic, monadic_expr_parser, monadic_parse};
use mrust::report::UnsupportedReporter;
use mrust::syntax::{Expr, Exprs, FnItem, Misuse, Pat, Raw, Stmt, StmtList};

fn raw(text: &str, span: u64) -> Raw {
    Raw { text: text.to_string(), span }
}

fn plain(text: &str, span: u64) -> Expr {
    Expr::Plain { raw: raw(text, span) }
}

fn call(head: &str, span: u64, args: Vec<Expr>) -> Expr {
    Expr::Compound { head: raw(head, span), parts: Box::new(Exprs::from_vec(args)) }
}

fn try_(inner: Expr, mark: u64) -> Expr {
    Expr::Try { inner: Box::new(inner), mark }
}

fn named(text: &str, span: u64) -> Pat {
    Pat::Named { raw: raw(text, span) }
}

fn semi(e: Expr) -> Stmt {
    Stmt::Semi { expr: Box::new(e) }
}

fn tail(e: Expr) -> Stmt {
    Stmt::Tail { expr: Box::new(e) }
}

fn arrow(pat: &str, span: u64, e: Expr, mark: u64) -> Stmt {
    Stmt::Arrow { pat: named(pat, span), init: Some(Box::new(e)), mark }
}

fn let_(pat: &str, span: u64, e: Expr) -> Stmt {
    Stmt::Let { pat: named(pat, span), init: Some(Box::new(e)) }
}

fn list(v: Vec<Stmt>) -> StmtList {
    StmtList::from_vec(v)
}

fn bind(recv: Expr, pat: Pat, body: Vec<Stmt>, mark: u64) -> Expr {
    Expr::Bind { recv: Box::new(recv), pat, body: Box::new(list(body)), mark }
}

fn ty() -> Raw {
    raw("Option", 0)
}

fn pure_unit(span: u64) -> Stmt {
    tail(Expr::PureUnit { ty: ty(), span })
}

/// `let a <- lookup("k"); let b = 2; pure(a + b)`
fn lookup_sequence(key: &str) -> StmtList {
    list(vec![
        arrow("a", 1, call("lookup", 2, vec![plain(key, 3)]), 4),
        let_("b", 5, plain("2", 6)),
        tail(call("pure", 7, vec![call("+", 8, vec![plain("a", 9), plain("b", 10)])])),
    ])
}

fn lookup(key: &str) -> Option<i32> {
    if key == "missing" { None } else { Some(40) }
}

/// Runs the rewritten form of `lookup_sequence` over the optional-value monad.
fn run_lookup_sequence(key: &str) -> Option<i32> {
    lookup(key).bind(|a| {
        let b = 2;
        Option::pure(a + b)
    })
}

#[test]
fn tail_bind_is_the_bound_expression() {
    let input = list(vec![semi(try_(plain("value_from_marker", 1), 2))]);
    let out = monadic_parse(input, &ty());
    assert_eq!(out, list(vec![tail(plain("value_from_marker", 1))]));
}

#[test]
fn tail_bind_after_plain_statements() {
    let input = list(vec![
        let_("x", 1, plain("3", 2)),
        let_("y", 3, try_(call("f", 4, vec![plain("x", 5)]), 6)),
    ]);
    let out = monadic_parse(input, &ty());
    let expected = list(vec![let_("x", 1, plain("3", 2)), tail(call("f", 4, vec![plain("x", 5)]))]);
    assert_eq!(out, expected);
}

#[test]
fn binds_nest_in_source_order() {
    let input = list(vec![
        arrow("a", 1, plain("e1", 2), 3),
        arrow("b", 4, plain("e2", 5), 6),
        tail(call("pure", 7, vec![plain("a", 8), plain("b", 9)])),
    ]);
    let out = monadic_parse(input, &ty());
    let inner = bind(
        plain("e2", 5),
        named("b", 4),
        vec![tail(call("pure", 7, vec![plain("a", 8), plain("b", 9)]))],
        6,
    );
    let expected = list(vec![tail(bind(plain("e1", 2), named("a", 1), vec![tail(inner)], 3))]);
    assert_eq!(out, expected);
}

#[test]
fn try_statement_binds_discard_pattern() {
    let input = list(vec![semi(try_(plain("m", 1), 2)), tail(plain("v", 3))]);
    let out = monadic_parse(input, &ty());
    let expected = list(vec![tail(bind(plain("m", 1), Pat::Wild { span: 2 }, vec![tail(plain("v", 3))], 2))]);
    assert_eq!(out, expected);
}

#[test]
fn conditional_without_else_is_uniform() {
    let input = Expr::If {
        cond: Box::new(plain("cond", 1)),
        then_branch: Box::new(list(vec![semi(try_(plain("marker", 2), 3))])),
        else_branch: None,
        span: 4,
    };
    let out = monadic_expr_parser(input, &ty());
    let expected = Expr::If {
        cond: Box::new(plain("cond", 1)),
        then_branch: Box::new(list(vec![tail(bind(plain("marker", 2), Pat::Wild { span: 4 }, vec![pure_unit(4)], 4))])),
        else_branch: Some(Box::new(Expr::Block { stmts: Box::new(list(vec![pure_unit(4)])), span: 4 })),
        span: 4,
    };
    assert_eq!(out, expected);
}

#[test]
fn conditional_with_else_keeps_branches() {
    let input = Expr::If {
        cond: Box::new(plain("c", 1)),
        then_branch: Box::new(list(vec![tail(try_(plain("x", 2), 3))])),
        else_branch: Some(Box::new(Expr::Block { stmts: Box::new(list(vec![tail(plain("y", 4))])), span: 5 })),
        span: 6,
    };
    let out = monadic_expr_parser(input, &ty());
    let expected = Expr::If {
        cond: Box::new(plain("c", 1)),
        then_branch: Box::new(list(vec![tail(plain("x", 2))])),
        else_branch: Some(Box::new(Expr::Block { stmts: Box::new(list(vec![tail(plain("y", 4))])), span: 5 })),
        span: 6,
    };
    assert_eq!(out, expected);
}

#[test]
fn conditional_branch_ending_in_statement_gets_pure_unit() {
    let input = Expr::If {
        cond: Box::new(plain("c", 1)),
        then_branch: Box::new(list(vec![let_("v", 2, try_(plain("m", 3), 4)), semi(plain("g", 5))])),
        else_branch: None,
        span: 6,
    };
    let out = monadic_expr_parser(input, &ty());
    // the chain is followed to its innermost body, which ends in a statement
    let expected = Expr::If {
        cond: Box::new(plain("c", 1)),
        then_branch: Box::new(list(vec![tail(bind(
            plain("m", 3),
            named("v", 2),
            vec![semi(plain("g", 5)), pure_unit(6)],
            4,
        ))])),
        else_branch: Some(Box::new(Expr::Block { stmts: Box::new(list(vec![pure_unit(6)])), span: 6 })),
        span: 6,
    };
    assert_eq!(out, expected);
}

#[test]
fn loop_body_is_the_rewritten_chain() {
    let input = Expr::For {
        pat: raw("x", 1),
        iter: Box::new(plain("xs", 2)),
        body: Box::new(list(vec![let_("y", 3, try_(call("f", 4, vec![plain("x", 5)]), 6)), tail(call("g", 7, vec![plain("y", 8)]))])),
        span: 9,
    };
    let out = monadic_expr_parser(input, &ty());
    let expected = Expr::Fold {
        iter: Box::new(plain("xs", 2)),
        pat: raw("x", 1),
        body: Box::new(list(vec![tail(bind(
            call("f", 4, vec![plain("x", 5)]),
            named("y", 3),
            vec![tail(call("g", 7, vec![plain("y", 8)]))],
            6,
        ))])),
        ty: ty(),
        span: 9,
    };
    assert_eq!(out, expected);
}

#[test]
fn loop_folds_from_pure_unit() {
    let input = Expr::For {
        pat: raw("x", 1),
        iter: Box::new(plain("xs", 2)),
        body: Box::new(list(vec![semi(try_(call("marker", 3, vec![plain("x", 4)]), 5))])),
        span: 6,
    };
    let out = monadic_expr_parser(input, &ty());
    let expected = Expr::Fold {
        iter: Box::new(plain("xs", 2)),
        pat: raw("x", 1),
        body: Box::new(list(vec![tail(call("marker", 3, vec![plain("x", 4)]))])),
        ty: ty(),
        span: 6,
    };
    assert_eq!(out, expected);
}

#[test]
fn conditional_with_else_branches_end_in_values() {
    let input = Expr::If {
        cond: Box::new(plain("c", 1)),
        then_branch: Box::new(list(vec![semi(try_(plain("a", 2), 3)), semi(plain("x", 4))])),
        else_branch: Some(Box::new(Expr::Block {
            stmts: Box::new(list(vec![semi(try_(plain("b", 5), 6))])),
            span: 7,
        })),
        span: 8,
    };
    let out = monadic_expr_parser(input, &ty());
    let expected = Expr::If {
        cond: Box::new(plain("c", 1)),
        then_branch: Box::new(list(vec![tail(bind(
            plain("a", 2),
            Pat::Wild { span: 3 },
            vec![semi(plain("x", 4)), pure_unit(8)],
            3,
        ))])),
        else_branch: Some(Box::new(Expr::Block { stmts: Box::new(list(vec![tail(plain("b", 5))])), span: 7 })),
        span: 8,
    };
    assert_eq!(out, expected);
}

#[test]
fn try_sites_with_plain_statements_between_nest_in_order() {
    let input = list(vec![
        let_("x", 1, plain("1", 2)),
        let_("a", 3, try_(plain("e1", 4), 5)),
        semi(call("log", 6, vec![plain("a", 7)])),
        semi(try_(plain("e2", 8), 9)),
        tail(plain("done", 10)),
    ]);
    let out = monadic_parse(input, &ty());
    let inner = bind(plain("e2", 8), Pat::Wild { span: 9 }, vec![tail(plain("done", 10))], 9);
    let expected = list(vec![
        let_("x", 1, plain("1", 2)),
        tail(bind(
            plain("e1", 4),
            named("a", 3),
            vec![semi(call("log", 6, vec![plain("a", 7)])), tail(inner)],
            5,
        )),
    ]);
    assert_eq!(out, expected);
}

#[test]
fn loop_without_marker_is_kept() {
    let make = || Expr::For {
        pat: raw("x", 1),
        iter: Box::new(plain("xs", 2)),
        body: Box::new(list(vec![semi(call("print", 3, vec![plain("x", 4)]))])),
        span: 5,
    };
    assert_eq!(monadic_expr_parser(make(), &ty()), make());
}

#[test]
fn marker_in_condition_is_rejected() {
    let input = Expr::If {
        cond: Box::new(try_(try_(plain("marker", 1), 2), 3)),
        then_branch: Box::new(list(vec![semi(try_(plain("m", 4), 5))])),
        else_branch: None,
        span: 6,
    };
    match monadic_expr_parser(input, &ty()) {
        Expr::If { cond, .. } => assert_eq!(*cond, Expr::Error { misuse: Misuse::Placement, span: 3 }),
        other => panic!("expected a conditional, got {:?}", other),
    }
}

#[test]
fn marker_in_iterable_is_rejected() {
    let input = Expr::For {
        pat: raw("x", 1),
        iter: Box::new(call("items", 2, vec![try_(plain("src", 3), 4)])),
        body: Box::new(list(vec![semi(try_(plain("m", 5), 6))])),
        span: 7,
    };
    match monadic_expr_parser(input, &ty()) {
        Expr::Fold { iter, .. } => assert_eq!(
            *iter,
            call("items", 2, vec![Expr::Error { misuse: Misuse::Placement, span: 4 }])
        ),
        other => panic!("expected a fold, got {:?}", other),
    }
}

#[test]
fn nested_marker_in_call_is_rejected() {
    let input = list(vec![tail(call("f", 1, vec![try_(plain("x", 2), 3), plain("y", 4)]))]);
    let out = monadic_parse(input, &ty());
    let expected = list(vec![tail(call(
        "f",
        1,
        vec![Expr::Error { misuse: Misuse::Placement, span: 3 }, plain("y", 4)],
    ))]);
    assert_eq!(out, expected);
}

#[test]
fn errors_do_not_stop_siblings() {
    let input = list(vec![
        semi(call("f", 1, vec![try_(plain("x", 2), 3)])),
        arrow("a", 4, plain("e", 5), 6),
        tail(plain("a", 7)),
    ]);
    let out = monadic_parse(input, &ty());
    let expected = list(vec![
        semi(call("f", 1, vec![Expr::Error { misuse: Misuse::Placement, span: 3 }])),
        tail(bind(plain("e", 5), named("a", 4), vec![tail(plain("a", 7))], 6)),
    ]);
    assert_eq!(out, expected);
}

#[test]
fn truncated_arrow_is_reported() {
    let input = list(vec![
        Stmt::Arrow { pat: named("a", 1), init: None, mark: 2 },
        tail(plain("v", 3)),
    ]);
    let out = monadic_parse(input, &ty());
    let expected = list(vec![semi(Expr::Error { misuse: Misuse::Truncated, span: 2 }), tail(plain("v", 3))]);
    assert_eq!(out, expected);
}

#[test]
fn nested_arrow_is_reported() {
    let input = Stmt::Arrow { pat: named("a", 1), init: Some(Box::new(plain("e", 2))), mark: 3 };
    let out = UnsupportedReporter::fold_stmt(input);
    assert_eq!(out, semi(Expr::Error { misuse: Misuse::Placement, span: 3 }));
}

#[test]
fn diagnostics_have_messages() {
    assert_eq!(Misuse::Placement.message(), "monadic bind can not be used at this point");
    assert_eq!(Misuse::Truncated.message(), "expected an expression after `<-`");
}

#[test]
fn block_expression_is_rewritten() {
    let input = Expr::Block {
        stmts: Box::new(list(vec![let_("a", 1, try_(plain("m", 2), 3)), tail(plain("a", 4))])),
        span: 5,
    };
    let out = monadic_expr_parser(input, &ty());
    let expected = Expr::Block {
        stmts: Box::new(list(vec![tail(bind(plain("m", 2), named("a", 1), vec![tail(plain("a", 4))], 3))])),
        span: 5,
    };
    assert_eq!(out, expected);
}

#[test]
fn plain_statements_pass_through_and_rewrite_is_idempotent() {
    let plain_code = || {
        list(vec![
            let_("x", 1, call("f", 2, vec![plain("y", 3)])),
            Stmt::Item { raw: raw("fn g() {}", 4) },
            semi(call("h", 5, vec![plain("x", 6)])),
            tail(plain("x", 7)),
        ])
    };
    assert_eq!(monadic_parse(plain_code(), &ty()), plain_code());
    let once = monadic_parse(lookup_sequence("k"), &ty());
    let twice = monadic_parse(monadic_parse(lookup_sequence("k"), &ty()), &ty());
    assert_eq!(once, twice);
}

#[test]
fn lookup_sequence_end_to_end() {
    let out = monadic_parse(lookup_sequence("k"), &ty());
    let expected = list(vec![tail(bind(
        call("lookup", 2, vec![plain("k", 3)]),
        named("a", 1),
        vec![
            let_("b", 5, plain("2", 6)),
            tail(call("pure", 7, vec![call("+", 8, vec![plain("a", 9), plain("b", 10)])])),
        ],
        4,
    ))]);
    assert_eq!(out, expected);
    assert_eq!(run_lookup_sequence("missing"), None);
    assert_eq!(run_lookup_sequence("k"), Some(42));
}

#[test]
fn returning_test() {
    // `let a = some_thing()?; let b = 2; ret(a + b)` as rewritten
    let some_thing = || -> Option<i32> { Option::pure(2) };
    let r = some_thing().bind(|a| {
        let b = 2;
        Option::pure(a + b)
    });
    assert_eq!(r, Some(4));
}

#[test]
fn failing_test() {
    // `let a = some_thing()?; let b = no_thing()?; ret(a + b)` as rewritten
    let some_thing = || -> Option<i32> { Option::pure(2) };
    let no_thing = || -> Option<i32> { None };
    let r = some_thing().bind(|a| no_thing().bind(|b| Option::pure(a + b)));
    assert_eq!(r, None);
}

#[test]
fn function_return_type_is_wrapped() {
    let f = FnItem {
        head: raw("fn returning_test()", 1),
        ret: Some(raw("i32", 2)),
        monad: None,
        body: lookup_sequence("k"),
    };
    let out = monadic(raw("Option", 9), f);
    assert_eq!(out.head, raw("fn returning_test()", 1));
    assert_eq!(out.ret, Some(raw("i32", 2)));
    assert_eq!(out.monad, Some(raw("Option", 9)));
    assert_eq!(out.body, monadic_parse(lookup_sequence("k"), &raw("Option", 9)));
}

#[test]
fn statement_list_round_trip() {
    let v = vec![tail(plain("a", 1)), semi(plain("b", 2))];
    let l = StmtList::from_vec(v);
    assert_eq!(l.into_vec(), vec![tail(plain("a", 1)), semi(plain("b", 2))]);
}

#[test]
fn attributed_block_keeps_attributes_and_is_rewritten() {
    let input = Expr::Outer {
        outer: raw("'outer:", 1),
        inner: Box::new(Expr::Block {
            stmts: Box::new(list(vec![let_("a", 2, try_(plain("m", 3), 4)), tail(plain("a", 5))])),
            span: 6,
        }),
    };
    let out = monadic_expr_parser(input, &ty());
    let expected = Expr::Outer {
        outer: raw("'outer:", 1),
        inner: Box::new(Expr::Block {
            stmts: Box::new(list(vec![tail(bind(plain("m", 3), named("a", 2), vec![tail(plain("a", 5))], 4))])),
            span: 6,
        }),
    };
    assert_eq!(out, expected);
}
