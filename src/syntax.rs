//! The statement and expression tree that the rewrite reads and produces.
use vstd::prelude::*;

verus! {

/// A piece of user source kept exactly as written, with the span it came from.
#[derive(Debug, PartialEq, Eq)]
pub struct Raw {
    pub text: String,
    pub span: u64,
}

impl Raw {
    /// A second copy of the same source piece.
    pub fn duplicate(&self) -> (r: Raw)
        ensures
            r == *self,
    {
        Raw { text: self.text.clone(), span: self.span }
    }
}

/// The pattern a bound value is given.
#[derive(Debug, PartialEq, Eq)]
pub enum Pat {
    /// A pattern written by the user.
    Named { raw: Raw },
    /// The discard pattern `_` that a bare `expr?;` binds, at the span of its marker.
    Wild { span: u64 },
}

/// What went wrong where a marker cannot be rewritten.
#[derive(Clone, Copy, Debug, PartialEq, Eq)]
pub enum Misuse {
    /// A marker in a position that is neither the initializer of a binding
    /// nor the whole of an expression statement.
    Placement,
    /// An arrow binding with nothing after its arrow.
    Truncated,
}

impl Misuse {
    /// The text of the diagnostic.
    pub fn message(&self) -> (r: &'static str)
        ensures
            *self == Misuse::Placement ==> r@ == "monadic bind can not be used at this point"@,
            *self == Misuse::Truncated ==> r@ == "expected an expression after `<-`"@,
    {
        match self {
            Misuse::Placement => {
                proof {
                    reveal_strlit("monadic bind can not be used at this point");
                }
                "monadic bind can not be used at this point"
            },
            Misuse::Truncated => {
                proof {
                    reveal_strlit("expected an expression after `<-`");
                }
                "expected an expression after `<-`"
            },
        }
    }
}

/// An expression.
#[derive(Debug, PartialEq, Eq)]
pub enum Expr {
    /// An expression with no sub-expression: a path, a literal.
    Plain { raw: Raw },
    /// Any other expression, given by its shape (`head`) and its direct
    /// sub-expressions in source order.
    Compound { head: Raw, parts: Box<Exprs> },
    /// `inner?`: the attached bind marker; `mark` is the span of the `?`.
    Try { inner: Box<Expr>, mark: u64 },
    /// `{ stmts }`.
    Block { stmts: Box<StmtList>, span: u64 },
    /// `if cond { then_branch } else else_branch`.
    If { cond: Box<Expr>, then_branch: Box<StmtList>, else_branch: Option<Box<Expr>>, span: u64 },
    /// `for pat in iter { body }`.
    For { pat: Raw, iter: Box<Expr>, body: Box<StmtList>, span: u64 },
    /// `(recv).bind(|pat| { body })`; `mark` is the span the `bind` carries.
    Bind { recv: Box<Expr>, pat: Pat, body: Box<StmtList>, mark: u64 },
    /// `(iter).fold(ty::pure(()), |m, pat| m.bind(|_| { body }))`.
    Fold { iter: Box<Expr>, pat: Raw, body: Box<StmtList>, ty: Raw, span: u64 },
    /// `ty::pure(())`.
    PureUnit { ty: Raw, span: u64 },
    /// An expression with the attributes or label written in front of it,
    /// kept as written.
    Outer { outer: Raw, inner: Box<Expr> },
    /// A deliberately invalid expression carrying a diagnostic.
    Error { misuse: Misuse, span: u64 },
}

/// A sequence of expressions, consumed front to back.
#[derive(Debug, PartialEq, Eq)]
pub enum Exprs {
    Empty,
    Cons { head: Box<Expr>, tail: Box<Exprs> },
}

/// A statement.
#[derive(Debug, PartialEq, Eq)]
pub enum Stmt {
    /// `let pat = init;` or `let pat;`.
    Let { pat: Pat, init: Option<Box<Expr>> },
    /// `let pat <- init;`: the arrow bind marker; `mark` is the span of the arrow.
    Arrow { pat: Pat, init: Option<Box<Expr>>, mark: u64 },
    /// `expr;`.
    Semi { expr: Box<Expr> },
    /// `expr` at the end of a block.
    Tail { expr: Box<Expr> },
    /// Anything else (an item), passed through.
    Item { raw: Raw },
}

/// A statement sequence: the cursor that the rewrite consumes front to back.
#[derive(Debug, PartialEq, Eq)]
pub enum StmtList {
    Empty,
    Cons { head: Box<Stmt>, tail: Box<StmtList> },
}

/// A function whose body is written in monadic notation.
#[derive(Debug, PartialEq, Eq)]
pub struct FnItem {
    /// Attributes, visibility and signature up to the return type.
    pub head: Raw,
    /// The declared return type, if any.
    pub ret: Option<Raw>,
    /// The monad type the return type is wrapped in, once rewritten.
    pub monad: Option<Raw>,
    pub body: StmtList,
}

impl StmtList {
    /// The statements in order.
    pub open spec fn items(self) -> Seq<Stmt>
        decreases self,
    {
        match self {
            StmtList::Empty => Seq::empty(),
            StmtList::Cons { head, tail } => seq![*head] + tail.items(),
        }
    }

    /// Builds the sequence of the given statements, in order.
    pub fn from_vec(v: Vec<Stmt>) -> (r: StmtList)
        ensures
            r.items() == v@,
    {
        let mut v = v;
        let ghost all = v@;
        let mut r = StmtList::Empty;
        while v.len() > 0
            invariant
                all == v@ + r.items(),
            decreases v.len(),
        {
            let ghost before = v@;
            let s = v.pop().unwrap();
            proof {
                assert(before == v@.push(s));
            }
            let ghost rest = r.items();
            r = StmtList::Cons { head: Box::new(s), tail: Box::new(r) };
            assert(all == v@ + r.items()) by {
                assert(r.items() == seq![s] + rest);
                assert(v@.push(s) + rest =~= v@ + (seq![s] + rest));
            }
        }
        assert(v@ + r.items() =~= r.items());
        r
    }

    /// The statements in order.
    pub fn into_vec(self) -> (r: Vec<Stmt>)
        ensures
            r@ == self.items(),
    {
        let ghost all = self.items();
        let mut v: Vec<Stmt> = Vec::new();
        let mut cur = self;
        loop
            invariant_except_break
                all == v@ + cur.items(),
            ensures
                all == v@,
            decreases cur,
        {
            match cur {
                StmtList::Empty => {
                    assert(v@ + Seq::<Stmt>::empty() =~= v@);
                    break;
                },
                StmtList::Cons { head, tail } => {
                    let ghost before = v@;
                    v.push(*head);
                    assert(before + (seq![*head] + tail.items()) =~= v@ + tail.items());
                    cur = *tail;
                },
            }
        }
        v
    }
}

impl Exprs {
    /// The expressions in order.
    pub open spec fn items(self) -> Seq<Expr>
        decreases self,
    {
        match self {
            Exprs::Empty => Seq::empty(),
            Exprs::Cons { head, tail } => seq![*head] + tail.items(),
        }
    }

    /// Builds the sequence of the given expressions, in order.
    pub fn from_vec(v: Vec<Expr>) -> (r: Exprs)
        ensures
            r.items() == v@,
    {
        let mut v = v;
        let ghost all = v@;
        let mut r = Exprs::Empty;
        while v.len() > 0
            invariant
                all == v@ + r.items(),
            decreases v.len(),
        {
            let ghost before = v@;
            let e = v.pop().unwrap();
            proof {
                assert(before == v@.push(e));
            }
            let ghost rest = r.items();
            r = Exprs::Cons { head: Box::new(e), tail: Box::new(r) };
            assert(all == v@ + r.items()) by {
                assert(r.items() == seq![e] + rest);
                assert(v@.push(e) + rest =~= v@ + (seq![e] + rest));
            }
        }
        assert(v@ + r.items() =~= r.items());
        r
    }
}

} // verus!
