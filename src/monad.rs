//! The `pure` / `map` / `ap` / `bind` interface that rewritten code calls,
//! and its instances for `Option` and `Result`.
use vstd::prelude::*;

verus! {

/// A container that may hold a value of type `A` for the next step.
pub trait Carrier<A>: Sized {
    /// The value handed to the next step, or `None` where the container
    /// stops the chain.
    spec fn payload(&self) -> Option<A>;
}

/// Mapping a plain function over the held value.
pub trait Functor<A, B>: Carrier<A> {
    type Map;

    fn fmap<F: FnOnce(A) -> B>(self, f: F) -> (r: Self::Map)
        requires
            self.payload() is Some ==> f.requires((self.payload()->0,)),
    ;
}

/// Wrapping a plain value.
pub trait Applicative<A>: Carrier<A> {
    fn pure(a: A) -> (r: Self)
        ensures
            r.payload() == Some(a),
    ;
}

/// Applying a held function to the held value.
pub trait Apply<A, B, F: FnOnce(A) -> B>: Carrier<A> {
    type Funcs: Carrier<F>;

    type Out;

    fn ap(self, f: Self::Funcs) -> (r: Self::Out)
        requires
            self.payload() is Some && f.payload() is Some ==> f.payload()->0.requires(
                (self.payload()->0,),
            ),
    ;
}

/// Sequencing a step that depends on the held value.
pub trait Monad<A, B>: Carrier<A> {
    type Bind;

    fn bind<F: FnOnce(A) -> Self::Bind>(self, f: F) -> (r: Self::Bind)
        requires
            self.payload() is Some ==> f.requires((self.payload()->0,)),
        ensures
            self.payload() is Some ==> f.ensures((self.payload()->0,), r),
    ;
}

impl<A> Carrier<A> for Option<A> {
    open spec fn payload(&self) -> Option<A> {
        *self
    }
}

impl<A, B> Functor<A, B> for Option<A> {
    type Map = Option<B>;

    fn fmap<F: FnOnce(A) -> B>(self, f: F) -> (r: Option<B>)
        ensures
            match self {
                Some(a) => r is Some && f.ensures((a,), r->0),
                None => r is None,
            },
    {
        match self {
            Some(a) => Some(f(a)),
            None => None,
        }
    }
}

impl<A> Applicative<A> for Option<A> {
    fn pure(a: A) -> (r: Option<A>) {
        Some(a)
    }
}

impl<A, B, F: FnOnce(A) -> B> Apply<A, B, F> for Option<A> {
    type Funcs = Option<F>;

    type Out = Option<B>;

    fn ap(self, f: Option<F>) -> (r: Option<B>)
        ensures
            match (self, f) {
                (Some(a), Some(g)) => r is Some && g.ensures((a,), r->0),
                _ => r is None,
            },
    {
        match self {
            Some(a) => match f {
                Some(g) => Some(g(a)),
                None => None,
            },
            None => None,
        }
    }
}

impl<A, B> Monad<A, B> for Option<A> {
    type Bind = Option<B>;

    fn bind<F: FnOnce(A) -> Option<B>>(self, f: F) -> (r: Option<B>)
        ensures
            self is None ==> r is None,
    {
        match self {
            Some(a) => f(a),
            None => None,
        }
    }
}

impl<A, E> Carrier<A> for Result<A, E> {
    open spec fn payload(&self) -> Option<A> {
        match self {
            Ok(a) => Some(*a),
            Err(_) => None,
        }
    }
}

impl<A, B, E> Functor<A, B> for Result<A, E> {
    type Map = Result<B, E>;

    fn fmap<F: FnOnce(A) -> B>(self, f: F) -> (r: Result<B, E>)
        ensures
            match self {
                Ok(a) => r is Ok && f.ensures((a,), r->Ok_0),
                Err(e) => r == Err::<B, E>(e),
            },
    {
        match self {
            Ok(a) => Ok(f(a)),
            Err(e) => Err(e),
        }
    }
}

impl<A, E> Applicative<A> for Result<A, E> {
    fn pure(a: A) -> (r: Result<A, E>) {
        Ok(a)
    }
}

impl<A, B, E, F: FnOnce(A) -> B> Apply<A, B, F> for Result<A, E> {
    type Funcs = Result<F, E>;

    type Out = Result<B, E>;

    fn ap(self, f: Result<F, E>) -> (r: Result<B, E>)
        ensures
            match (self, f) {
                (Ok(a), Ok(g)) => r is Ok && g.ensures((a,), r->Ok_0),
                (Err(e), _) => r == Err::<B, E>(e),
                (Ok(_), Err(e)) => r == Err::<B, E>(e),
            },
    {
        match self {
            Ok(a) => match f {
                Ok(g) => Ok(g(a)),
                Err(e) => Err(e),
            },
            Err(e) => Err(e),
        }
    }
}

impl<A, B, E> Monad<A, B> for Result<A, E> {
    type Bind = Result<B, E>;

    fn bind<F: FnOnce(A) -> Result<B, E>>(self, f: F) -> (r: Result<B, E>)
        ensures
            self matches Err(e) ==> r == Err::<B, E>(e),
    {
        match self {
            Ok(a) => f(a),
            Err(e) => Err(e),
        }
    }
}

} // verus!
