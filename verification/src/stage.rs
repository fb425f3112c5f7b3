//! The staged-callable abstraction: the [`Func`] trait, which both primitive
//! callables and composites satisfy, and [`Function`], the lift from a plain
//! Rust callable to a stage.

use vstd::prelude::*;

verus! {

/// A staged callable: a value with one call operation from an argument of
/// type `A` to a result of type `B`.
///
/// `pre` says on which arguments the stage may be invoked, and `post` which
/// results it may produce for a given argument; `call` is held to both. The
/// engine never inspects a stage beyond this contract, and a composite built
/// by [`crate::compose`] satisfies `Func` itself, so it can stand on either
/// side of a further composition.
///
/// A stage of several positional parameters is a `Func` whose argument type
/// is the tuple of them; passing a tuple result on to such a stage whole is
/// what the spread rules of [`crate::compose`] do.
pub trait Func<A, B>: Sized {
    /// On which arguments the stage may be invoked.
    spec fn pre(&self, a: A) -> bool;

    /// Which results the stage may produce for a given argument.
    spec fn post(&self, a: A, b: B) -> bool;

    /// Invoke the stage.
    fn call(&self, a: A) -> (b: B)
        requires
            self.pre(a),
        ensures
            self.post(a, b),
    ;
}

/// The lift from a plain callable to a stage: wraps any `Fn(A) -> B` and
/// satisfies [`Func`] with that callable's own calling contract. A chain of
/// one stage is the stage unchanged, so the lift adds nothing: its `pre` and
/// `post` are exactly `call_requires` and `call_ensures` of the wrapped
/// callable, and its output shape is the callable's own return shape.
pub struct Function<F>(pub F);

/// Builds the lift of a plain callable. The same value as `Function(f)`;
/// naming the callable at a site with an `Fn` bound is what lets the
/// verifier connect a named function's own contract to the wrapped value.
pub fn lift<A, B, F: Fn(A) -> B>(f: F) -> (w: Function<F>)
    ensures
        w.0 == f,
        forall|a: A| #[trigger] w.pre(a) == call_requires(f, (a,)),
        forall|a: A, b: B| #[trigger] w.post(a, b) == call_ensures(f, (a,), b),
{
    Function(f)
}

impl<A, B, F: Fn(A) -> B> Func<A, B> for Function<F> {
    open spec fn pre(&self, a: A) -> bool {
        call_requires(self.0, (a,))
    }

    open spec fn post(&self, a: A, b: B) -> bool {
        call_ensures(self.0, (a,), b)
    }

    fn call(&self, a: A) -> (b: B) {
        (self.0)(a)
    }
}

} // verus!
