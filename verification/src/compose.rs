//! The composition resolver: one composite type per output-shape tag of
//! [`crate::shape::ShapeTag`], each satisfying [`Func`] itself so that it can
//! stand on either side of a further composition. A chain of more than two
//! stages is built by folding the stage list right to left through these
//! constructors; the recursive case, a composite whose operand is itself a
//! composite, is handled by the [`Func`] bound alone.
//!
//! A mismatch between the left stage's output shape and the right stage's
//! input is rejected when the composite is built: no constructor accepts it,
//! so there is no call-time error path.
//!
//! Each composite carries a phantom marker for the type handed from its left
//! stage to its right stage; it pins the composition site's intermediate
//! type, which no field mentions.

use core::marker::PhantomData;
use crate::stage::Func;
use vstd::prelude::*;

verus! {

/// The composite for the `Plain` tag: the left stage's result is passed to
/// the right stage as it is. A left stage returning a tuple whose successor
/// takes the tuple whole (spread over its positional parameters) is this
/// same rule with `T` a tuple type.
pub struct Composed<P, Q, T> {
    /// The stage invoked first.
    pub left: P,
    /// The stage the result is passed to.
    pub right: Q,
    /// Marker for the intermediate type.
    pub mid: PhantomData<T>,
}

impl<A, T, C, P: Func<A, T>, Q: Func<T, C>> Func<A, C> for Composed<P, Q, T> {
    open spec fn pre(&self, a: A) -> bool {
        &&& self.left.pre(a)
        &&& forall|t: T| self.left.post(a, t) ==> self.right.pre(t)
    }

    open spec fn post(&self, a: A, c: C) -> bool {
        exists|t: T| self.left.post(a, t) && self.right.post(t, c)
    }

    fn call(&self, a: A) -> (c: C) {
        let t = self.left.call(a);
        self.right.call(t)
    }
}

/// Builds the composite for the `Plain` tag: on argument `x` the result is
/// `q.call(p.call(x))`.
pub fn compose<A, T, C, P: Func<A, T>, Q: Func<T, C>>(p: P, q: Q) -> (c: Composed<P, Q, T>)
    ensures
        c.left == p,
        c.right == q,
{
    Composed { left: p, right: q, mid: PhantomData }
}

/// Establishes that a plain composite may be invoked: its left stage may
/// be, and every result the left stage may hand on is accepted by the right
/// stage.
pub proof fn lemma_composed_pre<A, T, C, P: Func<A, T>, Q: Func<T, C>>(c: Composed<P, Q, T>, a: A)
    requires
        c.left.pre(a),
        forall|t: T| c.left.post(a, t) ==> c.right.pre(t),
    ensures
        c.pre(a),
{
}

/// Inverts a plain composite's postcondition: every result it may return
/// passed through some intermediate value, which this returns.
pub proof fn lemma_composed_post<A, T, C, P: Func<A, T>, Q: Func<T, C>>(
    c: Composed<P, Q, T>,
    a: A,
    out: C,
) -> (t: T)
    requires
        c.post(a, out),
    ensures
        c.left.post(a, t),
        c.right.post(t, out),
{
    choose|t: T| c.left.post(a, t) && c.right.post(t, out)
}

/// The composite for the `Tuple1` tag: the left stage's result is wrapped
/// into a one-element tuple, the declared parameter list of the right stage.
pub struct ComposedTuple<P, Q, T> {
    /// The stage invoked first.
    pub left: P,
    /// The stage the wrapped result is passed to.
    pub right: Q,
    /// Marker for the intermediate type.
    pub mid: PhantomData<T>,
}

impl<A, T, C, P: Func<A, T>, Q: Func<(T,), C>> Func<A, C> for ComposedTuple<P, Q, T> {
    open spec fn pre(&self, a: A) -> bool {
        &&& self.left.pre(a)
        &&& forall|t: T| self.left.post(a, t) ==> self.right.pre((t,))
    }

    open spec fn post(&self, a: A, c: C) -> bool {
        exists|t: T| self.left.post(a, t) && self.right.post((t,), c)
    }

    fn call(&self, a: A) -> (c: C) {
        let t = self.left.call(a);
        self.right.call((t,))
    }
}

/// Builds the composite for the `Tuple1` tag: on argument `x` the result is
/// `q.call((p.call(x),))`.
pub fn compose_tuple<A, T, C, P: Func<A, T>, Q: Func<(T,), C>>(p: P, q: Q) -> (c: ComposedTuple<
    P,
    Q,
    T,
>)
    ensures
        c.left == p,
        c.right == q,
{
    ComposedTuple { left: p, right: q, mid: PhantomData }
}

/// Establishes that a `Tuple1` composite may be invoked: its left stage may
/// be, and every result the left stage may hand on, wrapped, is accepted by
/// the right stage.
pub proof fn lemma_composed_tuple_pre<A, T, C, P: Func<A, T>, Q: Func<(T,), C>>(
    c: ComposedTuple<P, Q, T>,
    a: A,
)
    requires
        c.left.pre(a),
        forall|t: T| c.left.post(a, t) ==> c.right.pre((t,)),
    ensures
        c.pre(a),
{
}

/// Inverts a `Tuple1` composite's postcondition: every result it may return
/// passed through some intermediate value, which this returns.
pub proof fn lemma_composed_tuple_post<A, T, C, P: Func<A, T>, Q: Func<(T,), C>>(
    c: ComposedTuple<P, Q, T>,
    a: A,
    out: C,
) -> (t: T)
    requires
        c.post(a, out),
    ensures
        c.left.post(a, t),
        c.right.post((t,), out),
{
    choose|t: T| c.left.post(a, t) && c.right.post((t,), out)
}

/// The composite for the `ResultOk` tag: an `Ok` result of the left stage is
/// unwrapped and passed on, and the right stage's result is wrapped in `Ok`
/// again; an `Err` is handed to the final caller unchanged, and the right
/// stage is not invoked.
pub struct ComposedOk<P, Q, T> {
    /// The stage invoked first.
    pub left: P,
    /// The stage the unwrapped `Ok` value is passed to.
    pub right: Q,
    /// Marker for the intermediate type.
    pub mid: PhantomData<T>,
}

impl<A, T, C, E, P: Func<A, Result<T, E>>, Q: Func<T, C>> Func<A, Result<C, E>> for ComposedOk<
    P,
    Q,
    T,
> {
    open spec fn pre(&self, a: A) -> bool {
        &&& self.left.pre(a)
        &&& forall|m: Result<T, E>| #[trigger] self.left.post(a, m) ==> match m {
            Ok(t) => self.right.pre(t),
            Err(_) => true,
        }
    }

    open spec fn post(&self, a: A, r: Result<C, E>) -> bool {
        match r {
            Ok(c) => exists|m: Result<T, E>| #[trigger] self.left.post(a, m) && match m {
                Ok(t) => self.right.post(t, c),
                Err(_) => false,
            },
            Err(e) => self.left.post(a, Err(e)),
        }
    }

    fn call(&self, a: A) -> (r: Result<C, E>) {
        match self.left.call(a) {
            Ok(t) => Ok(self.right.call(t)),
            Err(e) => Err(e),
        }
    }
}

/// Builds the composite for the `ResultOk` tag: on argument `x` the result
/// is `Ok(q.call(t))` when `p.call(x)` is `Ok(t)`, and `p.call(x)` itself
/// when it is an `Err`.
pub fn compose_ok<A, T, C, E, P: Func<A, Result<T, E>>, Q: Func<T, C>>(p: P, q: Q) -> (c: ComposedOk<
    P,
    Q,
    T,
>)
    ensures
        c.left == p,
        c.right == q,
{
    ComposedOk { left: p, right: q, mid: PhantomData }
}

/// Establishes that a `ResultOk` composite may be invoked: its left stage
/// may be, and every `Ok` value the left stage may hand on is accepted by
/// the right stage.
pub proof fn lemma_composed_ok_pre<A, T, C, E, P: Func<A, Result<T, E>>, Q: Func<T, C>>(
    c: ComposedOk<P, Q, T>,
    a: A,
)
    requires
        c.left.pre(a),
        forall|m: Result<T, E>| #[trigger] c.left.post(a, m) ==> match m {
            Ok(t) => c.right.pre(t),
            Err(_) => true,
        },
    ensures
        c.pre(a),
{
}

/// Inverts a `ResultOk` composite's postcondition: every result it may
/// return either passed through an `Ok` of the left stage, which this
/// returns, or is an `Err` of the left stage unchanged.
pub proof fn lemma_composed_ok_post<A, T, C, E, P: Func<A, Result<T, E>>, Q: Func<T, C>>(
    c: ComposedOk<P, Q, T>,
    a: A,
    out: Result<C, E>,
) -> (m: Result<T, E>)
    requires
        c.post(a, out),
    ensures
        c.left.post(a, m),
        match out {
            Ok(v) => m is Ok && c.right.post(m->Ok_0, v),
            Err(e) => m == Err::<T, E>(e),
        },
{
    match out {
        Ok(v) => choose|m: Result<T, E>|
            #[trigger] c.left.post(a, m) && match m {
                Ok(t) => c.right.post(t, v),
                Err(_) => false,
            },
        Err(e) => Err(e),
    }
}

/// The composite for the `ResultOkTuple1` tag: as [`ComposedOk`], with the
/// unwrapped `Ok` value wrapped into a one-element tuple for the right
/// stage.
pub struct ComposedOkTuple<P, Q, T> {
    /// The stage invoked first.
    pub left: P,
    /// The stage the wrapped `Ok` value is passed to.
    pub right: Q,
    /// Marker for the intermediate type.
    pub mid: PhantomData<T>,
}

impl<A, T, C, E, P: Func<A, Result<T, E>>, Q: Func<(T,), C>> Func<
    A,
    Result<C, E>,
> for ComposedOkTuple<P, Q, T> {
    open spec fn pre(&self, a: A) -> bool {
        &&& self.left.pre(a)
        &&& forall|m: Result<T, E>| #[trigger] self.left.post(a, m) ==> match m {
            Ok(t) => self.right.pre((t,)),
            Err(_) => true,
        }
    }

    open spec fn post(&self, a: A, r: Result<C, E>) -> bool {
        match r {
            Ok(c) => exists|m: Result<T, E>| #[trigger] self.left.post(a, m) && match m {
                Ok(t) => self.right.post((t,), c),
                Err(_) => false,
            },
            Err(e) => self.left.post(a, Err(e)),
        }
    }

    fn call(&self, a: A) -> (r: Result<C, E>) {
        match self.left.call(a) {
            Ok(t) => Ok(self.right.call((t,))),
            Err(e) => Err(e),
        }
    }
}

/// Builds the composite for the `ResultOkTuple1` tag: on argument `x` the
/// result is `Ok(q.call((t,)))` when `p.call(x)` is `Ok(t)`, and `p.call(x)`
/// itself when it is an `Err`.
pub fn compose_ok_tuple<A, T, C, E, P: Func<A, Result<T, E>>, Q: Func<(T,), C>>(p: P, q: Q) -> (c:
    ComposedOkTuple<P, Q, T>)
    ensures
        c.left == p,
        c.right == q,
{
    ComposedOkTuple { left: p, right: q, mid: PhantomData }
}

/// Establishes that a `ResultOkTuple1` composite may be invoked: its left
/// stage may be, and every `Ok` value the left stage may hand on, wrapped,
/// is accepted by the right stage.
pub proof fn lemma_composed_ok_tuple_pre<A, T, C, E, P: Func<A, Result<T, E>>, Q: Func<(T,), C>>(
    c: ComposedOkTuple<P, Q, T>,
    a: A,
)
    requires
        c.left.pre(a),
        forall|m: Result<T, E>| #[trigger] c.left.post(a, m) ==> match m {
            Ok(t) => c.right.pre((t,)),
            Err(_) => true,
        },
    ensures
        c.pre(a),
{
}

/// Inverts a `ResultOkTuple1` composite's postcondition: every result it may
/// return either passed through an `Ok` of the left stage, which this
/// returns, or is an `Err` of the left stage unchanged.
pub proof fn lemma_composed_ok_tuple_post<A, T, C, E, P: Func<A, Result<T, E>>, Q: Func<(T,), C>>(
    c: ComposedOkTuple<P, Q, T>,
    a: A,
    out: Result<C, E>,
) -> (m: Result<T, E>)
    requires
        c.post(a, out),
    ensures
        c.left.post(a, m),
        match out {
            Ok(v) => m is Ok && c.right.post((m->Ok_0,), v),
            Err(e) => m == Err::<T, E>(e),
        },
{
    match out {
        Ok(v) => choose|m: Result<T, E>|
            #[trigger] c.left.post(a, m) && match m {
                Ok(t) => c.right.post((t,), v),
                Err(_) => false,
            },
        Err(e) => Err(e),
    }
}

/// The composite for the `OptionSome` tag: a `Some` result of the left stage
/// is unwrapped and passed on, and the right stage's result is wrapped in
/// `Some` again; a `None` is handed to the final caller unchanged, and the
/// right stage is not invoked.
pub struct ComposedSome<P, Q, T> {
    /// The stage invoked first.
    pub left: P,
    /// The stage the unwrapped `Some` value is passed to.
    pub right: Q,
    /// Marker for the intermediate type.
    pub mid: PhantomData<T>,
}

impl<A, T, C, P: Func<A, Option<T>>, Q: Func<T, C>> Func<A, Option<C>> for ComposedSome<P, Q, T> {
    open spec fn pre(&self, a: A) -> bool {
        &&& self.left.pre(a)
        &&& forall|m: Option<T>| #[trigger] self.left.post(a, m) ==> match m {
            Some(t) => self.right.pre(t),
            None => true,
        }
    }

    open spec fn post(&self, a: A, r: Option<C>) -> bool {
        match r {
            Some(c) => exists|m: Option<T>| #[trigger] self.left.post(a, m) && match m {
                Some(t) => self.right.post(t, c),
                None => false,
            },
            None => self.left.post(a, None),
        }
    }

    fn call(&self, a: A) -> (r: Option<C>) {
        match self.left.call(a) {
            Some(t) => Some(self.right.call(t)),
            None => None,
        }
    }
}

/// Builds the composite for the `OptionSome` tag: on argument `x` the result
/// is `Some(q.call(t))` when `p.call(x)` is `Some(t)`, and `None` when
/// `p.call(x)` is `None`.
pub fn compose_some<A, T, C, P: Func<A, Option<T>>, Q: Func<T, C>>(p: P, q: Q) -> (c: ComposedSome<
    P,
    Q,
    T,
>)
    ensures
        c.left == p,
        c.right == q,
{
    ComposedSome { left: p, right: q, mid: PhantomData }
}

/// Establishes that an `OptionSome` composite may be invoked: its left
/// stage may be, and every `Some` value the left stage may hand on is
/// accepted by the right stage.
pub proof fn lemma_composed_some_pre<A, T, C, P: Func<A, Option<T>>, Q: Func<T, C>>(
    c: ComposedSome<P, Q, T>,
    a: A,
)
    requires
        c.left.pre(a),
        forall|m: Option<T>| #[trigger] c.left.post(a, m) ==> match m {
            Some(t) => c.right.pre(t),
            None => true,
        },
    ensures
        c.pre(a),
{
}

/// Inverts an `OptionSome` composite's postcondition: every result it may
/// return either passed through a `Some` of the left stage, which this
/// returns, or is a `None` of the left stage unchanged.
pub proof fn lemma_composed_some_post<A, T, C, P: Func<A, Option<T>>, Q: Func<T, C>>(
    c: ComposedSome<P, Q, T>,
    a: A,
    out: Option<C>,
) -> (m: Option<T>)
    requires
        c.post(a, out),
    ensures
        c.left.post(a, m),
        match out {
            Some(v) => m is Some && c.right.post(m->Some_0, v),
            None => m is None,
        },
{
    match out {
        Some(v) => choose|m: Option<T>|
            #[trigger] c.left.post(a, m) && match m {
                Some(t) => c.right.post(t, v),
                None => false,
            },
        None => None,
    }
}

/// The composite for the `OptionSomeTuple1` tag: as [`ComposedSome`], with
/// the unwrapped `Some` value wrapped into a one-element tuple for the right
/// stage.
pub struct ComposedSomeTuple<P, Q, T> {
    /// The stage invoked first.
    pub left: P,
    /// The stage the wrapped `Some` value is passed to.
    pub right: Q,
    /// Marker for the intermediate type.
    pub mid: PhantomData<T>,
}

impl<A, T, C, P: Func<A, Option<T>>, Q: Func<(T,), C>> Func<A, Option<C>> for ComposedSomeTuple<
    P,
    Q,
    T,
> {
    open spec fn pre(&self, a: A) -> bool {
        &&& self.left.pre(a)
        &&& forall|m: Option<T>| #[trigger] self.left.post(a, m) ==> match m {
            Some(t) => self.right.pre((t,)),
            None => true,
        }
    }

    open spec fn post(&self, a: A, r: Option<C>) -> bool {
        match r {
            Some(c) => exists|m: Option<T>| #[trigger] self.left.post(a, m) && match m {
                Some(t) => self.right.post((t,), c),
                None => false,
            },
            None => self.left.post(a, None),
        }
    }

    fn call(&self, a: A) -> (r: Option<C>) {
        match self.left.call(a) {
            Some(t) => Some(self.right.call((t,))),
            None => None,
        }
    }
}

/// Builds the composite for the `OptionSomeTuple1` tag: on argument `x` the
/// result is `Some(q.call((t,)))` when `p.call(x)` is `Some(t)`, and `None`
/// when `p.call(x)` is `None`.
pub fn compose_some_tuple<A, T, C, P: Func<A, Option<T>>, Q: Func<(T,), C>>(p: P, q: Q) -> (c:
    ComposedSomeTuple<P, Q, T>)
    ensures
        c.left == p,
        c.right == q,
{
    ComposedSomeTuple { left: p, right: q, mid: PhantomData }
}

/// Establishes that an `OptionSomeTuple1` composite may be invoked: its
/// left stage may be, and every `Some` value the left stage may hand on,
/// wrapped, is accepted by the right stage.
pub proof fn lemma_composed_some_tuple_pre<A, T, C, P: Func<A, Option<T>>, Q: Func<(T,), C>>(
    c: ComposedSomeTuple<P, Q, T>,
    a: A,
)
    requires
        c.left.pre(a),
        forall|m: Option<T>| #[trigger] c.left.post(a, m) ==> match m {
            Some(t) => c.right.pre((t,)),
            None => true,
        },
    ensures
        c.pre(a),
{
}

/// Inverts an `OptionSomeTuple1` composite's postcondition: every result it
/// may return either passed through a `Some` of the left stage, which this
/// returns, or is a `None` of the left stage unchanged.
pub proof fn lemma_composed_some_tuple_post<A, T, C, P: Func<A, Option<T>>, Q: Func<(T,), C>>(
    c: ComposedSomeTuple<P, Q, T>,
    a: A,
    out: Option<C>,
) -> (m: Option<T>)
    requires
        c.post(a, out),
    ensures
        c.left.post(a, m),
        match out {
            Some(v) => m is Some && c.right.post((m->Some_0,), v),
            None => m is None,
        },
{
    match out {
        Some(v) => choose|m: Option<T>|
            #[trigger] c.left.post(a, m) && match m {
                Some(t) => c.right.post((t,), v),
                None => false,
            },
        None => None,
    }
}

} // verus!
