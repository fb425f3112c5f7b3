//! The engine's laws, each a public proof function: what holds of every
//! composite the resolver can build, beyond the contract of any single
//! composition rule.

use crate::compose::Composed;
use crate::compose::ComposedOk;
use crate::compose::ComposedSome;
use crate::compose::lemma_composed_ok_post;
use crate::compose::lemma_composed_post;
use crate::compose::lemma_composed_some_post;
use crate::stage::Func;
use crate::stage::Function;
use vstd::prelude::*;

verus! {

/// A chain of a single stage is that stage unchanged: the lift of a plain
/// callable neither narrows where it may be invoked nor changes what it may
/// return, so the chain's output shape is the stage's own return shape.
pub proof fn lemma_single_stage_identity<A, B, F: Fn(A) -> B>(f: Function<F>, a: A, b: B)
    ensures
        f.pre(a) == call_requires(f.0, (a,)),
        f.post(a, b) == call_ensures(f.0, (a,), b),
{
}

/// Round trip over plain values: when the two stages of a plain composite
/// compute the functions `f` and `g`, the composite computes `g` after `f` —
/// on argument `a` every result it may return is `g(f(a))`.
pub proof fn lemma_round_trip<A, T, C, P: Func<A, T>, Q: Func<T, C>>(
    c: Composed<P, Q, T>,
    f: spec_fn(A) -> T,
    g: spec_fn(T) -> C,
    a: A,
    out: C,
)
    requires
        c.post(a, out),
        forall|x: A, y: T| #[trigger] c.left.post(x, y) ==> y == f(x),
        forall|x: T, y: C| #[trigger] c.right.post(x, y) ==> y == g(x),
    ensures
        out == g(f(a)),
{
    let t = lemma_composed_post(c, a, out);
    assert(t == f(a));
    assert(out == g(t));
}

/// Tuple spread correctness: when the left stage hands the pair `ab` to a
/// right stage declared with two positional parameters, the composite's
/// result on `x` is a result of the right stage on exactly that pair.
pub proof fn lemma_tuple_spread<X, A1, B1, C, P: Func<X, (A1, B1)>, Q: Func<(A1, B1), C>>(
    c: Composed<P, Q, (A1, B1)>,
    x: X,
    ab: (A1, B1),
    out: C,
)
    requires
        c.post(x, out),
        forall|y: (A1, B1)| #[trigger] c.left.post(x, y) ==> y == ab,
    ensures
        c.right.post(ab, out),
{
    let t = lemma_composed_post(c, x, out);
    assert(t == ab);
}

/// Associativity of short-circuit propagation: for stages `p` returning a
/// `Result`, `q` and `r` plain, composing `(p, q)` first and `r` after
/// behaves exactly as composing `p` with `(q, r)`: the two nestings may be
/// invoked on the same arguments and may return the same results, an
/// upstream `Err` propagating to the final output in both without a
/// downstream result entering it.
///
/// `nl` is the left-nested composite of the stages `nr.left`,
/// `nr.right.left` and `nr.right.right`, as the `requires` pins.
pub proof fn lemma_short_circuit_assoc<
    A,
    T,
    U,
    V,
    E,
    P: Func<A, Result<T, E>>,
    Q: Func<T, U>,
    R: Func<U, V>,
>(
    nl: ComposedOk<ComposedOk<P, Q, T>, R, U>,
    nr: ComposedOk<P, Composed<Q, R, U>, T>,
    a: A,
    out: Result<V, E>,
)
    requires
        nl.left.left == nr.left,
        nl.left.right == nr.right.left,
        nl.right == nr.right.right,
    ensures
        nl.pre(a) <==> nr.pre(a),
        nl.post(a, out) <==> nr.post(a, out),
{
    let p = nr.left;
    let q = nr.right.left;
    let r = nr.right.right;
    // The two postconditions agree.
    match out {
        Ok(v) => {
            if nl.post(a, out) {
                let m1 = choose|m1: Result<U, E>|
                    #[trigger] nl.left.post(a, m1) && match m1 {
                        Ok(u) => nl.right.post(u, v),
                        Err(_) => false,
                    };
                match m1 {
                    Ok(u) => {
                        let m0 = choose|m0: Result<T, E>|
                            #[trigger] p.post(a, m0) && match m0 {
                                Ok(t) => q.post(t, u),
                                Err(_) => false,
                            };
                        match m0 {
                            Ok(t) => {
                                assert(q.post(t, u) && r.post(u, v));
                                assert(nr.right.post(t, v));
                                assert(nr.post(a, out));
                            },
                            Err(_) => {
                                assert(false);
                            },
                        }
                    },
                    Err(_) => {
                        assert(false);
                    },
                }
            }
            if nr.post(a, out) {
                let m0 = choose|m0: Result<T, E>|
                    #[trigger] p.post(a, m0) && match m0 {
                        Ok(t) => nr.right.post(t, v),
                        Err(_) => false,
                    };
                match m0 {
                    Ok(t) => {
                        let u = choose|u: U| q.post(t, u) && r.post(u, v);
                        assert(nl.left.post(a, Ok(u)));
                        assert(nl.post(a, out));
                    },
                    Err(_) => {
                        assert(false);
                    },
                }
            }
        },
        Err(e) => {
            assert(nl.post(a, out) == nl.left.post(a, Err(e)));
            assert(nr.post(a, out) == p.post(a, Err(e)));
        },
    }
    // The two preconditions agree.
    if nl.pre(a) {
        assert forall|m0: Result<T, E>| #[trigger] p.post(a, m0) implies match m0 {
            Ok(t) => nr.right.pre(t),
            Err(_) => true,
        } by {
            match m0 {
                Ok(t) => {
                    assert(q.pre(t));
                    assert forall|u: U| #[trigger] q.post(t, u) implies r.pre(u) by {
                        assert(nl.left.post(a, Ok(u)));
                        assert(r.pre(u));
                    }
                    assert(nr.right.pre(t));
                },
                Err(_) => {},
            }
        }
        assert(nr.pre(a));
    }
    if nr.pre(a) {
        assert forall|m0: Result<T, E>| #[trigger] p.post(a, m0) implies match m0 {
            Ok(t) => q.pre(t),
            Err(_) => true,
        } by {
            match m0 {
                Ok(t) => {
                    assert(nr.right.pre(t));
                },
                Err(_) => {},
            }
        }
        assert(nl.left.pre(a));
        assert forall|m1: Result<U, E>| #[trigger] nl.left.post(a, m1) implies match m1 {
            Ok(u) => r.pre(u),
            Err(_) => true,
        } by {
            match m1 {
                Ok(u) => {
                    let m0 = choose|m0: Result<T, E>|
                        #[trigger] p.post(a, m0) && match m0 {
                            Ok(t) => q.post(t, u),
                            Err(_) => false,
                        };
                    match m0 {
                        Ok(t) => {
                            assert(nr.right.pre(t));
                            assert(r.pre(u));
                        },
                        Err(_) => {
                            assert(false);
                        },
                    }
                },
                Err(_) => {},
            }
        }
        assert(nl.pre(a));
    }
}

/// Associativity of short-circuit propagation, `Option` side: composing
/// `(p, q)` first and `r` after behaves exactly as composing `p` with
/// `(q, r)` when `p` is `Option`-shaped and `q`, `r` are plain.
///
/// `nl` is the left-nested composite of the stages `nr.left`,
/// `nr.right.left` and `nr.right.right`, as the `requires` pins.
pub proof fn lemma_option_assoc<
    A,
    T,
    U,
    V,
    P: Func<A, Option<T>>,
    Q: Func<T, U>,
    R: Func<U, V>,
>(
    nl: ComposedSome<ComposedSome<P, Q, T>, R, U>,
    nr: ComposedSome<P, Composed<Q, R, U>, T>,
    a: A,
    out: Option<V>,
)
    requires
        nl.left.left == nr.left,
        nl.left.right == nr.right.left,
        nl.right == nr.right.right,
    ensures
        nl.pre(a) <==> nr.pre(a),
        nl.post(a, out) <==> nr.post(a, out),
{
    let p = nr.left;
    let q = nr.right.left;
    let r = nr.right.right;
    // The two postconditions agree.
    match out {
        Some(v) => {
            if nl.post(a, out) {
                let m1 = choose|m1: Option<U>|
                    #[trigger] nl.left.post(a, m1) && match m1 {
                        Some(u) => nl.right.post(u, v),
                        None => false,
                    };
                match m1 {
                    Some(u) => {
                        let m0 = choose|m0: Option<T>|
                            #[trigger] p.post(a, m0) && match m0 {
                                Some(t) => q.post(t, u),
                                None => false,
                            };
                        match m0 {
                            Some(t) => {
                                assert(q.post(t, u) && r.post(u, v));
                                assert(nr.right.post(t, v));
                                assert(nr.post(a, out));
                            },
                            None => {
                                assert(false);
                            },
                        }
                    },
                    None => {
                        assert(false);
                    },
                }
            }
            if nr.post(a, out) {
                let m0 = choose|m0: Option<T>|
                    #[trigger] p.post(a, m0) && match m0 {
                        Some(t) => nr.right.post(t, v),
                        None => false,
                    };
                match m0 {
                    Some(t) => {
                        let u = choose|u: U| q.post(t, u) && r.post(u, v);
                        assert(nl.left.post(a, Some(u)));
                        assert(nl.post(a, out));
                    },
                    None => {
                        assert(false);
                    },
                }
            }
        },
        None => {
            assert(nl.post(a, out) == nl.left.post(a, None::<U>));
            assert(nr.post(a, out) == p.post(a, None::<T>));
        },
    }
    // The two preconditions agree.
    if nl.pre(a) {
        assert forall|m0: Option<T>| #[trigger] p.post(a, m0) implies match m0 {
            Some(t) => nr.right.pre(t),
            None => true,
        } by {
            match m0 {
                Some(t) => {
                    assert(q.pre(t));
                    assert forall|u: U| #[trigger] q.post(t, u) implies r.pre(u) by {
                        assert(nl.left.post(a, Some(u)));
                        assert(r.pre(u));
                    }
                    assert(nr.right.pre(t));
                },
                None => {},
            }
        }
        assert(nr.pre(a));
    }
    if nr.pre(a) {
        assert forall|m0: Option<T>| #[trigger] p.post(a, m0) implies match m0 {
            Some(t) => q.pre(t),
            None => true,
        } by {
            match m0 {
                Some(t) => {
                    assert(nr.right.pre(t));
                },
                None => {},
            }
        }
        assert(nl.left.pre(a));
        assert forall|m1: Option<U>| #[trigger] nl.left.post(a, m1) implies match m1 {
            Some(u) => r.pre(u),
            None => true,
        } by {
            match m1 {
                Some(u) => {
                    let m0 = choose|m0: Option<T>|
                        #[trigger] p.post(a, m0) && match m0 {
                            Some(t) => q.post(t, u),
                            None => false,
                        };
                    match m0 {
                        Some(t) => {
                            assert(nr.right.pre(t));
                            assert(r.pre(u));
                        },
                        None => {
                            assert(false);
                        },
                    }
                },
                None => {},
            }
        }
        assert(nl.pre(a));
    }
}

/// No downstream invocation after a short-circuit, `Result` side: when the
/// left stage can only yield `Err(e)` on `a`, the composite's result on `a`
/// is `Err(e)` unchanged — no result of the right stage reaches the caller.
pub proof fn lemma_result_short_circuit<A, T, C, E, P: Func<A, Result<T, E>>, Q: Func<T, C>>(
    c: ComposedOk<P, Q, T>,
    a: A,
    e: E,
    out: Result<C, E>,
)
    requires
        c.post(a, out),
        forall|m: Result<T, E>| #[trigger] c.left.post(a, m) ==> m == Err::<T, E>(e),
    ensures
        out == Err::<C, E>(e),
{
    let m = lemma_composed_ok_post(c, a, out);
    assert(m == Err::<T, E>(e));
    match out {
        Ok(_) => {
            assert(false);
        },
        Err(_) => {},
    }
}

/// No downstream invocation after a short-circuit, `Option` side: when the
/// left stage can only yield `None` on `a`, the composite's result on `a` is
/// `None` unchanged.
pub proof fn lemma_option_short_circuit<A, T, C, P: Func<A, Option<T>>, Q: Func<T, C>>(
    c: ComposedSome<P, Q, T>,
    a: A,
    out: Option<C>,
)
    requires
        c.post(a, out),
        forall|m: Option<T>| #[trigger] c.left.post(a, m) ==> m is None,
    ensures
        out is None,
{
    let m = lemma_composed_some_post(c, a, out);
    assert(m is None);
    match out {
        Some(_) => {
            assert(false);
        },
        None => {},
    }
}

} // verus!
