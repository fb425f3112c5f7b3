use funcomp::compose;
use funcomp::compose_ok;
use funcomp::compose_ok_tuple;
use funcomp::compose_some;
use funcomp::compose_some_tuple;
use funcomp::compose_tuple;
use funcomp::lift;
use funcomp::samples::errors;
use funcomp::samples::multiply;
use funcomp::samples::optional;
use funcomp::samples::output;
use funcomp::samples::plus;
use funcomp::samples::times;
use funcomp::Func;
use std::cell::Cell;

#[test]
fn single_stage_is_unchanged() {
    // A chain of one stage: the lift adds nothing to the stage's behaviour.
    let f = lift(plus);
    assert_eq!(f.call(4), plus(4));
    assert_eq!(f.call(4), 5);
}

#[test]
fn round_trip_plain() {
    let c = compose(lift(|a: i32| a + 1), lift(|a: i32| a * 3));
    assert_eq!(c.call(4), 15);
}

#[test]
fn round_trip_named_stages() {
    let c = compose(lift(plus), lift(times));
    assert_eq!(c.call(4), 15);
    assert_eq!(c.call(0), 3);
}

#[test]
fn tuple_spread() {
    let c = compose(lift(|_u: ()| output()), lift(|t: (i32, i32)| multiply(t.0, t.1)));
    assert_eq!(c.call(()), 8);
    let (a, b) = output();
    assert_eq!(compose(lift(|_u: ()| output()), lift(|t: (i32, i32)| multiply(t.0, t.1))).call(()), multiply(a, b));
}

#[test]
fn tuple1_wrap() {
    let c = compose_tuple(lift(plus), lift(|t: (i32,)| t.0 * 3));
    assert_eq!(c.call(4), 15);
}

#[test]
fn result_success_path() {
    let f = |a: i32| if a > 4 { Ok(a) } else { Err("too small") };
    let g = |a: i32| a + 1;
    let c = compose_ok(lift(f), lift(g));
    assert_eq!(c.call(5), Ok(6));
    assert_eq!(c.call(2), Err("too small"));
}

#[test]
fn result_tuple1_wrap() {
    let f = |a: i32| if a > 4 { Ok(a) } else { Err("too small") };
    let c = compose_ok_tuple(lift(f), lift(|t: (i32,)| t.0 + 1));
    assert_eq!(c.call(7), Ok(8));
    assert_eq!(c.call(0), Err("too small"));
}

#[test]
fn result_pair_spread() {
    let c = compose_ok(lift(errors), lift(|t: (i32, i32)| t.0 * t.1));
    assert_eq!(c.call(10), Ok(132));
    let r = c.call(2);
    assert_eq!(r, Err(String::from("Value cannot be above 4")));
}

#[test]
fn option_short_circuit() {
    let f = |a: i32| if a > 10 { None } else { Some(a + 2) };
    let g = |a: i32| a * 3;
    let c = compose_some(lift(f), lift(g));
    assert_eq!(c.call(3), Some(15));
    assert_eq!(c.call(20), None);
}

#[test]
fn option_tuple1_wrap() {
    let c = compose_some_tuple(lift(optional), lift(|t: (i32,)| t.0 * 3));
    assert_eq!(c.call(3), Some(15));
    assert_eq!(c.call(20), None);
}

#[test]
fn no_downstream_invocation_after_err() {
    let calls = Cell::new(0);
    let f = |a: i32| if a > 4 { Ok(a) } else { Err("boom") };
    let g = |a: i32| {
        calls.set(calls.get() + 1);
        a + 1
    };
    let c = compose_ok(lift(f), lift(g));
    assert_eq!(c.call(2), Err("boom"));
    assert_eq!(calls.get(), 0);
    assert_eq!(c.call(5), Ok(6));
    assert_eq!(calls.get(), 1);
}

#[test]
fn no_downstream_invocation_after_none() {
    let calls = Cell::new(0);
    let f = |a: i32| if a > 10 { None } else { Some(a + 2) };
    let g = |a: i32| {
        calls.set(calls.get() + 1);
        a * 3
    };
    let c = compose_some(lift(f), lift(g));
    assert_eq!(c.call(20), None);
    assert_eq!(calls.get(), 0);
    assert_eq!(c.call(3), Some(15));
    assert_eq!(calls.get(), 1);
}

#[test]
fn short_circuit_associativity() {
    let p = |a: i32| if a > 4 { Ok(a) } else { Err("boom") };
    let q = |a: i32| a + 1;
    let r = |a: i32| a * 2;
    let nested_left = compose_ok(compose_ok(lift(p), lift(q)), lift(r));
    let nested_right = compose_ok(lift(p), compose(lift(q), lift(r)));
    assert_eq!(nested_left.call(5), nested_right.call(5));
    assert_eq!(nested_left.call(5), Ok(12));
    assert_eq!(nested_left.call(1), nested_right.call(1));
    assert_eq!(nested_left.call(1), Err("boom"));
}

#[test]
fn composite_as_left_operand() {
    let inner = compose(lift(plus), lift(plus));
    let c = compose(inner, lift(times));
    assert_eq!(c.call(1), 9);
}

#[test]
fn composite_as_right_operand() {
    let inner = compose(lift(plus), lift(plus));
    let c = compose(lift(times), inner);
    assert_eq!(c.call(2), 8);
}

#[test]
fn option_chain_of_three() {
    let c1 = compose_some(lift(optional), lift(times));
    let c2 = compose_some(c1, lift(times));
    assert_eq!(c2.call(3), Some(45));
    assert_eq!(c2.call(20), None);
}

#[test]
fn long_chain_left_nested() {
    let c = compose(lift(plus), lift(plus));
    let c = compose(c, lift(plus));
    let c = compose(c, lift(plus));
    let c = compose(c, lift(plus));
    let c = compose(c, lift(plus));
    let c = compose(c, lift(plus));
    let c = compose(c, lift(plus));
    let c = compose(c, lift(plus));
    let c = compose(c, lift(plus));
    let c = compose(c, lift(plus));
    let c = compose(c, lift(plus));
    let c = compose(c, lift(plus));
    let c = compose(c, lift(plus));
    let c = compose(c, lift(plus));
    let c = compose(c, lift(plus));
    let c = compose(c, lift(plus));
    let c = compose(c, lift(plus));
    let c = compose(c, lift(plus));
    let c = compose(c, lift(plus));
    let c = compose(c, lift(plus));
    let c = compose(c, lift(plus));
    assert_eq!(c.call(0), 22);
}

#[test]
fn long_chain_right_nested() {
    let c = compose(lift(plus), lift(plus));
    let c = compose(lift(plus), c);
    let c = compose(lift(plus), c);
    let c = compose(lift(plus), c);
    let c = compose(lift(plus), c);
    let c = compose(lift(plus), c);
    let c = compose(lift(plus), c);
    let c = compose(lift(plus), c);
    let c = compose(lift(plus), c);
    let c = compose(lift(plus), c);
    let c = compose(lift(plus), c);
    let c = compose(lift(plus), c);
    let c = compose(lift(plus), c);
    let c = compose(lift(plus), c);
    let c = compose(lift(plus), c);
    let c = compose(lift(plus), c);
    let c = compose(lift(plus), c);
    let c = compose(lift(plus), c);
    let c = compose(lift(plus), c);
    assert_eq!(c.call(0), 20);
}
