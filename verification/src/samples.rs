//! Sample stages that exercise the engine, and assertion helpers that pin a
//! value's shape at compile time. The stages are ordinary callables, external
//! to the engine itself: the engine only inspects their calling contract.

use crate::stage::Func;
use vstd::prelude::*;

verus! {

/// A stage with no arguments and no result.
pub fn foo() {
}

/// A stage with no arguments and a plain result.
pub fn test() -> (r: i32)
    ensures
        r == 3,
{
    3
}

/// A plain unary stage: the successor.
pub fn plus(a: i32) -> (r: i32)
    requires
        a < i32::MAX,
    ensures
        r == a + 1,
{
    a + 1
}

/// A plain unary stage: tripling.
pub fn times(a: i32) -> (r: i32)
    requires
        i32::MIN <= 3 * a && 3 * a <= i32::MAX,
    ensures
        r == 3 * a,
{
    a * 3
}

/// A stage of two positional parameters; as a [`Func`] its argument is the
/// pair of them, which a predecessor returning a pair spreads over it.
pub fn multiply(a: i32, b: i32) -> (r: i32)
    requires
        i32::MIN <= a * b && a * b <= i32::MAX,
    ensures
        r == a * b,
{
    a * b
}

/// A stage with no arguments returning a pair, spread over the next stage's
/// two positional parameters.
pub fn output() -> (r: (i32, i32))
    ensures
        r == (4i32, 2i32),
{
    (4, 2)
}

/// A `Result`-shaped stage: `Ok` with the argument when it is above four,
/// the error text otherwise.
pub fn error_in(a: i32) -> (r: Result<i32, String>)
    ensures
        a > 4 ==> r == Ok::<i32, String>(a),
        a <= 4 ==> r is Err && r->Err_0@ == "Value cannot be above 4"@,
{
    if a > 4 {
        Ok(a)
    } else {
        Err("Value cannot be above 4".to_owned())
    }
}

/// A `Result`-shaped stage returning a pair on success: `Ok` with the two
/// successors of the argument when it is above four, the error text
/// otherwise.
pub fn errors(a: i32) -> (r: Result<(i32, i32), String>)
    requires
        a > 4 ==> a + 2 <= i32::MAX,
    ensures
        a > 4 ==> r is Ok && r->Ok_0.0 == a + 1 && r->Ok_0.1 == a + 2,
        a <= 4 ==> r is Err && r->Err_0@ == "Value cannot be above 4"@,
{
    if a > 4 {
        Ok((a + 1, a + 2))
    } else {
        Err("Value cannot be above 4".to_owned())
    }
}

/// An `Option`-shaped stage: `None` above ten, two more than the argument
/// otherwise.
pub fn optional(a: i32) -> (r: Option<i32>)
    ensures
        a > 10 ==> r is None,
        a <= 10 ==> r is Some && r->Some_0 == a + 2,
{
    if a > 10 {
        None
    } else {
        Some(a + 2)
    }
}

/// Pins at compile time that a value is a stage.
pub fn assert_func<A, B>(_m: impl Func<A, B>) {
}

/// Pins at compile time that a value is a plain callable.
pub fn assert_fn<A, B>(_m: impl Fn(A) -> B) {
}

/// Pins at compile time that a stage's output shape is `Result`-wrapped.
pub fn assert_func_ok<A, T, E>(_m: impl Func<A, Result<T, E>>) {
}

/// Pins at compile time that a callable's return type is `Result`-wrapped.
pub fn assert_fn_ok<A, T, E>(_m: impl Fn(A) -> Result<T, E>) {
}

/// Pins at compile time that a stage's output shape is `Option`-wrapped.
pub fn assert_func_some<A, T>(_m: impl Func<A, Option<T>>) {
}

/// Pins at compile time that a callable's return type is `Option`-wrapped.
pub fn assert_fn_some<A, T>(_m: impl Fn(A) -> Option<T>) {
}

} // verus!
