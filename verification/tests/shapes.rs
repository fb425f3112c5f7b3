use funcomp::classify;
use funcomp::compose;
use funcomp::compose_ok;
use funcomp::compose_some;
use funcomp::lift;
use funcomp::samples::assert_fn;
use funcomp::samples::assert_fn_ok;
use funcomp::samples::assert_fn_some;
use funcomp::samples::assert_func;
use funcomp::samples::assert_func_ok;
use funcomp::samples::assert_func_some;
use funcomp::samples::error_in;
use funcomp::samples::errors;
use funcomp::samples::foo;
use funcomp::samples::multiply;
use funcomp::samples::optional;
use funcomp::samples::output;
use funcomp::samples::plus;
use funcomp::samples::times;
use funcomp::ReturnShape;
use funcomp::ShapeTag;

#[test]
fn classify_plain_wrappers() {
    assert_eq!(classify(ReturnShape::Value, false), ShapeTag::Plain);
    assert_eq!(classify(ReturnShape::Value, true), ShapeTag::Tuple1);
    assert_eq!(classify(ReturnShape::ValueTuple1, false), ShapeTag::Plain);
    assert_eq!(classify(ReturnShape::ValueTuple1, true), ShapeTag::Tuple1);
}

#[test]
fn classify_result_wrappers() {
    assert_eq!(classify(ReturnShape::ResultValue, false), ShapeTag::ResultOk);
    assert_eq!(classify(ReturnShape::ResultValue, true), ShapeTag::ResultOkTuple1);
    assert_eq!(classify(ReturnShape::ResultTuple1, false), ShapeTag::ResultOk);
    assert_eq!(classify(ReturnShape::ResultTuple1, true), ShapeTag::ResultOkTuple1);
}

#[test]
fn classify_option_wrappers() {
    assert_eq!(classify(ReturnShape::OptionValue, false), ShapeTag::OptionSome);
    assert_eq!(classify(ReturnShape::OptionValue, true), ShapeTag::OptionSomeTuple1);
    assert_eq!(classify(ReturnShape::OptionTuple1, false), ShapeTag::OptionSome);
    assert_eq!(classify(ReturnShape::OptionTuple1, true), ShapeTag::OptionSomeTuple1);
}

#[test]
fn sample_stage_values() {
    foo();
    assert_eq!(funcomp::samples::test(), 3);
    assert_eq!(plus(4), 5);
    assert_eq!(times(4), 12);
    assert_eq!(multiply(4, 2), 8);
    assert_eq!(output(), (4, 2));
}

#[test]
fn sample_result_stages() {
    assert_eq!(error_in(5), Ok(5));
    assert_eq!(error_in(2), Err(String::from("Value cannot be above 4")));
    assert_eq!(error_in(4), Err(String::from("Value cannot be above 4")));
    assert_eq!(errors(10), Ok((11, 12)));
    assert_eq!(errors(0), Err(String::from("Value cannot be above 4")));
}

#[test]
fn sample_option_stage() {
    assert_eq!(optional(10), Some(12));
    assert_eq!(optional(11), None);
    assert_eq!(optional(3), Some(5));
}

#[test]
fn shape_assertions_compile() {
    // Compile-time shape inference: each assertion only type-checks when the
    // composite's inferred output shape is the stated one.
    assert_fn(plus);
    assert_fn_ok(error_in);
    assert_fn_some(optional);
    assert_func(lift(plus));
    assert_func(compose(lift(plus), lift(times)));
    assert_func(compose(compose(lift(plus), lift(plus)), lift(times)));
    assert_func(compose(lift(|_u: ()| output()), lift(|t: (i32, i32)| multiply(t.0, t.1))));
    assert_func_ok(compose_ok(lift(error_in), lift(plus)));
    assert_func_ok(compose_ok(lift(errors), lift(|t: (i32, i32)| multiply(t.0, t.1))));
    assert_func_ok(compose_ok(lift(error_in), compose(lift(plus), lift(plus))));
    assert_func_some(compose_some(lift(optional), lift(times)));
    assert_func_some(compose_some(compose_some(lift(optional), lift(times)), lift(times)));
}
