//! The shape classifier: output-shape tags and the rule that infers the tag
//! of a composition site from the left stage's declared return shape and the
//! right stage's declared parameter arity.

use vstd::prelude::*;

verus! {

/// The closed set of output-shape tags. Exactly one tag applies to any
/// composition site: the classification in [`classify`] is a total function.
///
/// The `Tuple1` variants mean that the next stage's declared parameter list
/// is a one-element tuple, so the value handed on is wrapped into one before
/// the next stage is invoked.
#[derive(Clone, Copy, Debug, PartialEq, Eq, Structural)]
pub enum ShapeTag {
    /// The value is passed to the next stage as it is.
    Plain,
    /// The value is wrapped into a one-element tuple for the next stage.
    Tuple1,
    /// A `Result`: `Ok` is unwrapped and passed on, `Err` short-circuits.
    ResultOk,
    /// As `ResultOk`, with the `Ok` value wrapped into a one-element tuple.
    ResultOkTuple1,
    /// An `Option`: `Some` is unwrapped and passed on, `None` short-circuits.
    OptionSome,
    /// As `OptionSome`, with the `Some` value wrapped into a one-element tuple.
    OptionSomeTuple1,
}

/// A stage's declared return shape, as far as composition cares: which
/// wrapper stands outermost (none, `Result` or `Option`), and whether the
/// wrapped payload is itself a one-element tuple.
#[derive(Clone, Copy, Debug, PartialEq, Eq, Structural)]
pub enum ReturnShape {
    /// A plain value `T`.
    Value,
    /// A one-element tuple `(T,)`.
    ValueTuple1,
    /// A `Result<T, E>` with a plain `Ok` payload.
    ResultValue,
    /// A `Result<(T,), E>` whose `Ok` payload is a one-element tuple.
    ResultTuple1,
    /// An `Option<T>` with a plain `Some` payload.
    OptionValue,
    /// An `Option<(T,)>` whose `Some` payload is a one-element tuple.
    OptionTuple1,
}

/// The classification rule as a total function.
///
/// The outermost wrapper of the return shape decides whether the composite
/// short-circuits (`Result` and `Option` wrapping take precedence over the
/// tuple-ness of the wrapped value); the next stage's declared parameter
/// arity, and it alone, decides whether the value handed on is wrapped into a
/// one-element tuple. A return shape whose payload is already a one-element
/// tuple and whose successor accepts that tuple whole is therefore classified
/// `Plain` (or `ResultOk`, `OptionSome`): the tuple is passed as one value.
/// This is the disambiguation policy for the one ambiguous case, a
/// one-element tuple that could be passed whole or re-wrapped; the successor's
/// declared arity is decisive.
pub open spec fn spec_classify(ret: ReturnShape, next_takes_tuple1: bool) -> ShapeTag {
    match ret {
        ReturnShape::Value | ReturnShape::ValueTuple1 => if next_takes_tuple1 {
            ShapeTag::Tuple1
        } else {
            ShapeTag::Plain
        },
        ReturnShape::ResultValue | ReturnShape::ResultTuple1 => if next_takes_tuple1 {
            ShapeTag::ResultOkTuple1
        } else {
            ShapeTag::ResultOk
        },
        ReturnShape::OptionValue | ReturnShape::OptionTuple1 => if next_takes_tuple1 {
            ShapeTag::OptionSomeTuple1
        } else {
            ShapeTag::OptionSome
        },
    }
}

/// Infers the tag of a composition site: `ret` is the left stage's declared
/// return shape, `next_takes_tuple1` says whether the right stage's declared
/// parameter list is a one-element tuple.
///
/// Each tag names exactly one composition rule, realised by one composite
/// type of [`crate::compose`]: `Plain` by `Composed`, `Tuple1` by
/// `ComposedTuple`, `ResultOk` by `ComposedOk`, `ResultOkTuple1` by
/// `ComposedOkTuple`, `OptionSome` by `ComposedSome` and `OptionSomeTuple1`
/// by `ComposedSomeTuple`.
pub fn classify(ret: ReturnShape, next_takes_tuple1: bool) -> (tag: ShapeTag)
    ensures
        tag == spec_classify(ret, next_takes_tuple1),
{
    match ret {
        ReturnShape::Value | ReturnShape::ValueTuple1 => if next_takes_tuple1 {
            ShapeTag::Tuple1
        } else {
            ShapeTag::Plain
        },
        ReturnShape::ResultValue | ReturnShape::ResultTuple1 => if next_takes_tuple1 {
            ShapeTag::ResultOkTuple1
        } else {
            ShapeTag::ResultOk
        },
        ReturnShape::OptionValue | ReturnShape::OptionTuple1 => if next_takes_tuple1 {
            ShapeTag::OptionSomeTuple1
        } else {
            ShapeTag::OptionSome
        },
    }
}

/// Whether composites of the given tag short-circuit: hand an `Err` or
/// `None` from the left stage to the final caller without invoking the
/// right stage.
pub open spec fn short_circuits(tag: ShapeTag) -> bool {
    match tag {
        ShapeTag::Plain | ShapeTag::Tuple1 => false,
        _ => true,
    }
}

/// Whether composites of the given tag wrap the value handed on into a
/// one-element tuple before invoking the right stage.
pub open spec fn wraps_tuple1(tag: ShapeTag) -> bool {
    match tag {
        ShapeTag::Tuple1 | ShapeTag::ResultOkTuple1 | ShapeTag::OptionSomeTuple1 => true,
        _ => false,
    }
}

/// The classification never lets the tuple-ness of the returned payload
/// override the successor's declared arity: the inferred tag wraps exactly
/// when the successor asks for a one-element tuple, and short-circuits
/// exactly when the return shape is `Result`- or `Option`-wrapped.
pub proof fn lemma_classify_policy(ret: ReturnShape, next_takes_tuple1: bool)
    ensures
        wraps_tuple1(spec_classify(ret, next_takes_tuple1)) == next_takes_tuple1,
        short_circuits(spec_classify(ret, next_takes_tuple1)) == (ret != ReturnShape::Value
            && ret != ReturnShape::ValueTuple1),
{
}

} // verus!
