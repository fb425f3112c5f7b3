//! A shape-polymorphic function-composition engine.
//!
//! Given a sequence of staged callables, the library builds a single
//! composite callable that threads the output of each stage into the next,
//! adapting to the *shape* of each stage's output: a plain value, a tuple of
//! values, a `Result`, or an `Option`. A `Result::Err` or `Option::None`
//! produced by a stage short-circuits the rest of the chain and is handed to
//! the final caller unchanged.
//!
//! The engine has two parts: the shape classifier ([`shape`]), the closed
//! set of output-shape tags with the total rule that infers a composition
//! site's tag; and the composition resolver ([`compose`]), one composite
//! type per tag, each itself a stage ([`stage::Func`]), so that a composite
//! can stand on either side of a further composition. A chain of two or
//! more stages is built by nesting the constructors, folding the stage list
//! right to left; a chain of one stage is the stage itself. A shape mismatch
//! between neighbouring stages is rejected when the composite is built — no
//! constructor accepts it — so invocation has no error path of the engine's
//! own. The laws that hold of every composite are proved in [`laws`].

pub mod compose;
pub mod laws;
pub mod samples;
pub mod shape;
pub mod stage;

pub use compose::Composed;
pub use compose::ComposedOk;
pub use compose::ComposedOkTuple;
pub use compose::ComposedSome;
pub use compose::ComposedSomeTuple;
pub use compose::ComposedTuple;
pub use compose::compose;
pub use compose::compose_ok;
pub use compose::compose_ok_tuple;
pub use compose::compose_some;
pub use compose::compose_some_tuple;
pub use compose::compose_tuple;
pub use shape::classify;
pub use shape::ReturnShape;
pub use shape::ShapeTag;
pub use stage::Func;
pub use stage::Function;
pub use stage::lift;
