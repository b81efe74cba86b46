//! Typed, fallible transformation pipelines.
//!
//! A step takes an input and yields either a value or an [`Error`]. Steps of
//! any shape (structs that carry data, closures, named functions) share the
//! [`Composable`] capability, and compositions of steps are steps again:
//! [`compose`] chains two, [`composed3`] to [`composed5`] fold longer chains
//! from the left, and [`compose_t`] chains steps that carry a side payload,
//! nesting the payloads beside the final value. The module `laws` proves what
//! the combinators guarantee.
pub mod outcome;
pub mod composable;
pub mod compose;
pub mod accumulate;
pub mod steps;
pub mod laws;

pub use outcome::{Error, Result};
pub use composable::{ComposeWith, Composable};
pub use compose::{compose, composed3, composed4, composed5, Compose};
pub use accumulate::{compose_t, ComposeT};
pub use steps::{AddTo, AddToMsg, MultiplyBy};
