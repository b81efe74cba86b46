use vstd::prelude::*;
use crate::outcome::{Error, Result};
use crate::composable::Composable;

verus! {

/// Adds a fixed amount to its input; fails where the sum does not fit.
pub struct AddTo {
    pub addend: usize,
}

impl Composable<usize, usize> for AddTo {
    open spec fn accepts(&self, input: usize) -> bool {
        true
    }

    open spec fn yields(&self, input: usize, outcome: Result<usize>) -> bool {
        match outcome {
            Ok(v) => v == input + self.addend,
            Err(_) => input + self.addend > usize::MAX,
        }
    }

    fn apply(&self, input: usize) -> (r: Result<usize>) {
        match input.checked_add(self.addend) {
            Some(v) => Ok(v),
            None => Err(Error::new("sum out of range")),
        }
    }
}

/// Multiplies its input by a fixed factor; fails where the product does not
/// fit.
pub struct MultiplyBy {
    pub factor: usize,
}

impl Composable<usize, usize> for MultiplyBy {
    open spec fn accepts(&self, input: usize) -> bool {
        true
    }

    open spec fn yields(&self, input: usize, outcome: Result<usize>) -> bool {
        match outcome {
            Ok(v) => v == input * self.factor,
            Err(_) => input * self.factor > usize::MAX,
        }
    }

    fn apply(&self, input: usize) -> (r: Result<usize>) {
        match input.checked_mul(self.factor) {
            Some(v) => Ok(v),
            None => Err(Error::new("product out of range")),
        }
    }
}

/// Adds a fixed amount to its input and reports `"hello"` beside the sum;
/// fails where the sum does not fit.
pub struct AddToMsg {
    pub addend: usize,
}

impl Composable<usize, (usize, String)> for AddToMsg {
    open spec fn accepts(&self, input: usize) -> bool {
        true
    }

    open spec fn yields(&self, input: usize, outcome: Result<(usize, String)>) -> bool {
        match outcome {
            Ok(v) => v.0 == input + self.addend && v.1@ == "hello"@,
            Err(_) => input + self.addend > usize::MAX,
        }
    }

    fn apply(&self, input: usize) -> (r: Result<(usize, String)>) {
        match input.checked_add(self.addend) {
            Some(v) => Ok((v, "hello".to_owned())),
            None => Err(Error::new("sum out of range")),
        }
    }
}

} // verus!
