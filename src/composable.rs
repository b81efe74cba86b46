use vstd::prelude::*;
use crate::outcome::Result;
use crate::compose::Compose;

verus! {

/// The capability of a step from `I` to `O`: applied to an input, it yields a
/// value or an error.
///
/// A step is described by two relations: the inputs it `accepts`, and the
/// outcomes it `yields` on an input. A step may be nondeterministic, so
/// `yields` relates an input to every outcome that an application may give.
pub trait Composable<I, O> {
    /// The inputs on which the step may be applied. A step that does not
    /// say accepts every input.
    open spec fn accepts(&self, input: I) -> bool {
        true
    }

    /// Whether `outcome` is a possible result of applying the step to
    /// `input`. A step that does not say may yield any outcome.
    open spec fn yields(&self, input: I, outcome: Result<O>) -> bool {
        true
    }

    /// Runs the step on `input`.
    fn apply(&self, input: I) -> (r: Result<O>)
        requires
            self.accepts(input),
        ensures
            self.yields(input, r),
    ;
}

/// Closures and named functions from `I` to `Result<O>` are steps: they accept
/// what their precondition admits and yield what their postcondition allows.
impl<I, O, F: Fn(I) -> Result<O>> Composable<I, O> for F {
    open spec fn accepts(&self, input: I) -> bool {
        self.requires((input,))
    }

    open spec fn yields(&self, input: I, outcome: Result<O>) -> bool {
        self.ensures((input,), outcome)
    }

    fn apply(&self, input: I) -> (r: Result<O>) {
        (self)(input)
    }
}

/// Chaining in reading order: `a.compose(b)` is `compose(a, b)`.
pub trait ComposeWith<I, O>: Composable<I, O> + Sized {
    /// Chains `next` after this step.
    fn compose<P, B: Composable<O, P>>(self, next: B) -> (r: Compose<Self, B, O>)
        ensures
            r == Compose::<Self, B, O>::of(self, next),
    ;
}

impl<I, O, S: Composable<I, O>> ComposeWith<I, O> for S {
    fn compose<P, B: Composable<O, P>>(self, next: B) -> (r: Compose<Self, B, O>) {
        crate::compose::compose(self, next)
    }
}

/// What a closure or named function accepts and yields, as a step, is its
/// precondition and its postcondition.
pub proof fn lemma_fn_step<I, O, F: Fn(I) -> Result<O>>(f: F)
    ensures
        forall|input: I| #[trigger] f.accepts(input) == f.requires((input,)),
        forall|input: I, outcome: Result<O>| #[trigger]
            f.yields(input, outcome) == f.ensures((input,), outcome),
{
}

} // verus!
