use vstd::prelude::*;
use core::marker::PhantomData;
use crate::outcome::Result;
use crate::composable::Composable;

verus! {

/// The step that runs `first`, and on its success runs `second` on the value
/// it produced. `M` is the type that passes from one to the other.
pub struct Compose<A, B, M> {
    pub first: A,
    pub second: B,
    pub link: PhantomData<M>,
}

impl<A, B, M> Compose<A, B, M> {
    /// The composition of `first` with `second`, as a value.
    pub open spec fn of(first: A, second: B) -> Self {
        Compose { first, second, link: PhantomData }
    }
}

impl<I, M, O, A: Composable<I, M>, B: Composable<M, O>> Composable<I, O> for Compose<A, B, M> {
    /// `first` accepts the input, and `second` accepts every value that
    /// `first` may produce from it.
    open spec fn accepts(&self, input: I) -> bool {
        &&& self.first.accepts(input)
        &&& forall|mid: M| #[trigger] self.first.yields(input, Ok(mid)) ==> self.second.accepts(mid)
    }

    /// Either `first` fails and its error is the outcome, or `first` produces
    /// a value and `second` yields the outcome from it.
    open spec fn yields(&self, input: I, outcome: Result<O>) -> bool {
        ||| exists|mid: M| #[trigger]
            self.first.yields(input, Ok(mid)) && self.second.yields(mid, outcome)
        ||| match outcome {
            Ok(_) => false,
            Err(e) => self.first.yields(input, Err(e)),
        }
    }

    fn apply(&self, input: I) -> (r: Result<O>) {
        match self.first.apply(input) {
            Ok(m) => self.second.apply(m),
            Err(e) => Err(e),
        }
    }
}

/// What a composition accepts and yields, at any instance of its parts. At a
/// concrete type that holds a closure Verus may not unfold the impl above by
/// itself; this states it there.
pub proof fn lemma_compose_unfold<I, M, O, A: Composable<I, M>, B: Composable<M, O>>(
    c: Compose<A, B, M>,
)
    ensures
        forall|input: I| #[trigger]
            c.accepts(input) == (c.first.accepts(input) && forall|mid: M| #[trigger]
                c.first.yields(input, Ok(mid)) ==> c.second.accepts(mid)),
        forall|input: I, outcome: Result<O>| #[trigger]
            c.yields(input, outcome) == ((exists|mid: M| #[trigger]
                c.first.yields(input, Ok(mid)) && c.second.yields(mid, outcome)) || match outcome {
                Ok(_) => false,
                Err(e) => c.first.yields(input, Err(e)),
            }),
{
}

/// Composes two steps: the result runs `first`, then `second` on its value,
/// and stops at the first failure.
pub fn compose<I, M, O, A: Composable<I, M>, B: Composable<M, O>>(first: A, second: B) -> (r:
    Compose<A, B, M>)
    ensures
        r == Compose::<A, B, M>::of(first, second),
{
    Compose { first, second, link: PhantomData }
}

/// Chains three steps, folding from the left: `compose(compose(a, b), c)`.
pub fn composed3<I, M, N, O, A: Composable<I, M>, B: Composable<M, N>, C: Composable<N, O>>(
    a: A,
    b: B,
    c: C,
) -> (r: Compose<Compose<A, B, M>, C, N>)
    ensures
        r == Compose::<Compose<A, B, M>, C, N>::of(Compose::of(a, b), c),
{
    compose(compose(a, b), c)
}

/// Chains four steps, folding from the left.
pub fn composed4<
    I,
    M,
    N,
    P,
    O,
    A: Composable<I, M>,
    B: Composable<M, N>,
    C: Composable<N, P>,
    D: Composable<P, O>,
>(a: A, b: B, c: C, d: D) -> (r: Compose<Compose<Compose<A, B, M>, C, N>, D, P>)
    ensures
        r == Compose::<Compose<Compose<A, B, M>, C, N>, D, P>::of(
            Compose::of(Compose::of(a, b), c),
            d,
        ),
{
    compose(composed3(a, b, c), d)
}

/// Chains five steps, folding from the left.
pub fn composed5<
    I,
    M,
    N,
    P,
    Q,
    O,
    A: Composable<I, M>,
    B: Composable<M, N>,
    C: Composable<N, P>,
    D: Composable<P, Q>,
    E: Composable<Q, O>,
>(a: A, b: B, c: C, d: D, e: E) -> (r: Compose<
    Compose<Compose<Compose<A, B, M>, C, N>, D, P>,
    E,
    Q,
>)
    ensures
        r == Compose::<Compose<Compose<Compose<A, B, M>, C, N>, D, P>, E, Q>::of(
            Compose::of(Compose::of(Compose::of(a, b), c), d),
            e,
        ),
{
    compose(composed4(a, b, c, d), e)
}

} // verus!
