use vstd::prelude::*;
use core::marker::PhantomData;
use crate::outcome::Result;
use crate::composable::Composable;

verus! {

/// The step that composes two steps whose values carry a side payload.
///
/// `first` yields a pair `(m, p)`; `second` runs on `m` and yields `(o, q)`;
/// the composition yields `(o, (p, q))`. The payloads are carried as they
/// came, in the order the steps ran.
pub struct ComposeT<A, B, M, P> {
    pub first: A,
    pub second: B,
    pub link: PhantomData<(M, P)>,
}

impl<A, B, M, P> ComposeT<A, B, M, P> {
    /// The payload-carrying composition of `first` with `second`, as a value.
    pub open spec fn of(first: A, second: B) -> Self {
        ComposeT { first, second, link: PhantomData }
    }
}

impl<I, M, P, O, Q, A: Composable<I, (M, P)>, B: Composable<M, (O, Q)>> Composable<
    I,
    (O, (P, Q)),
> for ComposeT<A, B, M, P> {
    /// `first` accepts the input, and `second` accepts the primary part of
    /// every pair that `first` may produce from it.
    open spec fn accepts(&self, input: I) -> bool {
        &&& self.first.accepts(input)
        &&& forall|m: M, p: P| #[trigger]
            self.first.yields(input, Ok((m, p))) ==> self.second.accepts(m)
    }

    /// A success `(o, (p, q))` comes from `first` producing `(m, p)` and
    /// `second` producing `(o, q)` from `m`; a failure is the error of
    /// `first`, or the error of `second` after `first` succeeded.
    open spec fn yields(&self, input: I, outcome: Result<(O, (P, Q))>) -> bool {
        match outcome {
            Ok(v) => exists|m: M| #[trigger]
                self.first.yields(input, Ok((m, v.1.0))) && self.second.yields(m, Ok((v.0, v.1.1))),
            Err(e) => {
                ||| self.first.yields(input, Err(e))
                ||| exists|m: M, p: P| #[trigger]
                    self.first.yields(input, Ok((m, p))) && self.second.yields(m, Err(e))
            },
        }
    }

    fn apply(&self, input: I) -> (r: Result<(O, (P, Q))>) {
        match self.first.apply(input) {
            Err(e) => Err(e),
            Ok((m, p)) => {
                let ghost mid = (m, p);
                match self.second.apply(m) {
                    Err(e) => Err(e),
                    Ok((o, q)) => {
                        let r: Result<(O, (P, Q))> = Ok((o, (p, q)));
                        let ghost v = r->Ok_0;
                        assert(self.first.yields(input, Ok((mid.0, v.1.0))));
                        r
                    },
                }
            },
        }
    }
}

/// What a payload-carrying composition accepts and yields, at any instance of
/// its parts. At a concrete type that holds a closure Verus may not unfold the
/// impl above by itself; this states it there.
pub proof fn lemma_compose_t_unfold<
    I,
    M,
    P,
    O,
    Q,
    A: Composable<I, (M, P)>,
    B: Composable<M, (O, Q)>,
>(c: ComposeT<A, B, M, P>)
    ensures
        forall|input: I| #[trigger]
            c.accepts(input) == (c.first.accepts(input) && forall|m: M, p: P| #[trigger]
                c.first.yields(input, Ok((m, p))) ==> c.second.accepts(m)),
        forall|input: I, outcome: Result<(O, (P, Q))>| #[trigger]
            c.yields(input, outcome) == match outcome {
                Ok(v) => exists|m: M| #[trigger]
                    c.first.yields(input, Ok((m, v.1.0))) && c.second.yields(m, Ok((v.0, v.1.1))),
                Err(e) => c.first.yields(input, Err(e)) || exists|m: M, p: P| #[trigger]
                    c.first.yields(input, Ok((m, p))) && c.second.yields(m, Err(e)),
            },
{
}

/// Composes two payload-carrying steps: runs `first`, then `second` on the
/// primary part of its value, stops at the first failure, and nests the two
/// payloads beside the final value.
pub fn compose_t<I, M, P, O, Q, A: Composable<I, (M, P)>, B: Composable<M, (O, Q)>>(
    first: A,
    second: B,
) -> (r: ComposeT<A, B, M, P>)
    ensures
        r == ComposeT::<A, B, M, P>::of(first, second),
{
    ComposeT { first, second, link: PhantomData }
}

} // verus!
