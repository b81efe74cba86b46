use vstd::prelude::*;
use crate::outcome::{Error, Result};
use crate::composable::Composable;
use crate::compose::Compose;
use crate::accumulate::ComposeT;

verus! {

/// Two steps from `I` to `O` cannot be told apart: they accept the same
/// inputs and may yield the same outcomes on each.
pub open spec fn equivalent<I, O, A: Composable<I, O>, B: Composable<I, O>>(a: A, b: B) -> bool {
    &&& forall|x: I| #![trigger a.accepts(x)] #![trigger b.accepts(x)] a.accepts(x) == b.accepts(x)
    &&& forall|x: I, r: Result<O>|
        #![trigger a.yields(x, r)]
        #![trigger b.yields(x, r)]
        a.yields(x, r) == b.yields(x, r)
}

/// Composition is associative: `compose(compose(a, b), c)` and
/// `compose(a, compose(b, c))` accept the same inputs and give the same
/// successes and the same failures.
pub proof fn lemma_compose_associative<
    I,
    M,
    N,
    O,
    A: Composable<I, M>,
    B: Composable<M, N>,
    C: Composable<N, O>,
>(a: A, b: B, c: C)
    ensures
        equivalent(
            Compose::<Compose<A, B, M>, C, N>::of(Compose::of(a, b), c),
            Compose::<A, Compose<B, C, N>, M>::of(a, Compose::of(b, c)),
        ),
{
    let left = Compose::<Compose<A, B, M>, C, N>::of(Compose::of(a, b), c);
    let right = Compose::<A, Compose<B, C, N>, M>::of(a, Compose::of(b, c));
    assert(left.first.first == a && left.first.second == b && left.second == c);
    assert(right.first == a && right.second.first == b && right.second.second == c);
    assert forall|x: I| left.accepts(x) == right.accepts(x) by {
        if left.accepts(x) {
            assert forall|m: M| #[trigger] a.yields(x, Ok(m)) implies right.second.accepts(m) by {
                assert forall|n: N| #[trigger] b.yields(m, Ok(n)) implies c.accepts(n) by {
                    assert(left.first.yields(x, Ok(n)));
                }
            }
        }
        if right.accepts(x) {
            assert forall|n: N| #[trigger] left.first.yields(x, Ok(n)) implies c.accepts(n) by {
                let m = choose|m: M| #[trigger] a.yields(x, Ok(m)) && b.yields(m, Ok(n));
                assert(right.second.accepts(m));
            }
        }
    }
    assert forall|x: I, r: Result<O>| left.yields(x, r) == right.yields(x, r) by {
        if left.yields(x, r) {
            if exists|n: N| #[trigger] left.first.yields(x, Ok(n)) && c.yields(n, r) {
                let n = choose|n: N| #[trigger] left.first.yields(x, Ok(n)) && c.yields(n, r);
                let m = choose|m: M| #[trigger] a.yields(x, Ok(m)) && b.yields(m, Ok(n));
                assert(right.second.yields(m, r));
            } else if !a.yields(x, Err(r->Err_0)) {
                let e = r->Err_0;
                let m = choose|m: M| #[trigger] a.yields(x, Ok(m)) && b.yields(m, Err(e));
                assert(right.second.yields(m, r));
            }
        }
        if right.yields(x, r) {
            if exists|m: M| #[trigger] a.yields(x, Ok(m)) && right.second.yields(m, r) {
                let m = choose|m: M| #[trigger] a.yields(x, Ok(m)) && right.second.yields(m, r);
                if exists|n: N| #[trigger] b.yields(m, Ok(n)) && c.yields(n, r) {
                    let n = choose|n: N| #[trigger] b.yields(m, Ok(n)) && c.yields(n, r);
                    assert(left.first.yields(x, Ok(n)));
                } else {
                    assert(left.first.yields(x, Err(r->Err_0)));
                }
            }
        }
    }
}

/// A first step that fails stops the composition: where `a` can only fail on
/// `x`, `compose(a, b)` accepts `x` exactly when `a` does, whatever `b`
/// accepts, and its outcomes are exactly the failures of `a`; `b` plays no
/// part.
pub proof fn lemma_compose_short_circuit<I, M, O, A: Composable<I, M>, B: Composable<M, O>>(
    a: A,
    b: B,
    x: I,
)
    requires
        forall|m: M| !a.yields(x, Ok(m)),
    ensures
        Compose::<A, B, M>::of(a, b).accepts(x) == a.accepts(x),
        forall|e: Error| #[trigger]
            Compose::<A, B, M>::of(a, b).yields(x, Err(e)) == a.yields(x, Err(e)),
        forall|o: O| !Compose::<A, B, M>::of(a, b).yields(x, Ok(o)),
{
    let ab = Compose::<A, B, M>::of(a, b);
    assert(ab.first == a && ab.second == b);
}

/// Composing equivalent steps gives equivalent compositions: what a
/// composition does depends only on what its parts do, not on whether they
/// are structs, closures or named functions.
pub proof fn lemma_compose_congruent<
    I,
    M,
    O,
    A1: Composable<I, M>,
    A2: Composable<I, M>,
    B1: Composable<M, O>,
    B2: Composable<M, O>,
>(a1: A1, a2: A2, b1: B1, b2: B2)
    requires
        equivalent(a1, a2),
        equivalent(b1, b2),
    ensures
        equivalent(Compose::<A1, B1, M>::of(a1, b1), Compose::<A2, B2, M>::of(a2, b2)),
{
    let one = Compose::<A1, B1, M>::of(a1, b1);
    let two = Compose::<A2, B2, M>::of(a2, b2);
    assert(one.first == a1 && one.second == b1 && two.first == a2 && two.second == b2);
    assert forall|x: I| one.accepts(x) == two.accepts(x) by {
        assert forall|m: M| a1.yields(x, Ok(m)) == a2.yields(x, Ok(m)) by {}
        assert forall|m: M| b1.accepts(m) == b2.accepts(m) by {}
    }
    assert forall|x: I, r: Result<O>| one.yields(x, r) == two.yields(x, r) by {
        if one.yields(x, r) {
            if exists|m: M| #[trigger] a1.yields(x, Ok(m)) && b1.yields(m, r) {
                let m = choose|m: M| #[trigger] a1.yields(x, Ok(m)) && b1.yields(m, r);
                assert(a2.yields(x, Ok(m)) && b2.yields(m, r));
            } else {
                assert(a2.yields(x, Err(r->Err_0)));
            }
        }
        if two.yields(x, r) {
            if exists|m: M| #[trigger] a2.yields(x, Ok(m)) && b2.yields(m, r) {
                let m = choose|m: M| #[trigger] a2.yields(x, Ok(m)) && b2.yields(m, r);
                assert(a1.yields(x, Ok(m)) && b1.yields(m, r));
            } else {
                assert(a1.yields(x, Err(r->Err_0)));
            }
        }
    }
}

/// A chain of three steps behaves as any other chain whose steps behave
/// alike, one by one: a chain that mixes a struct, a closure and a named
/// function applies as a chain of structs with the same logic does.
pub proof fn lemma_chain_congruent<
    I,
    M,
    N,
    O,
    A1: Composable<I, M>,
    A2: Composable<I, M>,
    B1: Composable<M, N>,
    B2: Composable<M, N>,
    C1: Composable<N, O>,
    C2: Composable<N, O>,
>(a1: A1, a2: A2, b1: B1, b2: B2, c1: C1, c2: C2)
    requires
        equivalent(a1, a2),
        equivalent(b1, b2),
        equivalent(c1, c2),
    ensures
        equivalent(
            Compose::<Compose<A1, B1, M>, C1, N>::of(Compose::of(a1, b1), c1),
            Compose::<Compose<A2, B2, M>, C2, N>::of(Compose::of(a2, b2), c2),
        ),
{
    lemma_compose_congruent(a1, a2, b1, b2);
    lemma_compose_congruent(Compose::<A1, B1, M>::of(a1, b1), Compose::<A2, B2, M>::of(a2, b2), c1, c2);
}

/// The payloads of a payload-carrying composition are those its two steps
/// produced, unmerged and in order: `compose_t(first, second)` may yield
/// `(o, (p, q))` on `x` exactly when `first` may yield `(m, p)` on `x` and
/// `second` may yield `(o, q)` on `m`, for some `m`.
pub proof fn lemma_payloads_nested<
    I,
    M,
    P,
    O,
    Q,
    A: Composable<I, (M, P)>,
    B: Composable<M, (O, Q)>,
>(first: A, second: B, x: I, o: O, p: P, q: Q)
    ensures
        ComposeT::<A, B, M, P>::of(first, second).yields(x, Ok((o, (p, q)))) <==> exists|m: M|
            #[trigger] first.yields(x, Ok((m, p))) && second.yields(m, Ok((o, q))),
{
    let both = ComposeT::<A, B, M, P>::of(first, second);
    assert(both.first == first && both.second == second);
    let v = (o, (p, q));
    assert(v.0 == o && v.1.0 == p && v.1.1 == q);
    if both.yields(x, Ok(v)) {
        let m = choose|m: M| #[trigger] first.yields(x, Ok((m, v.1.0))) && second.yields(m, Ok((v.0, v.1.1)));
        assert(first.yields(x, Ok((m, p))) && second.yields(m, Ok((o, q))));
    }
    if exists|m: M| #[trigger] first.yields(x, Ok((m, p))) && second.yields(m, Ok((o, q))) {
        let m = choose|m: M| #[trigger] first.yields(x, Ok((m, p))) && second.yields(m, Ok((o, q)));
        let r: Result<(O, (P, Q))> = Ok(v);
        let w = r->Ok_0;
        assert(w == v);
        assert(first.yields(x, Ok((m, w.1.0))) && second.yields(m, Ok((w.0, w.1.1))));
    }
}

} // verus!
