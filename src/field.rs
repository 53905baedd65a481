use vstd::prelude::*;

verus! {

/// `after` is `before` plus the force of the particle at `pj` on the one at `pi`.
pub open spec fn summed<V, Q: Fn(&V, &V) -> V, A: Fn(&V, &V) -> V>(
    pair: Q,
    plus: A,
    pi: V,
    pj: V,
    before: V,
    after: V,
) -> bool {
    exists|f: V| #[trigger] pair.ensures((&pi, &pj), f) && plus.ensures((&before, &f), after)
}

/// `acc` lists the running sums of the pairwise forces on particle `i`, taken
/// over every particle (`i` itself included) in index order, from `start`.
pub open spec fn pair_sums<V, Q: Fn(&V, &V) -> V, A: Fn(&V, &V) -> V>(
    pair: Q,
    plus: A,
    positions: Seq<V>,
    i: int,
    start: V,
    acc: Seq<V>,
) -> bool {
    &&& acc.len() == positions.len() + 1
    &&& acc[0] == start
    &&& forall|j: int|
        0 <= j < positions.len() ==> #[trigger] summed(pair, plus, positions[i], positions[j], acc[j], acc[j + 1])
}

/// Total force on particle `i`: the pairwise forces `pair(positions[i],
/// positions[j])` for every `j` in index order (the self pair included, which
/// a proper pair force makes zero), folded from `start` with `plus`, and then
/// `external` added. The fixed order makes the result reproducible however the
/// particles are spread over workers.
pub fn total_force<V, Q: Fn(&V, &V) -> V, A: Fn(&V, &V) -> V>(
    positions: &Vec<V>,
    i: usize,
    start: V,
    external: &V,
    pair: &Q,
    plus: &A,
) -> (r: V)
    requires
        i < positions.len(),
        forall|a: &V, b: &V| #[trigger] pair.requires((a, b)),
        forall|a: &V, b: &V| #[trigger] plus.requires((a, b)),
    ensures
        exists|acc: Seq<V>|
            #[trigger] pair_sums(*pair, *plus, positions@, i as int, start, acc) && plus.ensures(
                (&acc[positions.len() as int], external),
                r,
            ),
{
    let n = positions.len();
    let ghost mut acc: Seq<V> = seq![start];
    let mut sum = start;
    let mut j: usize = 0;
    while j < n
        invariant
            n == positions.len(),
            i < n,
            j <= n,
            forall|a: &V, b: &V| #[trigger] pair.requires((a, b)),
            forall|a: &V, b: &V| #[trigger] plus.requires((a, b)),
            acc.len() == j + 1,
            acc[0] == start,
            acc[j as int] == sum,
            forall|k: int|
                0 <= k < j ==> #[trigger] summed(*pair, *plus, positions@[i as int], positions@[k], acc[k], acc[k + 1]),
        decreases n - j,
    {
        let f = pair(&positions[i], &positions[j]);
        let next = plus(&sum, &f);
        let ghost longer = acc.push(next);
        assert(summed(*pair, *plus, positions@[i as int], positions@[j as int], sum, next));
        assert forall|k: int| 0 <= k < j + 1 implies #[trigger] summed(
            *pair,
            *plus,
            positions@[i as int],
            positions@[k],
            longer[k],
            longer[k + 1],
        ) by {
            if k < j {
                assert(longer[k] == acc[k] && longer[k + 1] == acc[k + 1]);
            }
        }
        proof {
            acc = longer;
        }
        sum = next;
        j = j + 1;
    }
    let r = plus(&sum, external);
    assert(pair_sums(*pair, *plus, positions@, i as int, start, acc));
    r
}

/// The potential `q` gives a force, rather than a failure, at `p`.
pub open spec fn accepts<V, E, P: Fn(&V) -> Result<V, E>>(q: P, p: V) -> bool {
    exists|v: V| #[trigger] q.ensures((&p,), Ok::<V, E>(v))
}

/// Applying `q` to the positions in index order, the first failure is `e`.
pub open spec fn first_failure<V, E, P: Fn(&V) -> Result<V, E>>(q: P, positions: Seq<V>, e: E) -> bool {
    exists|k: int|
        0 <= k < positions.len() && #[trigger] q.ensures((&positions[k],), Err::<V, E>(e)) && forall|j: int|
            0 <= j < k ==> #[trigger] accepts(q, positions[j])
}

/// The external force on every particle, in index order: `potential` applied
/// once to each position, or `zero` for every particle when there is no
/// potential. The first failure of the potential ends the evaluation.
pub fn external_forces<V: Copy, E, P: Fn(&V) -> Result<V, E>>(
    positions: &Vec<V>,
    potential: &Option<P>,
    zero: V,
) -> (r: Result<Vec<V>, E>)
    requires
        potential matches Some(q) ==> forall|v: &V| #[trigger] q.requires((v,)),
    ensures
        positions.len() == 0 ==> (r matches Ok(f) && f@.len() == 0),
        potential is None ==> (r matches Ok(f) && f@ == Seq::new(positions.len() as nat, |k: int| zero)),
        potential is Some && r is Ok ==> {
            let q = potential->Some_0;
            let f = r->Ok_0;
            &&& f@.len() == positions.len()
            &&& forall|k: int|
                0 <= k < positions.len() ==> #[trigger] q.ensures((&positions@[k],), Ok::<V, E>(f@[k]))
        },
        potential is Some && r is Err ==> first_failure(potential->Some_0, positions@, r->Err_0),
{
    let n = positions.len();
    let mut out: Vec<V> = Vec::new();
    let mut k: usize = 0;
    match potential {
        None => {
            while k < n
                invariant
                    k <= n,
                    out@ == Seq::new(k as nat, |j: int| zero),
                decreases n - k,
            {
                out.push(zero);
                k = k + 1;
                assert(out@ =~= Seq::new(k as nat, |j: int| zero));
            }
            Ok(out)
        },
        Some(q) => {
            while k < n
                invariant
                    n == positions.len(),
                    *potential == Some(*q),
                    k <= n,
                    out@.len() == k,
                    forall|v: &V| #[trigger] q.requires((v,)),
                    forall|j: int|
                        0 <= j < k ==> #[trigger] q.ensures((&positions@[j],), Ok::<V, E>(out@[j])),
                decreases n - k,
            {
                match q(&positions[k]) {
                    Ok(v) => {
                        out.push(v);
                    },
                    Err(e) => {
                        assert forall|j: int| 0 <= j < k implies #[trigger] accepts(*q, positions@[j]) by {
                            assert(q.ensures((&positions@[j],), Ok::<V, E>(out@[j])));
                        }
                        assert(q.ensures((&positions@[k as int],), Err::<V, E>(e)));
                        assert(first_failure(*q, positions@, e));
                        assert(potential->Some_0 == *q);
                        return Err(e);
                    },
                }
                k = k + 1;
            }
            Ok(out)
        },
    }
}

} // verus!
