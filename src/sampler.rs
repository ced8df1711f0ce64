use rand::Rng;
use rand::SeedableRng;
use vstd::prelude::*;

verus! {

#[verifier::external_type_specification]
#[verifier::external_body]
pub struct ExStdRng(rand::rngs::StdRng);

/// Relies on rand's `SeedableRng::seed_from_u64` for `StdRng`: a generator
/// whose stream is fixed by the seed.
#[verifier::external_body]
fn seeded_rng(seed: u64) -> rand::rngs::StdRng {
    rand::rngs::StdRng::seed_from_u64(seed)
}

/// Relies on rand's `Rng::gen_range` over `0..bound`: a value below `bound`,
/// drawn uniformly. It panics on an empty range, hence `bound > 0`.
#[verifier::external_body]
fn random_below(rng: &mut rand::rngs::StdRng, bound: usize) -> (r: usize)
    requires
        bound > 0,
    ensures
        r < bound,
{
    rng.gen_range(0..bound)
}

/// The number of cards drawn for a request: everything when the request is
/// negative or larger than the store, the request itself otherwise.
pub open spec fn effective_size_spec(store_size: nat, requested: int) -> nat {
    if requested < 0 || requested > store_size {
        store_size
    } else {
        requested as nat
    }
}

/// Whether `deck` is a draw of `size` distinct positions of a store of
/// `store_size` pairs.
pub open spec fn is_draw(deck: Seq<usize>, store_size: nat, size: nat) -> bool {
    &&& deck.len() == size
    &&& deck.no_duplicates()
    &&& forall|k: int| 0 <= k < deck.len() ==> (#[trigger] deck[k]) < store_size
}

/// Clamps a requested deck size to the store's size.
pub fn effective_size(store_size: usize, requested: i32) -> (r: usize)
    ensures
        r == effective_size_spec(store_size as nat, requested as int),
{
    if requested < 0 || requested as usize > store_size {
        store_size
    } else {
        requested as usize
    }
}

/// The positions `0, 1, ..., n - 1` of a store of `n` pairs, in order.
pub open spec fn identity_pool(n: nat) -> Seq<usize> {
    Seq::new(n, |i: int| i as usize)
}

/// Whether `picks` can drive `size` steps of a partial Fisher-Yates shuffle
/// of `n` positions: at step `m` the pick chooses one of the `n - m`
/// positions not yet placed.
pub open spec fn valid_picks(n: nat, picks: Seq<usize>, size: nat) -> bool {
    &&& size <= n
    &&& picks.len() >= size
    &&& forall|m: int| 0 <= m < size ==> (#[trigger] picks[m]) + m < n
}

/// The pool after `k` steps of a partial Fisher-Yates shuffle of `n`
/// positions: step `m` exchanges position `m` with position `m + picks[m]`.
pub open spec fn shuffled_pool(n: nat, picks: Seq<usize>, k: nat) -> Seq<usize>
    decreases k,
{
    if k == 0 {
        identity_pool(n)
    } else {
        let p = shuffled_pool(n, picks, (k - 1) as nat);
        let a = k - 1;
        let b = a + picks[a];
        p.update(a, p[b]).update(b, p[a])
    }
}

/// The deck that `picks` give: the first `size` positions of the pool after
/// `size` shuffle steps.
pub open spec fn deck_of_picks(n: nat, picks: Seq<usize>, size: nat) -> Seq<usize> {
    shuffled_pool(n, picks, size).take(size as int)
}

/// Whether `deck` is what some valid picks give in a partial Fisher-Yates
/// shuffle of `n` positions cut at `size`.
pub open spec fn drawn_by_picks(deck: Seq<usize>, n: nat, size: nat) -> bool {
    exists|picks: Seq<usize>| valid_picks(n, picks, size) && deck == deck_of_picks(n, picks, size)
}

/// Draws a deck of the effective size from a store of `store_size` pairs by
/// a partial Fisher-Yates shuffle driven by `picks`: step `m` moves the
/// position chosen by `picks[m]` among those not yet placed to the front.
/// With uniform picks every ordered draw of that size is equally likely.
pub fn draw_from_picks(store_size: usize, requested: i32, picks: &Vec<usize>) -> (r: Vec<usize>)
    requires
        valid_picks(
            store_size as nat,
            picks@,
            effective_size_spec(store_size as nat, requested as int),
        ),
    ensures
        r@ == deck_of_picks(
            store_size as nat,
            picks@,
            effective_size_spec(store_size as nat, requested as int),
        ),
        is_draw(r@, store_size as nat, effective_size_spec(store_size as nat, requested as int)),
{
    let size = effective_size(store_size, requested);
    let ghost n = store_size as nat;
    let mut pool: Vec<usize> = Vec::new();
    let mut i: usize = 0;
    while i < store_size
        invariant
            i <= store_size,
            pool@.len() == i,
            forall|k: int| 0 <= k < i ==> #[trigger] pool@[k] == k,
        decreases store_size - i,
    {
        pool.push(i);
        i = i + 1;
    }
    assert(pool@ =~= identity_pool(n));
    assert(pool@.no_duplicates());
    let mut k: usize = 0;
    while k < size
        invariant
            n == store_size,
            size <= store_size,
            k <= size,
            valid_picks(n, picks@, size as nat),
            pool@ == shuffled_pool(n, picks@, k as nat),
            is_draw(pool@, n, n),
        decreases size - k,
    {
        let pick = picks[k];
        assert(picks@[k as int] + k < n);
        assert(pick + k < store_size);
        let j = k + pick;
        swap_positions(&mut pool, k, j);
        k = k + 1;
    }
    pool.truncate(size);
    assert(pool@ =~= deck_of_picks(n, picks@, size as nat));
    proof {
        let s = shuffled_pool(n, picks@, size as nat);
        assert forall|p: int, q: int| 0 <= p < pool@.len() && 0 <= q < pool@.len() && p != q implies pool@[p] != pool@[q] by {
            assert(pool@[p] == s[p] && pool@[q] == s[q]);
        }
        assert forall|p: int| 0 <= p < pool@.len() implies (#[trigger] pool@[p]) < n by {
            assert(pool@[p] == s[p]);
        }
    }
    pool
}

/// Draws a deck from a store of `store_size` pairs without replacement: the
/// generator supplies, for each card, a uniform pick among the positions not
/// yet placed, and `draw_from_picks` builds the deck from those picks.
pub fn draw(rng: &mut rand::rngs::StdRng, store_size: usize, requested: i32) -> (r: Vec<usize>)
    ensures
        drawn_by_picks(
            r@,
            store_size as nat,
            effective_size_spec(store_size as nat, requested as int),
        ),
        is_draw(r@, store_size as nat, effective_size_spec(store_size as nat, requested as int)),
{
    let size = effective_size(store_size, requested);
    let mut picks: Vec<usize> = Vec::new();
    let mut m: usize = 0;
    while m < size
        invariant
            size <= store_size,
            m <= size,
            picks@.len() == m,
            forall|t: int| 0 <= t < m ==> (#[trigger] picks@[t]) + t < store_size,
        decreases size - m,
    {
        let pick = random_below(rng, store_size - m);
        picks.push(pick);
        m = m + 1;
    }
    let r = draw_from_picks(store_size, requested, &picks);
    assert(valid_picks(store_size as nat, picks@, size as nat));
    r
}

/// Draws a deck with a generator seeded by `seed`; the same seed gives the
/// same deck.
pub fn draw_seeded(store_size: usize, requested: i32, seed: u64) -> (r: Vec<usize>)
    ensures
        drawn_by_picks(
            r@,
            store_size as nat,
            effective_size_spec(store_size as nat, requested as int),
        ),
        is_draw(r@, store_size as nat, effective_size_spec(store_size as nat, requested as int)),
{
    let mut rng = seeded_rng(seed);
    draw(&mut rng, store_size, requested)
}

/// Exchanges two positions of a pool; a draw stays a draw.
fn swap_positions(pool: &mut Vec<usize>, a: usize, b: usize)
    requires
        a < old(pool)@.len(),
        b < old(pool)@.len(),
    ensures
        final(pool)@ == old(pool)@.update(a as int, old(pool)@[b as int]).update(
            b as int,
            old(pool)@[a as int],
        ),
        forall|n: nat, m: nat| is_draw(old(pool)@, n, m) ==> is_draw(final(pool)@, n, m),
{
    let x = pool[a];
    let y = pool[b];
    pool.set(a, y);
    pool.set(b, x);
    let ghost s = old(pool)@;
    let ghost t = pool@;
    assert forall|n: nat, m: nat| is_draw(s, n, m) implies is_draw(t, n, m) by {
        assert forall|p: int, q: int| 0 <= p < t.len() && 0 <= q < t.len() && p != q implies t[p]
            != t[q] by {
            let pp = if p == a { b as int } else if p == b { a as int } else { p };
            let qq = if q == a { b as int } else if q == b { a as int } else { q };
            assert(t[p] == s[pp]);
            assert(t[q] == s[qq]);
        }
        assert forall|p: int| 0 <= p < t.len() implies (#[trigger] t[p]) < n by {
            let pp = if p == a { b as int } else if p == b { a as int } else { p };
            assert(t[p] == s[pp]);
        }
    }
}

} // verus!
