//! Selection of the `k` nearest other points of each point.
//!
//! Distances come in as `u64` keys: a key is ordered as the distance it stands
//! for (the bit pattern of a non-negative squared distance has that property).
use vstd::prelude::*;

verus! {

/// `sel` lists `k` distinct points of `keys`, none of them `center`, and no
/// point left out (other than `center`) has a smaller key than a chosen one.
pub open spec fn is_nearest_selection(keys: Seq<u64>, center: int, k: int, sel: Seq<usize>) -> bool {
    &&& sel.len() == k
    &&& sel.no_duplicates()
    &&& forall|a: int| 0 <= a < sel.len() ==> (#[trigger] sel[a]) < keys.len() && sel[a] != center
    &&& forall|a: int, j: int|
        #![trigger sel[a], keys[j]]
        0 <= a < sel.len() && 0 <= j < keys.len() && j != center && !sel.contains(j as usize)
            ==> keys[sel[a] as int] <= keys[j]
}

/// Position in `chosen` of a point whose key is the largest among the chosen.
fn farthest(keys: &Vec<u64>, chosen: &Vec<usize>) -> (pos: usize)
    requires
        chosen.len() > 0,
        forall|a: int| 0 <= a < chosen.len() ==> (#[trigger] chosen@[a]) < keys.len(),
    ensures
        pos < chosen.len(),
        forall|a: int|
            0 <= a < chosen.len() ==> keys@[(#[trigger] chosen@[a]) as int] <= keys@[chosen@[pos as int] as int],
{
    let mut pos: usize = 0;
    let mut b: usize = 1;
    while b < chosen.len()
        invariant
            1 <= b <= chosen.len(),
            pos < b,
            forall|a: int| 0 <= a < chosen.len() ==> (#[trigger] chosen@[a]) < keys.len(),
            forall|a: int|
                0 <= a < b ==> keys@[(#[trigger] chosen@[a]) as int] <= keys@[chosen@[pos as int] as int],
        decreases chosen.len() - b,
    {
        if keys[chosen[b]] > keys[chosen[pos]] {
            pos = b;
        }
        b = b + 1;
    }
    pos
}

/// The `k` points nearest to `center`, given the key of every point's distance
/// from it (`keys[center]` is not read).
///
/// Candidates are scanned once; while fewer than `k` are held each is taken,
/// after that a candidate replaces the farthest held point if it is nearer.
pub fn nearest_to(keys: &Vec<u64>, center: usize, k: usize) -> (sel: Vec<usize>)
    requires
        center < keys.len(),
        k < keys.len(),
    ensures
        is_nearest_selection(keys@, center as int, k as int, sel@),
{
    let n = keys.len();
    let mut best: Vec<usize> = Vec::new();
    let mut j: usize = 0;
    while j < n
        invariant
            n == keys.len(),
            center < n,
            k < n,
            j <= n,
            best.len() <= k,
            best.len() == if j - (if center < j { 1int } else { 0int }) < k {
                j - (if center < j { 1int } else { 0int })
            } else {
                k as int
            },
            best@.no_duplicates(),
            forall|a: int| 0 <= a < best.len() ==> (#[trigger] best@[a]) < j && best@[a] != center,
            best.len() < k ==> forall|i: int| 0 <= i < j && i != center ==> #[trigger] best@.contains(i as usize),
            forall|a: int, i: int|
                #![trigger best@[a], keys@[i]]
                0 <= a < best.len() && 0 <= i < j && i != center && !best@.contains(i as usize)
                    ==> keys@[best@[a] as int] <= keys@[i],
        decreases n - j,
    {
        if j != center {
            if best.len() < k {
                let ghost prev = best@;
                best.push(j);
                assert forall|i: int| 0 <= i < j + 1 && i != center implies #[trigger] best@.contains(i as usize) by {
                    if i < j {
                        assert(prev.contains(i as usize));
                        let a = choose|a: int| 0 <= a < prev.len() && prev[a] == i as usize;
                        assert(best@[a] == i as usize);
                    } else {
                        assert(best@[best.len() - 1] == j);
                    }
                }
            } else if k > 0 {
                let pos = farthest(keys, &best);
                let far = best[pos];
                if keys[j] < keys[far] {
                    let ghost prev = best@;
                    best.set(pos, j);
                    assert forall|x: usize| #[trigger] best@.contains(x) <==> (x == j || (prev.contains(x) && x != far)) by {
                        assert(best@[pos as int] == j);
                        if prev.contains(x) && x != far {
                            let a = choose|a: int| 0 <= a < prev.len() && prev[a] == x;
                            assert(best@[a] == x);
                        }
                        if best@.contains(x) {
                            let a = choose|a: int| 0 <= a < best.len() && best@[a] == x;
                            if a != pos {
                                assert(prev[a] == x);
                                assert(prev[a] != prev[pos as int]);
                            }
                        }
                    }
                    assert(best@[pos as int] == j);
                    assert forall|a: int, b: int| 0 <= a < b < best.len() implies best@[a] != best@[b] by {
                        if a != pos && b != pos {
                            assert(prev[a] != prev[b]);
                        }
                    }
                    assert forall|a: int, i: int|
                        #![trigger best@[a], keys@[i]]
                        0 <= a < best.len() && 0 <= i < j + 1 && i != center && !best@.contains(i as usize)
                            implies keys@[best@[a] as int] <= keys@[i] by {
                        if a != pos {
                            assert(best@[a] == prev[a]);
                            assert(prev.contains(far));
                        }
                        if i != far {
                            assert(!prev.contains(i as usize));
                            assert(keys@[prev[pos as int] as int] <= keys@[i]);
                        }
                    }
                } else {
                    assert forall|a: int, i: int|
                        #![trigger best@[a], keys@[i]]
                        0 <= a < best.len() && 0 <= i < j + 1 && i != center && !best@.contains(i as usize)
                            implies keys@[best@[a] as int] <= keys@[i] by {
                        if i == j {
                            assert(keys@[best@[a] as int] <= keys@[far as int]);
                        }
                    }
                }
            }
        }
        j = j + 1;
    }
    best
}

/// Every row of `keys` is as long as there are rows: `keys[i][j]` is the key of
/// the distance between points `i` and `j`.
pub open spec fn is_square(keys: Seq<Vec<u64>>) -> bool {
    forall|i: int| 0 <= i < keys.len() ==> (#[trigger] keys[i]).len() == keys.len()
}

/// For each point, the indices of its `k` nearest other points.
pub fn nearest_neighbors(keys: &Vec<Vec<u64>>, k: usize) -> (r: Vec<Vec<usize>>)
    requires
        is_square(keys@),
        k < keys.len(),
    ensures
        r.len() == keys.len(),
        forall|i: int|
            0 <= i < r.len() ==> is_nearest_selection(keys@[i]@, i, k as int, (#[trigger] r@[i])@),
{
    let mut r: Vec<Vec<usize>> = Vec::new();
    let mut i: usize = 0;
    while i < keys.len()
        invariant
            is_square(keys@),
            k < keys.len(),
            i <= keys.len(),
            r.len() == i,
            forall|c: int|
                0 <= c < i ==> is_nearest_selection(keys@[c]@, c, k as int, (#[trigger] r@[c])@),
        decreases keys.len() - i,
    {
        assert(keys@[i as int].len() == keys.len());
        let sel = nearest_to(&keys[i], i, k);
        r.push(sel);
        i = i + 1;
    }
    r
}

/// The values that `indices` point at, in the order of `indices`.
pub fn gather<T: Copy>(values: &Vec<T>, indices: &Vec<usize>) -> (r: Vec<T>)
    requires
        forall|a: int| 0 <= a < indices.len() ==> (#[trigger] indices@[a]) < values.len(),
    ensures
        r@ == indices@.map_values(|i: usize| values@[i as int]),
{
    let mut r: Vec<T> = Vec::new();
    let mut a: usize = 0;
    while a < indices.len()
        invariant
            a <= indices.len(),
            forall|b: int| 0 <= b < indices.len() ==> (#[trigger] indices@[b]) < values.len(),
            r@ == indices@.subrange(0, a as int).map_values(|i: usize| values@[i as int]),
        decreases indices.len() - a,
    {
        r.push(values[indices[a]]);
        a = a + 1;
        assert(r@ =~= indices@.subrange(0, a as int).map_values(|i: usize| values@[i as int]));
    }
    assert(indices@.subrange(0, a as int) =~= indices@);
    r
}

} // verus!
