use vstd::prelude::*;

verus! {

/// The sign bit of an IEEE-754 single-precision bit pattern.
pub const SIGN_BIT: u32 = 0x8000_0000;

/// The bit pattern of positive infinity: every larger magnitude is a NaN.
pub const INFINITY_BITS: u32 = 0x7f80_0000;

/// The bits of a single-precision pattern other than its sign.
pub open spec fn magnitude(bits: u32) -> int {
    (bits % SIGN_BIT) as int
}

/// The pattern encodes a NaN, which no other score can be compared with.
pub open spec fn is_nan_bits(bits: u32) -> bool {
    magnitude(bits) > INFINITY_BITS
}

/// Where a non-NaN float stands on the number line: single-precision floats
/// are sign and magnitude, so the magnitude orders the positive values, its
/// negation the negative ones, and both zeros land on 0.
pub open spec fn order_key(bits: u32) -> int {
    if bits < SIGN_BIT {
        magnitude(bits)
    } else {
        -magnitude(bits)
    }
}

/// The order key of each score.
pub open spec fn keys_of(bits: Seq<u32>) -> Seq<int> {
    bits.map_values(|b: u32| order_key(b))
}

/// Index `i` is ranked before index `j`: the higher score first, and among
/// equal scores the one that came first in the input.
pub open spec fn precedes(keys: Seq<int>, i: int, j: int) -> bool {
    keys[i] > keys[j] || (keys[i] == keys[j] && i < j)
}

/// The smaller of `limit` and `n`.
pub open spec fn capped(limit: nat, n: nat) -> nat {
    if limit < n {
        limit
    } else {
        n
    }
}

/// `out` lists, best first, the `limit` best indices of `keys` (all of them
/// when there are fewer), and every index it leaves out ranks after all of it.
pub open spec fn is_ranking(keys: Seq<int>, limit: nat, out: Seq<usize>) -> bool {
    &&& out.len() == capped(limit, keys.len())
    &&& forall|p: int| 0 <= p < out.len() ==> out[p] < keys.len()
    &&& forall|p: int, q: int|
        0 <= p < q < out.len() ==> precedes(keys, out[p] as int, out[q] as int)
    &&& forall|p: int, j: int|
        0 <= p < out.len() && 0 <= j < keys.len() && !out.contains(j as usize) ==> precedes(
            keys,
            out[p] as int,
            j,
        )
}

/// Why a list of scores cannot be ranked.
#[derive(Debug, Clone, Copy, PartialEq, Eq, Structural)]
pub enum RankError {
    /// The score at this index is NaN and has no place in the order.
    NotComparable { index: usize },
}

/// Whether a score's bit pattern is a NaN.
pub fn is_nan(bits: u32) -> (r: bool)
    ensures
        r == is_nan_bits(bits),
{
    bits % SIGN_BIT > INFINITY_BITS
}

/// The order key of a score's bit pattern.
pub fn order_key_of(bits: u32) -> (k: i64)
    ensures
        k == order_key(bits),
{
    let m = bits % SIGN_BIT;
    if bits < SIGN_BIT {
        m as i64
    } else {
        -(m as i64)
    }
}

spec fn int_keys(keys: Seq<i64>) -> Seq<int> {
    keys.map_values(|k: i64| k as int)
}

/// Selection of the `limit` best indices, best first.
fn select_top(keys: &Vec<i64>, limit: usize) -> (out: Vec<usize>)
    ensures
        is_ranking(int_keys(keys@), limit as nat, out@),
{
    let ghost ks = int_keys(keys@);
    let n = keys.len();
    let mut rest: Vec<usize> = Vec::new();
    let mut i: usize = 0;
    while i < n
        invariant
            i <= n,
            n == keys.len(),
            rest@.len() == i,
            forall|p: int| 0 <= p < i ==> rest@[p] == p,
        decreases n - i,
    {
        rest.push(i);
        i = i + 1;
    }
    let count = if limit < n {
        limit
    } else {
        n
    };
    let mut out: Vec<usize> = Vec::new();
    assert forall|j: usize| j < n implies rest@.contains(j) by {
        assert(rest@[j as int] == j);
    }
    while out.len() < count
        invariant
            ks == int_keys(keys@),
            n == keys.len(),
            count == capped(limit as nat, n as nat),
            out.len() <= count,
            out.len() + rest.len() == n,
            forall|p: int| 0 <= p < rest.len() ==> rest@[p] < n,
            forall|p: int, q: int| 0 <= p < q < rest.len() ==> rest@[p] != rest@[q],
            forall|p: int| 0 <= p < out.len() ==> out@[p] < n,
            forall|j: usize| j < n ==> out@.contains(j) || rest@.contains(j),
            forall|p: int, q: int|
                0 <= p < q < out.len() ==> precedes(ks, out@[p] as int, out@[q] as int),
            forall|p: int, t: int|
                0 <= p < out.len() && 0 <= t < rest.len() ==> precedes(
                    ks,
                    out@[p] as int,
                    rest@[t] as int,
                ),
        decreases count - out.len(),
    {
        let mut b: usize = 0;
        let mut r: usize = 1;
        while r < rest.len()
            invariant
                ks == int_keys(keys@),
                n == keys.len(),
                rest.len() > 0,
                1 <= r <= rest.len(),
                b < r,
                forall|p: int| 0 <= p < rest.len() ==> rest@[p] < n,
                forall|p: int, q: int| 0 <= p < q < rest.len() ==> rest@[p] != rest@[q],
                forall|t: int|
                    0 <= t < r && t != b ==> precedes(ks, rest@[b as int] as int, rest@[t] as int),
            decreases rest.len() - r,
        {
            let cand = rest[r];
            let cur = rest[b];
            if keys[cand] > keys[cur] || (keys[cand] == keys[cur] && cand < cur) {
                b = r;
            }
            r = r + 1;
        }
        let ghost old_rest = rest@;
        let ghost old_out = out@;
        let best = rest.remove(b);
        out.push(best);
        proof {
            assert forall|t: int| 0 <= t < rest.len() implies rest@[t] == if t < b {
                old_rest[t]
            } else {
                old_rest[t + 1]
            } by {}
            assert forall|j: usize| j < n implies out@.contains(j) || rest@.contains(j) by {
                if old_out.contains(j) {
                    let p = choose|p: int| 0 <= p < old_out.len() && old_out[p] == j;
                    assert(out@[p] == j);
                } else {
                    let t = choose|t: int| 0 <= t < old_rest.len() && old_rest[t] == j;
                    if t < b {
                        assert(rest@[t] == j);
                    } else if t == b {
                        assert(out@[out.len() - 1] == j);
                    } else {
                        assert(rest@[t - 1] == j);
                    }
                }
            }
        }
    }
    proof {
        assert forall|p: int, j: int|
            0 <= p < out.len() && 0 <= j < n && !out@.contains(j as usize) implies precedes(
            ks,
            out@[p] as int,
            j,
        ) by {
            assert(rest@.contains(j as usize));
        }
    }
    out
}

/// Ranks scores given as single-precision bit patterns: the indices of the
/// `limit` highest scores, highest first, ties in input order. Fails at the
/// first NaN, which cannot be ordered against the others.
pub fn shortlist(score_bits: &Vec<u32>, limit: usize) -> (r: Result<Vec<usize>, RankError>)
    ensures
        r is Err <==> exists|i: int| 0 <= i < score_bits.len() && is_nan_bits(score_bits@[i]),
        r matches Err(RankError::NotComparable { index }) ==> index < score_bits.len()
            && is_nan_bits(score_bits@[index as int]) && forall|i: int|
            0 <= i < index ==> !is_nan_bits(score_bits@[i]),
        r matches Ok(out) ==> is_ranking(keys_of(score_bits@), limit as nat, out@),
        r matches Ok(out) ==> out.len() == capped(limit as nat, score_bits.len() as nat),
        r matches Ok(out) ==> forall|p: int, q: int|
            0 <= p < q < out.len() ==> order_key(score_bits@[out@[p] as int]) >= order_key(
                score_bits@[out@[q] as int],
            ),
{
    let mut keys: Vec<i64> = Vec::new();
    let mut i: usize = 0;
    while i < score_bits.len()
        invariant
            i <= score_bits.len(),
            keys@.len() == i,
            forall|p: int| 0 <= p < i ==> keys@[p] == order_key(score_bits@[p]),
            forall|p: int| 0 <= p < i ==> !is_nan_bits(score_bits@[p]),
        decreases score_bits.len() - i,
    {
        if is_nan(score_bits[i]) {
            return Err(RankError::NotComparable { index: i });
        }
        keys.push(order_key_of(score_bits[i]));
        i = i + 1;
    }
    let out = select_top(&keys, limit);
    assert(int_keys(keys@) =~= keys_of(score_bits@));
    let ghost ks = keys_of(score_bits@);
    assert forall|p: int, q: int| 0 <= p < q < out.len() implies order_key(
        score_bits@[out@[p] as int],
    ) >= order_key(score_bits@[out@[q] as int]) by {
        assert(precedes(ks, out@[p] as int, out@[q] as int));
    }
    Ok(out)
}

} // verus!
