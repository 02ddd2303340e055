use vstd::prelude::*;

verus! {

/// Sign bit of an IEEE-754 single-precision bit pattern.
pub const SIGN_BIT: u32 = 0x8000_0000;

/// Bit pattern of positive infinity: the largest magnitude that is not a NaN.
pub const INFINITY_BITS: u32 = 0x7f80_0000;

/// A score is carried as the bit pattern of an IEEE-754 single. It is a NaN
/// when its magnitude bits exceed those of infinity.
pub open spec fn is_nan_bits(bits: u32) -> bool {
    bits as int % SIGN_BIT as int > INFINITY_BITS as int
}

/// Position of a non-NaN single on the number line: the magnitude bits,
/// negated when the sign bit is set. Two non-NaN singles compare as floats
/// exactly as their ranks compare as integers; both zeros rank 0.
pub open spec fn rank(bits: u32) -> int {
    if bits < SIGN_BIT {
        bits as int
    } else {
        SIGN_BIT as int - bits as int
    }
}

/// `i` indexes the first occurrence of the largest non-NaN score.
pub open spec fn is_first_max(scores: Seq<u32>, i: int) -> bool {
    &&& 0 <= i < scores.len()
    &&& !is_nan_bits(scores[i])
    &&& forall|j: int|
        0 <= j < scores.len() && !is_nan_bits(#[trigger] scores[j]) ==> rank(scores[j]) <= rank(
            scores[i],
        )
    &&& forall|j: int| 0 <= j < i && !is_nan_bits(#[trigger] scores[j]) ==> rank(scores[j]) < rank(scores[i])
}

/// Every score is a NaN (vacuously so for no scores).
pub open spec fn all_nan(scores: Seq<u32>) -> bool {
    forall|j: int| 0 <= j < scores.len() ==> is_nan_bits(#[trigger] scores[j])
}

/// Rank of a score, or `None` for a NaN.
pub fn score_rank(bits: u32) -> (r: Option<i64>)
    ensures
        r.is_none() <==> is_nan_bits(bits),
        r matches Some(k) ==> k == rank(bits),
{
    if bits % SIGN_BIT > INFINITY_BITS {
        None
    } else if bits < SIGN_BIT {
        Some(bits as i64)
    } else {
        Some(SIGN_BIT as i64 - bits as i64)
    }
}

/// Index of the first largest non-NaN score; `None` when every score is a NaN
/// or there are none.
pub fn argmax(scores: &Vec<u32>) -> (r: Option<usize>)
    ensures
        r.is_none() <==> all_nan(scores@),
        r matches Some(i) ==> is_first_max(scores@, i as int),
{
    let mut best: Option<usize> = None;
    let mut best_rank: i64 = 0;
    let mut k: usize = 0;
    while k < scores.len()
        invariant
            k <= scores@.len(),
            best.is_none() <==> all_nan(scores@.subrange(0, k as int)),
            best matches Some(i) ==> is_first_max(scores@.subrange(0, k as int), i as int) && best_rank
                == rank(scores@[i as int]),
        decreases scores@.len() - k,
    {
        let ghost prefix = scores@.subrange(0, k as int);
        let ghost next = scores@.subrange(0, k + 1);
        assert(forall|j: int| 0 <= j < k ==> next[j] == prefix[j]);
        assert(next[k as int] == scores@[k as int]);
        match score_rank(scores[k]) {
            None => {},
            Some(q) => {
                match best {
                    None => {
                        best = Some(k);
                        best_rank = q;
                    },
                    Some(_) => {
                        if q > best_rank {
                            best = Some(k);
                            best_rank = q;
                        }
                    },
                }
            },
        }
        k = k + 1;
    }
    assert(scores@.subrange(0, k as int) =~= scores@);
    best
}

/// The arg-max is an index into the scores, and where one score exceeds all
/// other non-NaN scores, it is that score's index.
pub proof fn lemma_argmax_unique_max(scores: Seq<u32>, i: int, k: int)
    requires
        is_first_max(scores, k),
        0 <= i < scores.len(),
        !is_nan_bits(scores[i]),
        forall|j: int|
            0 <= j < scores.len() && j != i && !is_nan_bits(#[trigger] scores[j]) ==> rank(scores[j])
                < rank(scores[i]),
    ensures
        0 <= k < scores.len(),
        k == i,
{
}

/// At most one index is the first maximum, so the arg-max is determined by
/// the scores.
pub proof fn lemma_first_max_unique(scores: Seq<u32>, i: int, k: int)
    requires
        is_first_max(scores, i),
        is_first_max(scores, k),
    ensures
        i == k,
{
    if i < k {
        assert(rank(scores[i]) < rank(scores[k]));
    } else if k < i {
        assert(rank(scores[k]) < rank(scores[i]));
    }
}

} // verus!
