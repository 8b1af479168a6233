//! Choosing the nearest of several candidate hits.

use vstd::prelude::*;
use crate::scalar::{Scalar, INFINITY_BITS};

verus! {

/// A candidate counts when it holds a distance below infinity. NaN and
/// infinity itself never count.
pub open spec fn counts(hit: Option<Scalar>) -> bool {
    hit matches Some(t) && t.lt_spec(Scalar { bits: INFINITY_BITS })
}

/// Among the first `n` candidates, `i` is the first of those with the least
/// distance: no candidate is nearer, and every earlier one is farther.
pub open spec fn nearest_among(hits: Seq<Option<Scalar>>, n: int, i: int) -> bool {
    &&& 0 <= i < n <= hits.len()
    &&& counts(hits[i])
    &&& forall|j: int|
        0 <= j < n && counts(#[trigger] hits[j]) ==> hits[i].unwrap().rank() <= hits[j].unwrap().rank()
    &&& forall|j: int|
        0 <= j < i && counts(#[trigger] hits[j]) ==> hits[i].unwrap().rank() < hits[j].unwrap().rank()
}

/// None of the first `n` candidates counts.
pub open spec fn none_among(hits: Seq<Option<Scalar>>, n: int) -> bool {
    forall|j: int| 0 <= j < n ==> !counts(#[trigger] hits[j])
}

/// What `nearest` returns: the first candidate of least distance with its
/// index, or nothing where no candidate counts.
pub open spec fn nearest_spec(hits: Seq<Option<Scalar>>, r: Option<(Scalar, usize)>) -> bool {
    match r {
        Some((t, i)) => nearest_among(hits, hits.len() as int, i as int) && hits[i as int] == Some(t),
        None => none_among(hits, hits.len() as int),
    }
}

/// `r` is the distance of the nearest candidate, or nothing where no
/// candidate counts.
pub open spec fn nearest_distance_spec(hits: Seq<Option<Scalar>>, r: Option<Scalar>) -> bool {
    match r {
        Some(t) => exists|k: usize| nearest_spec(hits, Some((t, k))),
        None => nearest_spec(hits, None),
    }
}

/// The nearest of the candidates, in one pass. Of several candidates at the
/// same distance the first wins.
pub fn nearest(hits: &Vec<Option<Scalar>>) -> (r: Option<(Scalar, usize)>)
    ensures
        nearest_spec(hits@, r),
{
    let mut closest_t = Scalar::infinity();
    let mut closest: Option<usize> = None;
    let mut k: usize = 0;
    while k < hits.len()
        invariant
            k <= hits.len(),
            !closest_t.nan(),
            match closest {
                Some(i) => nearest_among(hits@, k as int, i as int) && hits@[i as int] == Some(
                    closest_t,
                ),
                None => none_among(hits@, k as int) && closest_t.bits == INFINITY_BITS,
            },
        decreases hits.len() - k,
    {
        match hits[k] {
            Some(t) => {
                if t.lt(closest_t) {
                    closest_t = t;
                    closest = Some(k);
                }
            },
            None => {},
        }
        k += 1;
    }
    match closest {
        Some(i) => Some((closest_t, i)),
        None => None,
    }
}

/// At most one index is the nearest, so `nearest_spec` leaves one answer.
pub proof fn lemma_nearest_unique(hits: Seq<Option<Scalar>>, n: int, i: int, k: int)
    requires
        nearest_among(hits, n, i),
        nearest_among(hits, n, k),
    ensures
        i == k,
{
    if i < k {
        assert(counts(hits[i]));
    } else if k < i {
        assert(counts(hits[k]));
    }
}

/// `nearest_spec` leaves one answer.
pub proof fn lemma_nearest_pins(
    hits: Seq<Option<Scalar>>,
    r1: Option<(Scalar, usize)>,
    r2: Option<(Scalar, usize)>,
)
    requires
        nearest_spec(hits, r1),
        nearest_spec(hits, r2),
    ensures
        r1 == r2,
{
    if r1 is Some {
        let i = r1.unwrap().1 as int;
        assert(counts(hits[i]));
        if r2 is Some {
            lemma_nearest_unique(hits, hits.len() as int, i, r2.unwrap().1 as int);
        }
    } else if r2 is Some {
        let k = r2.unwrap().1 as int;
        assert(counts(hits[k]));
    }
}

/// `nearest_distance_spec` leaves one answer.
pub proof fn lemma_nearest_distance_pins(
    hits: Seq<Option<Scalar>>,
    r1: Option<Scalar>,
    r2: Option<Scalar>,
)
    requires
        nearest_distance_spec(hits, r1),
        nearest_distance_spec(hits, r2),
    ensures
        r1 == r2,
{
    let first: Option<(Scalar, usize)> = match r1 {
        Some(t) => Some((t, choose|k: usize| nearest_spec(hits, Some((t, k))))),
        None => None,
    };
    let second: Option<(Scalar, usize)> = match r2 {
        Some(t) => Some((t, choose|k: usize| nearest_spec(hits, Some((t, k))))),
        None => None,
    };
    lemma_nearest_pins(hits, first, second);
}

/// Where some candidate counts, `nearest_spec` does not allow `None`; where
/// none does, it allows nothing else.
pub proof fn lemma_nearest_found(hits: Seq<Option<Scalar>>, r: Option<(Scalar, usize)>, j: int)
    requires
        nearest_spec(hits, r),
        0 <= j < hits.len(),
    ensures
        counts(hits[j]) ==> r is Some,
        r is Some ==> r.unwrap().0.lt_spec(Scalar { bits: INFINITY_BITS }),
        r is Some && counts(hits[j]) ==> !hits[j].unwrap().lt_spec(r.unwrap().0),
{
    if r is Some {
        let i = r.unwrap().1 as int;
        assert(counts(hits[i]));
    }
}

} // verus!
