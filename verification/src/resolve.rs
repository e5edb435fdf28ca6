//! Intersection-acceptance and nearest-hit policies.

use vstd::prelude::*;

verus! {

/// Whether a candidate root lies in the distance window `[min, max]`.
///
/// Both bounds are tested with strict comparisons on the reject side, so a
/// root exactly equal to either bound is accepted.
pub open spec fn in_window(root: u64, min: u64, max: u64) -> bool {
    !(root < min || max < root)
}

/// The root-acceptance policy of the sphere intersection test, over ordered
/// distance keys.
pub fn select_root(
    discriminant_nonnegative: bool,
    near_root: u64,
    min_distance: u64,
    max_distance: u64,
) -> (r: Option<u64>)
    ensures
        r == if discriminant_nonnegative && in_window(near_root, min_distance, max_distance) {
            Some(near_root)
        } else {
            None::<u64>
        },
{
    if discriminant_nonnegative {
        if near_root < min_distance || max_distance < near_root {
            None
        } else {
            Some(near_root)
        }
    } else {
        None
    }
}

/// Nearest-hit resolution across the scene, over ordered distance keys.
///
/// `candidates` holds, primitive by primitive in scene order, either the
/// accepted intersection distance of that primitive or `None` when the ray
/// misses it.  The result is the position of the primitive whose distance is
/// smallest; a later primitive replaces the running best only when its
/// distance is strictly smaller, so among equal distances the first one in
/// scene order wins.
pub fn nearest_hit(candidates: &Vec<Option<u64>>) -> (r: Option<usize>)
    ensures
        r is None <==> (forall|j: int| 0 <= j < candidates@.len() ==> candidates@[j] is None),
        r matches Some(i) ==> {
            &&& 0 <= i < candidates@.len()
            &&& candidates@[i as int] is Some
            &&& forall|j: int|
                0 <= j < candidates@.len() && candidates@[j] is Some
                    ==> candidates@[i as int]->0 <= candidates@[j]->0
            &&& forall|j: int|
                0 <= j < i && candidates@[j] is Some
                    ==> candidates@[i as int]->0 < candidates@[j]->0
        },
{
    let mut best: Option<usize> = None;
    let mut best_key: u64 = 0;
    let mut i: usize = 0;
    while i < candidates.len()
        invariant
            0 <= i <= candidates@.len(),
            best is None ==> (forall|j: int| 0 <= j < i ==> candidates@[j] is None),
            best matches Some(b) ==> {
                &&& 0 <= b < i
                &&& candidates@[b as int] == Some(best_key)
                &&& forall|j: int|
                    0 <= j < i && candidates@[j] is Some ==> best_key <= candidates@[j]->0
                &&& forall|j: int|
                    0 <= j < b && candidates@[j] is Some ==> best_key < candidates@[j]->0
            },
        decreases candidates@.len() - i,
    {
        match candidates[i] {
            Some(key) => {
                if best.is_none() || key < best_key {
                    best = Some(i);
                    best_key = key;
                }
            },
            None => {},
        }
        i = i + 1;
    }
    best
}

} // verus!
