//! Nearest-hit selection over a scene's primitives. Each primitive reports
//! either no hit or the distance of its hit as an order key; the scene keeps
//! the hit with the smallest key, the earliest one among equals.
use vstd::prelude::*;

verus! {

/// `keys[i]` is a hit whose key is no larger than any other hit's.
pub open spec fn is_min_hit(keys: Seq<Option<u32>>, i: int) -> bool {
    &&& 0 <= i < keys.len()
    &&& keys[i] is Some
    &&& forall|j: int|
        0 <= j < keys.len() && (#[trigger] keys[j]) is Some ==> keys[i]->0 <= keys[j]->0
}

/// `keys[i]` is the first hit whose key is the smallest.
pub open spec fn is_nearest(keys: Seq<Option<u32>>, i: int) -> bool {
    &&& is_min_hit(keys, i)
    &&& forall|j: int| 0 <= j < i && (#[trigger] keys[j]) is Some ==> keys[i]->0 < keys[j]->0
}

/// At least one primitive reports a hit.
pub open spec fn any_hit(keys: Seq<Option<u32>>) -> bool {
    exists|j: int| 0 <= j < keys.len() && (#[trigger] keys[j]) is Some
}

/// The index of the nearest hit, or `None` when no primitive was hit. Every
/// primitive is queried with the same interval, so the scan only compares keys.
pub fn nearest_hit(keys: &Vec<Option<u32>>) -> (r: Option<usize>)
    ensures
        r is None <==> !any_hit(keys@),
        r matches Some(i) ==> is_nearest(keys@, i as int),
{
    let mut best: Option<usize> = None;
    let mut best_key: u32 = 0;
    let mut k: usize = 0;
    while k < keys.len()
        invariant
            k <= keys.len(),
            best is None ==> forall|j: int| 0 <= j < k ==> (#[trigger] keys@[j]) is None,
            best matches Some(i) ==> {
                &&& i < k
                &&& keys@[i as int] == Some(best_key)
                &&& forall|j: int|
                    0 <= j < k && (#[trigger] keys@[j]) is Some ==> best_key <= keys@[j]->0
                &&& forall|j: int|
                    0 <= j < i && (#[trigger] keys@[j]) is Some ==> best_key < keys@[j]->0
            },
        decreases keys.len() - k,
    {
        if let Some(key) = keys[k] {
            match best {
                None => {
                    best = Some(k);
                    best_key = key;
                },
                Some(_) => {
                    if key < best_key {
                        best = Some(k);
                        best_key = key;
                    }
                },
            }
        }
        k += 1;
    }
    proof {
        if best is None && any_hit(keys@) {
            let j = choose|j: int| 0 <= j < keys@.len() && (#[trigger] keys@[j]) is Some;
            assert(keys@[j] is None);
        }
    }
    best
}

/// The order in which a scene holds its primitives does not change the
/// distance of the hit it reports: two orderings of the same hits give nearest
/// hits with the same key.
pub proof fn lemma_nearest_order_free(
    keys: Seq<Option<u32>>,
    other: Seq<Option<u32>>,
    i: int,
    j: int,
)
    requires
        keys.to_multiset() =~= other.to_multiset(),
        is_nearest(keys, i),
        is_nearest(other, j),
    ensures
        keys[i] == other[j],
{
    broadcast use vstd::seq_lib::group_to_multiset_ensures;
    assert(keys.contains(keys[i]));
    assert(keys.to_multiset().count(keys[i]) > 0);
    assert(other.to_multiset().count(keys[i]) > 0);
    assert(other.contains(other[j]));
    assert(other.to_multiset().count(other[j]) > 0);
    assert(keys.to_multiset().count(other[j]) > 0);
    let a = choose|a: int| 0 <= a < other.len() && other[a] == keys[i];
    let b = choose|b: int| 0 <= b < keys.len() && keys[b] == other[j];
    assert(other[j]->0 <= other[a]->0);
    assert(keys[i]->0 <= keys[b]->0);
}

} // verus!
