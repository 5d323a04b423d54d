use vstd::prelude::*;

verus! {

/// Position `k` holds a hit whose key is no greater than any other hit's key,
/// and strictly less than the key of every hit before it: among equally near
/// hits, the first one seen.
pub open spec fn is_nearest(hits: Seq<Option<i64>>, k: int) -> bool {
    &&& 0 <= k < hits.len()
    &&& hits[k] matches Some(d) && {
        &&& forall|j: int|
            0 <= j < hits.len() ==> match #[trigger] hits[j] {
                Some(e) => d <= e,
                None => true,
            }
        &&& forall|j: int|
            0 <= j < k ==> match #[trigger] hits[j] {
                Some(e) => d < e,
                None => true,
            }
    }
}

/// No position holds a hit.
pub open spec fn no_hit(hits: Seq<Option<i64>>) -> bool {
    forall|j: int| 0 <= j < hits.len() ==> #[trigger] hits[j] is None
}

/// The nearest of the hits of one ray. `hits[t]` is the depth key of the
/// ray's hit on triangle `t`, or `None` where the ray misses it; smaller keys
/// are nearer. A later hit replaces the current one only when strictly nearer.
pub fn nearest_hit(hits: &Vec<Option<i64>>) -> (r: Option<usize>)
    ensures
        match r {
            Some(k) => is_nearest(hits@, k as int),
            None => no_hit(hits@),
        },
{
    let mut closest: Option<usize> = None;
    let mut min: i64 = 0;
    let mut i: usize = 0;
    while i < hits.len()
        invariant
            i <= hits@.len(),
            match closest {
                Some(k) => {
                    &&& k < i
                    &&& hits@[k as int] == Some(min)
                    &&& forall|j: int|
                        0 <= j < i ==> match #[trigger] hits@[j] {
                            Some(e) => min <= e,
                            None => true,
                        }
                    &&& forall|j: int|
                        0 <= j < k ==> match #[trigger] hits@[j] {
                            Some(e) => min < e,
                            None => true,
                        }
                },
                None => forall|j: int| 0 <= j < i ==> #[trigger] hits@[j] is None,
            },
        decreases hits@.len() - i,
    {
        if let Some(d) = hits[i] {
            let closer = match closest {
                Some(_) => d < min,
                None => true,
            };
            if closer {
                min = d;
                closest = Some(i);
            }
        }
        i += 1;
    }
    closest
}

/// The nearest hit of a ray is unique: the same hits always select the same
/// triangle.
pub proof fn lemma_nearest_unique(hits: Seq<Option<i64>>, a: int, b: int)
    requires
        is_nearest(hits, a),
        is_nearest(hits, b),
    ensures
        a == b,
{
    if a < b {
        assert(match hits[a] {
            Some(e) => hits[b]->0 < e,
            None => true,
        });
        assert(match hits[b] {
            Some(e) => hits[a]->0 <= e,
            None => true,
        });
    } else if b < a {
        assert(match hits[b] {
            Some(e) => hits[a]->0 < e,
            None => true,
        });
        assert(match hits[a] {
            Some(e) => hits[b]->0 <= e,
            None => true,
        });
    }
}

} // verus!
