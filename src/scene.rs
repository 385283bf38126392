//! A scene: an unordered collection of entities, and resolution of the hit
//! nearest to a ray's origin among them.
//!
//! Intersection tests themselves run outside this module; each one reports the
//! distance of its hit along the ray as an order key (a smaller key is a nearer
//! hit), or `None` for a miss.
use vstd::prelude::*;

verus! {

broadcast use vstd::seq_lib::group_to_multiset_ensures;

/// The entities of a scene, each paired with the outcome of its hit test.
pub open spec fn tagged<E>(entities: Seq<E>, hits: Seq<Option<u32>>) -> Seq<(E, Option<u32>)> {
    Seq::new(entities.len(), |k: int| (entities[k], hits[k]))
}

/// Entity `i` was hit, and no hit lies nearer than its own.
pub open spec fn is_nearest(hits: Seq<Option<u32>>, i: int) -> bool {
    &&& 0 <= i < hits.len()
    &&& hits[i] is Some
    &&& forall|j: int|
        0 <= j < hits.len() && #[trigger] hits[j] is Some ==> hits[i]->0 <= hits[j]->0
}

/// No two hits lie at the same distance.
pub open spec fn distinct_hits(hits: Seq<Option<u32>>) -> bool {
    forall|i: int, j: int|
        0 <= i < hits.len() && 0 <= j < hits.len() && i != j && #[trigger] hits[i] is Some
            ==> hits[i] != #[trigger] hits[j]
}

pub struct Scene<E> {
    entities: Vec<E>,
}

impl<E> View for Scene<E> {
    type V = Seq<E>;

    closed spec fn view(&self) -> Seq<E> {
        self.entities@
    }
}

impl<E> Scene<E> {
    /// A scene with no entity.
    pub fn _new() -> (r: Self)
        ensures
            r@ == Seq::<E>::empty(),
    {
        Scene { entities: Vec::new() }
    }

    /// A scene that holds the entities of `list`.
    pub fn from_list(list: Vec<E>) -> (r: Self)
        ensures
            r@ == list@,
    {
        Scene { entities: list }
    }

    /// The entities, in the order in which they were given.
    pub fn entities(&self) -> (r: &Vec<E>)
        ensures
            r@ == self@,
    {
        &self.entities
    }

    /// Index of the entity whose hit is nearest, given the outcome `hits[k]`
    /// of the hit test of entity `k`; `None` when the ray hits nothing. Of
    /// hits at the same distance the first one wins.
    pub fn ray_cast(&self, hits: &Vec<Option<u32>>) -> (r: Option<usize>)
        requires
            hits@.len() == self@.len(),
        ensures
            r is None <==> forall|j: int| 0 <= j < hits@.len() ==> #[trigger] hits@[j] is None,
            r matches Some(i) ==> is_nearest(hits@, i as int),
            r matches Some(i) ==> forall|j: int| 0 <= j < i ==> #[trigger] hits@[j] != hits@[i as int],
    {
        let mut nearest: Option<usize> = None;
        let mut k: usize = 0;
        while k < hits.len()
            invariant
                k <= hits@.len(),
                nearest is None <==> forall|j: int| 0 <= j < k ==> #[trigger] hits@[j] is None,
                nearest matches Some(i) ==> {
                    &&& i < k
                    &&& hits@[i as int] is Some
                    &&& forall|j: int|
                        0 <= j < k && #[trigger] hits@[j] is Some ==> hits@[i as int]->0
                            <= hits@[j]->0
                    &&& forall|j: int| 0 <= j < i ==> #[trigger] hits@[j] != hits@[i as int]
                },
            decreases hits@.len() - k,
        {
            if let Some(t) = hits[k] {
                match nearest {
                    Some(i) => {
                        if let Some(near) = hits[i] {
                            if t < near {
                                nearest = Some(k);
                            }
                        }
                    },
                    None => {
                        nearest = Some(k);
                    },
                }
            }
            k = k + 1;
        }
        nearest
    }
}

/// Nearest-hit resolution does not depend on the order in which entities were
/// inserted: where two scenes hold the same entities, each with the same hit,
/// in any order, what `ray_cast` finds in each lies at the same distance, and,
/// where no two hits lie at the same distance, it is the same entity.
pub proof fn lemma_ray_cast_order_independent<E>(
    s1: Seq<E>,
    h1: Seq<Option<u32>>,
    i1: int,
    s2: Seq<E>,
    h2: Seq<Option<u32>>,
    i2: int,
)
    requires
        s1.len() == h1.len(),
        s2.len() == h2.len(),
        tagged(s1, h1).to_multiset() == tagged(s2, h2).to_multiset(),
        is_nearest(h1, i1),
        is_nearest(h2, i2),
    ensures
        h1[i1] == h2[i2],
        distinct_hits(h1) ==> s1[i1] == s2[i2],
{
    let t1 = tagged(s1, h1);
    let t2 = tagged(s2, h2);
    assert(t1[i1] == (s1[i1], h1[i1]));
    assert(t1.contains(t1[i1]));
    assert(t1.to_multiset().count(t1[i1]) > 0);
    assert(t2.contains(t1[i1]));
    let j2 = choose|j: int| 0 <= j < t2.len() && t2[j] == t1[i1];
    assert(h2[j2] == h1[i1]);
    assert(t2[i2] == (s2[i2], h2[i2]));
    assert(t2.contains(t2[i2]));
    assert(t2.to_multiset().count(t2[i2]) > 0);
    assert(t1.contains(t2[i2]));
    let j1 = choose|j: int| 0 <= j < t1.len() && t1[j] == t2[i2];
    assert(h1[j1] == h2[i2]);
    assert(h1[i1]->0 <= h1[j1]->0);
    assert(h2[i2]->0 <= h2[j2]->0);
    if distinct_hits(h1) {
        if j1 != i1 {
            assert(h1[i1] != h1[j1]);
        }
    }
}

} // verus!
