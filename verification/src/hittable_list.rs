//! A scene: a list of objects that is hit where its nearest object is hit.
use crate::hittable::{nearest_within, parameter, reports_nearest, HitRecord, Hittable};
use crate::scalar::Key;
use vstd::prelude::*;

verus! {

/// A list of objects, itself an object that a ray can hit.
#[derive(Clone, Debug)]
pub struct HittableList<H> {
    /// The members, in the order in which they are asked.
    pub objects: Vec<H>,
}

/// The upper bound that is left once `best` has been found: the parameter of
/// `best`, or `t_max` while nothing has been found.
pub open spec fn limit_after<S>(best: Option<HitRecord<S>>, t_max: Key) -> Key {
    match best {
        Some(h) => h.t,
        None => t_max,
    }
}

/// The answer of a list of objects.
///
/// The objects are asked in turn. Each one is asked for a hit below the
/// nearest hit found so far, and the last object that answers with a hit gives
/// the answer of the list.
pub open spec fn closest_of<H: Hittable>(objects: Seq<H>, r: &H::Ray, t_min: Key, t_max: Key) -> Option<
    HitRecord<H::Surface>,
>
    decreases objects.len(),
{
    if objects.len() == 0 {
        None
    } else {
        let before = closest_of(objects.drop_last(), r, t_min, t_max);
        match objects.last().hit_spec(r, t_min, limit_after(before, t_max)) {
            Some(h) => Some(h),
            None => before,
        }
    }
}

impl<H: Hittable> Hittable for HittableList<H> {
    type Ray = H::Ray;

    type Surface = H::Surface;

    open spec fn hit_spec(&self, r: &H::Ray, t_min: Key, t_max: Key) -> Option<HitRecord<H::Surface>> {
        closest_of(self.objects@, r, t_min, t_max)
    }

    /// Asks every member in turn, each for a hit nearer than the nearest one
    /// found so far, and returns the last hit that a member reported.
    fn hit(&self, r: &H::Ray, t_min: Key, t_max: Key) -> (rec: Option<HitRecord<H::Surface>>)
        ensures
            rec == closest_of(self.objects@, r, t_min, t_max),
            rec matches Some(h) ==> t_min < h.t < t_max,
            self.objects@.len() == 0 ==> rec is None,
    {
        let mut best: Option<HitRecord<H::Surface>> = None;
        let mut closest_so_far: Key = t_max;
        let mut i: usize = 0;
        while i < self.objects.len()
            invariant
                i <= self.objects.len(),
                best == closest_of(self.objects@.take(i as int), r, t_min, t_max),
                closest_so_far == limit_after(best, t_max),
                best matches Some(h) ==> t_min < h.t < t_max,
            decreases self.objects.len() - i,
        {
            assert(self.objects@.take(i + 1).drop_last() =~= self.objects@.take(i as int));
            if let Some(h) = self.objects[i].hit(r, t_min, closest_so_far) {
                closest_so_far = h.t;
                best = Some(h);
            }
            i += 1;
        }
        assert(self.objects@.take(i as int) =~= self.objects@);
        best
    }
}

/// The crossings of all members taken together.
pub open spec fn union_all(crossings: Seq<Set<int>>) -> Set<int> {
    Set::new(|t: int| exists|k: int| 0 <= k < crossings.len() && #[trigger] crossings[k].contains(t))
}

/// Whether every one of `objects` reports the nearest of its own crossings,
/// those of the object at `k` being `crossings[k]`.
pub open spec fn each_reports_nearest<H: Hittable>(
    objects: Seq<H>,
    r: &H::Ray,
    t_min: Key,
    crossings: Seq<Set<int>>,
) -> bool {
    &&& crossings.len() == objects.len()
    &&& forall|k: int|
        0 <= k < objects.len() ==> #[trigger] reports_nearest(&objects[k], r, t_min, crossings[k])
}

proof fn lemma_closest_is_nearest<H: Hittable>(
    objects: Seq<H>,
    r: &H::Ray,
    t_min: Key,
    t_max: Key,
    crossings: Seq<Set<int>>,
)
    requires
        each_reports_nearest(objects, r, t_min, crossings),
    ensures
        nearest_within(
            union_all(crossings),
            t_min as int,
            t_max as int,
            parameter(closest_of(objects, r, t_min, t_max)),
        ),
    decreases objects.len(),
{
    let all = union_all(crossings);
    if objects.len() > 0 {
        let n = objects.len() - 1;
        let head = objects.drop_last();
        let head_crossings = crossings.drop_last();
        assert forall|k: int| 0 <= k < head.len() implies #[trigger] reports_nearest(
            &head[k],
            r,
            t_min,
            head_crossings[k],
        ) by {
            assert(reports_nearest(&objects[k], r, t_min, crossings[k]));
        }
        lemma_closest_is_nearest(head, r, t_min, t_max, head_crossings);
        let before = closest_of(head, r, t_min, t_max);
        let limit = limit_after(before, t_max);
        let last = objects.last().hit_spec(r, t_min, limit);
        assert(reports_nearest(&objects[n], r, t_min, crossings[n]));
        assert(nearest_within(crossings[n], t_min as int, limit as int, parameter(last)));
        // A crossing of the list is one of the last member or one of the others.
        assert forall|u: int| all.contains(u) implies crossings[n].contains(u) || union_all(
            head_crossings,
        ).contains(u) by {
            let k = choose|k: int| 0 <= k < crossings.len() && #[trigger] crossings[k].contains(u);
            if k < n {
                assert(head_crossings[k].contains(u));
            }
        }
        assert forall|u: int| union_all(head_crossings).contains(u) implies all.contains(u) by {
            let k = choose|k: int|
                0 <= k < head_crossings.len() && #[trigger] head_crossings[k].contains(u);
            assert(crossings[k].contains(u));
        }
        assert forall|u: int| crossings[n].contains(u) implies all.contains(u) by {
            assert(crossings[n].contains(u));
        }
    }
}

/// A list reports the nearest crossing of all its members, provided that each
/// member reports the nearest of its own: with `crossings[k]` the parameters
/// at which `r` meets the member at `k`, the list answers any pair of bounds
/// with the smallest of all these parameters that lies strictly between them,
/// and with `None` exactly where none lies there.
pub proof fn lemma_list_reports_nearest<H: Hittable>(
    list: &HittableList<H>,
    r: &H::Ray,
    t_min: Key,
    crossings: Seq<Set<int>>,
)
    requires
        each_reports_nearest(list.objects@, r, t_min, crossings),
    ensures
        reports_nearest(list, r, t_min, union_all(crossings)),
{
    assert forall|t_max: Key|
        nearest_within(
            union_all(crossings),
            t_min as int,
            t_max as int,
            parameter(#[trigger] list.hit_spec(r, t_min, t_max)),
        ) by {
        lemma_closest_is_nearest(list.objects@, r, t_min, t_max, crossings);
    }
}

/// Between two bounds there is one nearest crossing at most: two answers that
/// are both the nearest of the same crossings are the same answer.
pub proof fn lemma_nearest_is_unique(
    crossings: Set<int>,
    t_min: int,
    t_max: int,
    a: Option<int>,
    b: Option<int>,
)
    requires
        nearest_within(crossings, t_min, t_max, a),
        nearest_within(crossings, t_min, t_max, b),
    ensures
        a == b,
{
}

/// The crossings of each of `objects`, where `crossings_of` gives those of one
/// object.
pub open spec fn crossings_each<H>(objects: Seq<H>, crossings_of: spec_fn(H) -> Set<int>) -> Seq<
    Set<int>,
> {
    Seq::new(objects.len(), |k: int| crossings_of(objects[k]))
}

/// The order of the members does not change where a list is hit. Take two
/// lists that hold the same members, in whatever order and however often, each
/// member reporting the nearest of its own crossings: for any pair of bounds
/// the two lists answer with the same ray parameter, or both with none.
pub proof fn lemma_order_is_immaterial<H: Hittable>(
    a: &HittableList<H>,
    b: &HittableList<H>,
    r: &H::Ray,
    t_min: Key,
    t_max: Key,
    crossings_of: spec_fn(H) -> Set<int>,
)
    requires
        forall|x: H| a.objects@.contains(x) <==> b.objects@.contains(x),
        forall|x: H| a.objects@.contains(x) ==> #[trigger] reports_nearest(&x, r, t_min, crossings_of(x)),
    ensures
        parameter(a.hit_spec(r, t_min, t_max)) == parameter(b.hit_spec(r, t_min, t_max)),
{
    let of_a = crossings_each(a.objects@, crossings_of);
    let of_b = crossings_each(b.objects@, crossings_of);
    assert forall|k: int| 0 <= k < a.objects@.len() implies #[trigger] reports_nearest(
        &a.objects@[k],
        r,
        t_min,
        of_a[k],
    ) by {
        assert(a.objects@.contains(a.objects@[k]));
    }
    assert forall|k: int| 0 <= k < b.objects@.len() implies #[trigger] reports_nearest(
        &b.objects@[k],
        r,
        t_min,
        of_b[k],
    ) by {
        assert(b.objects@.contains(b.objects@[k]));
    }
    lemma_closest_is_nearest(a.objects@, r, t_min, t_max, of_a);
    lemma_closest_is_nearest(b.objects@, r, t_min, t_max, of_b);
    assert forall|u: int| union_all(of_a).contains(u) implies union_all(of_b).contains(u) by {
        let k = choose|k: int| 0 <= k < of_a.len() && #[trigger] of_a[k].contains(u);
        assert(a.objects@.contains(a.objects@[k]));
        let j = choose|j: int| 0 <= j < b.objects@.len() && b.objects@[j] == a.objects@[k];
        assert(of_b[j].contains(u));
    }
    assert forall|u: int| union_all(of_b).contains(u) implies union_all(of_a).contains(u) by {
        let k = choose|k: int| 0 <= k < of_b.len() && #[trigger] of_b[k].contains(u);
        assert(b.objects@.contains(b.objects@[k]));
        let j = choose|j: int| 0 <= j < a.objects@.len() && a.objects@[j] == b.objects@[k];
        assert(of_a[j].contains(u));
    }
    assert(union_all(of_a) =~= union_all(of_b));
    lemma_nearest_is_unique(
        union_all(of_a),
        t_min as int,
        t_max as int,
        parameter(a.hit_spec(r, t_min, t_max)),
        parameter(b.hit_spec(r, t_min, t_max)),
    );
}

} // verus!
