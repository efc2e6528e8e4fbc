//! The meeting of a ray with a surface.
use crate::scalar::Key;
use vstd::prelude::*;

verus! {

/// Where a ray met a surface.
#[derive(Clone, Copy, Debug)]
pub struct HitRecord<S> {
    /// Key of the ray parameter at which the two meet.
    pub t: Key,
    /// What the object tells of its surface at that point.
    pub surface: S,
}

/// Anything a ray can hit.
///
/// An answer of [`Hittable::hit`] depends on the object, the ray and the two
/// bounds alone; [`Hittable::hit_spec`] is the name of that answer. Code that
/// is compiled without the verifier has to give `hit_spec` a body as well; it
/// is never run.
pub trait Hittable {
    /// The rays that the object can be asked about.
    type Ray;

    /// What the object tells of its surface where a ray meets it.
    type Surface;

    /// The answer of [`Hittable::hit`].
    spec fn hit_spec(&self, r: &Self::Ray, t_min: Key, t_max: Key) -> Option<
        HitRecord<Self::Surface>,
    >;

    /// Looks for a point where `r` meets the object, at a ray parameter
    /// strictly between `t_min` and `t_max`.
    fn hit(&self, r: &Self::Ray, t_min: Key, t_max: Key) -> (rec: Option<HitRecord<Self::Surface>>)
        ensures
            rec == self.hit_spec(r, t_min, t_max),
            rec matches Some(h) ==> t_min < h.t < t_max,
    ;
}

/// The ray parameter of an answer, if there is one.
pub open spec fn parameter<S>(rec: Option<HitRecord<S>>) -> Option<int> {
    match rec {
        Some(h) => Some(h.t as int),
        None => None,
    }
}

/// Whether `found` is the smallest of `crossings` strictly between `t_min` and
/// `t_max`, or `None` where no crossing lies there.
pub open spec fn nearest_within(crossings: Set<int>, t_min: int, t_max: int, found: Option<int>) -> bool {
    match found {
        Some(t) => {
            &&& crossings.contains(t)
            &&& t_min < t < t_max
            &&& forall|u: int| crossings.contains(u) && t_min < u < t_max ==> t <= u
        },
        None => forall|u: int| crossings.contains(u) ==> !(t_min < u < t_max),
    }
}

/// Whether `obj`, asked about `r` with the lower bound `t_min` and any upper
/// bound, answers with the nearest of `crossings` that lies between the bounds.
pub open spec fn reports_nearest<H: Hittable>(obj: &H, r: &H::Ray, t_min: Key, crossings: Set<int>) -> bool {
    forall|t_max: Key|
        nearest_within(
            crossings,
            t_min as int,
            t_max as int,
            parameter(#[trigger] obj.hit_spec(r, t_min, t_max)),
        )
}

} // verus!
