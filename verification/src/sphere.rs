//! The choice that a sphere makes between its two crossings.
//!
//! A ray's line that meets a sphere crosses it twice, at a nearer and a
//! farther ray parameter (the two fall together where the line touches the
//! sphere). Which of the two counts as the hit depends on the bounds of the
//! search.
use crate::hittable::nearest_within;
use crate::scalar::{strictly_between, widened, Key};
use vstd::prelude::*;

verus! {

/// What [`choose_root`] returns.
pub open spec fn choose_root_spec(near: Key, far: Key, t_min: Key, t_max: Key) -> Option<Key> {
    if strictly_between(near, t_min, t_max) {
        Some(near)
    } else if strictly_between(far, t_min, t_max) {
        Some(far)
    } else {
        None
    }
}

/// The two crossings as a set.
pub open spec fn crossings_of(near: int, far: int) -> Set<int> {
    Set::new(|t: int| t == near || t == far)
}

/// Chooses the crossing that counts as the hit: `near` where it lies strictly
/// between `t_min` and `t_max`, else `far` where that one does, else none.
///
/// With `near <= far` this is the nearest crossing between the bounds.
pub fn choose_root(near: Key, far: Key, t_min: Key, t_max: Key) -> (root: Option<Key>)
    ensures
        root == choose_root_spec(near, far, t_min, t_max),
        near <= far ==> nearest_within(
            crossings_of(near as int, far as int),
            t_min as int,
            t_max as int,
            widened(root),
        ),
{
    if t_min < near && near < t_max {
        Some(near)
    } else if t_min < far && far < t_max {
        Some(far)
    } else {
        None
    }
}

} // verus!
