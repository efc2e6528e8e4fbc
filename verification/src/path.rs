//! The path of light that one ray starts: bounce after bounce through the
//! scene, until the ray leaves the scene, a surface absorbs it, or the bounce
//! budget is spent.
//!
//! The library follows the path and records the attenuation of every bounce.
//! The colour of the path is the caller's to calculate: the light with which
//! the path ended, weakened by the attenuations from the last one back to the
//! first.
use crate::hittable::Hittable;
use crate::material::Scatterable;
use crate::scalar::{Key, INFINITY};
use vstd::prelude::*;

verus! {

/// The key of 0.001, the least ray parameter at which a ray can hit. The gap
/// keeps a scattered ray from hitting, by rounding, the surface that it has
/// just left.
pub const T_MIN: Key = 0x3f50_624d_d2f1_a9fc;

/// How a path ended.
#[derive(Clone, Copy, Debug, PartialEq, Eq, Structural)]
pub enum PathEnd {
    /// The bounce budget was spent before the ray came to rest. Such a path
    /// carries no light.
    Exhausted,
    /// A surface absorbed the ray. Such a path carries no light.
    Absorbed,
    /// The ray left the scene. Such a path carries the light of the
    /// background in the direction of its last ray.
    Escaped,
}

/// What a ray found on one leg of its path.
#[derive(Debug)]
pub enum Bounce<C, R> {
    /// The ray met nothing.
    Miss,
    /// The ray met a surface that absorbed it.
    Absorbed,
    /// The ray met a surface that sent it on as the ray `ray`, weakened by
    /// `attenuation`.
    Scattered { attenuation: C, ray: R },
}

/// A path of light, finished or still under way.
#[derive(Debug)]
pub struct LightPath<C, R> {
    /// The attenuations of the bounces taken so far, in the order taken.
    pub attenuations: Vec<C>,
    /// The ray that travels next or, once the path has ended, the ray with
    /// which it ended.
    pub ray: R,
    /// The most bounces that the path may take.
    pub budget: i32,
    /// How the path ended, or `None` while it is under way.
    pub end: Option<PathEnd>,
}

/// A path of light as a mathematical value, field by field what a
/// [`LightPath`] holds.
pub struct PathModel<C, R> {
    /// The attenuations of the bounces taken so far, in the order taken.
    pub attenuations: Seq<C>,
    /// The ray that travels next, or the ray with which the path ended.
    pub ray: R,
    /// The most bounces that the path may take.
    pub budget: int,
    /// How the path ended, or `None` while it is under way.
    pub end: Option<PathEnd>,
}

impl<C, R> PathModel<C, R> {
    /// The path of the ray `r` before its first leg. With a budget of zero or
    /// less it has ended already, exhausted.
    pub open spec fn start(r: R, budget: int) -> Self {
        PathModel {
            attenuations: Seq::empty(),
            ray: r,
            budget,
            end: if budget <= 0 {
                Some(PathEnd::Exhausted)
            } else {
                None
            },
        }
    }

    /// Whether the path has taken as many bounces as its budget allows.
    pub open spec fn spent(self) -> bool {
        self.attenuations.len() >= self.budget
    }

    /// The path after one more leg, on which its ray found `found`.
    pub open spec fn step(self, found: Bounce<C, R>) -> Self {
        if self.end is Some {
            self
        } else {
            match found {
                Bounce::Miss => PathModel { end: Some(PathEnd::Escaped), ..self },
                Bounce::Absorbed => PathModel { end: Some(PathEnd::Absorbed), ..self },
                Bounce::Scattered { attenuation, ray } => {
                    let grown = PathModel {
                        attenuations: self.attenuations.push(attenuation),
                        ray,
                        ..self
                    };
                    if grown.spent() {
                        PathModel { end: Some(PathEnd::Exhausted), ..grown }
                    } else {
                        grown
                    }
                },
            }
        }
    }

    /// A bound on the legs that the path can still take.
    pub open spec fn legs_left(self) -> nat {
        if self.end is Some {
            0
        } else if self.spent() {
            1
        } else {
            (self.budget - self.attenuations.len() + 1) as nat
        }
    }
}

impl<C, R> View for LightPath<C, R> {
    type V = PathModel<C, R>;

    open spec fn view(&self) -> PathModel<C, R> {
        PathModel {
            attenuations: self.attenuations@,
            ray: self.ray,
            budget: self.budget as int,
            end: self.end,
        }
    }
}

impl<C, R> LightPath<C, R> {
    /// The path of the ray `r` before its first leg. With a budget of zero or
    /// less it has ended already, exhausted.
    pub fn start(r: R, budget: i32) -> (path: Self)
        ensures
            path@ == PathModel::<C, R>::start(r, budget as int),
    {
        LightPath {
            attenuations: Vec::new(),
            ray: r,
            budget,
            end: if budget <= 0 {
                Some(PathEnd::Exhausted)
            } else {
                None
            },
        }
    }

    /// Whether the path brings light to the eye. Only a path whose ray left
    /// the scene does: it brings the light of the background, weakened by its
    /// attenuations. A path that was absorbed or exhausted is black, and so is
    /// one that is still under way.
    pub fn is_lit(&self) -> (lit: bool)
        ensures
            lit == (self.end == Some(PathEnd::Escaped)),
    {
        match self.end {
            Some(PathEnd::Escaped) => true,
            _ => false,
        }
    }

    /// The path after one more leg, on which its ray found `found`.
    ///
    /// A miss ends the path as escaped and an absorbing surface ends it as
    /// absorbed, both with the ray that travelled. A scattering surface adds
    /// its attenuation and hands the path the outgoing ray; where that was the
    /// last bounce of the budget, the path ends as exhausted. A path that has
    /// ended stays as it is.
    pub fn step(self, found: Bounce<C, R>) -> (next: Self)
        ensures
            next@ == self@.step(found),
    {
        let mut path = self;
        if path.end.is_some() {
            return path;
        }
        match found {
            Bounce::Miss => {
                path.end = Some(PathEnd::Escaped);
            },
            Bounce::Absorbed => {
                path.end = Some(PathEnd::Absorbed);
            },
            Bounce::Scattered { attenuation, ray } => {
                path.attenuations.push(attenuation);
                path.ray = ray;
                if path.budget <= 0 || path.attenuations.len() >= path.budget as usize {
                    path.end = Some(PathEnd::Exhausted);
                }
            },
        }
        path
    }
}

/// What [`probe`] finds, and the generator as it leaves it: a miss where the
/// scene reports no hit, else what the surface that was hit does with the ray.
pub open spec fn probe_spec<W>(
    world: &W,
    r: &W::Ray,
    t_min: Key,
    t_max: Key,
    rng: <W::Surface as Scatterable>::Rng,
) -> (Bounce<<W::Surface as Scatterable>::Color, W::Ray>, <W::Surface as Scatterable>::Rng) where
    W: Hittable,
    W::Surface: Scatterable<Ray = W::Ray>,
 {
    match world.hit_spec(r, t_min, t_max) {
        None => (Bounce::Miss, rng),
        Some(rec) => {
            let (scattered, rng_after) = rec.surface.scatter_spec(r, rng);
            match scattered {
                None => (Bounce::Absorbed, rng_after),
                Some((attenuation, ray)) => (Bounce::Scattered { attenuation, ray }, rng_after),
            }
        },
    }
}

/// Sends `r` on one leg through `world`: asks the scene for the nearest hit
/// with a parameter strictly between `t_min` and `t_max`, and the surface that
/// was hit for what it does with the ray. The generator is touched only where
/// a surface was hit.
pub fn probe<W>(
    world: &W,
    r: &W::Ray,
    t_min: Key,
    t_max: Key,
    rng: &mut <W::Surface as Scatterable>::Rng,
) -> (found: Bounce<<W::Surface as Scatterable>::Color, W::Ray>) where
    W: Hittable,
    W::Surface: Scatterable<Ray = W::Ray>,

    ensures
        (found, *final(rng)) == probe_spec(world, r, t_min, t_max, *old(rng)),
{
    match world.hit(r, t_min, t_max) {
        None => Bounce::Miss,
        Some(rec) => match rec.surface.scatter(r, rng) {
            None => Bounce::Absorbed,
            Some((attenuation, ray)) => Bounce::Scattered { attenuation, ray },
        },
    }
}

/// The path `path` followed to its end, and the generator as the last leg
/// leaves it.
pub open spec fn follow<W>(
    path: PathModel<<W::Surface as Scatterable>::Color, W::Ray>,
    world: &W,
    t_min: Key,
    t_max: Key,
    rng: <W::Surface as Scatterable>::Rng,
) -> (PathModel<<W::Surface as Scatterable>::Color, W::Ray>, <W::Surface as Scatterable>::Rng) where
    W: Hittable,
    W::Surface: Scatterable<Ray = W::Ray>,

    decreases path.legs_left(),
{
    if path.end is Some {
        (path, rng)
    } else {
        let (found, rng_after) = probe_spec(world, &path.ray, t_min, t_max, rng);
        follow(path.step(found), world, t_min, t_max, rng_after)
    }
}

/// The path of the ray `r` through `world` with at most `depth` bounces, every
/// leg looking for a hit strictly between `t_min` and `t_max`, and the
/// generator as the last leg leaves it. [`trace`] returns this path for the
/// bounds [`T_MIN`] and infinity.
pub open spec fn trace_spec<W>(
    r: W::Ray,
    world: &W,
    depth: i32,
    t_min: Key,
    t_max: Key,
    rng: <W::Surface as Scatterable>::Rng,
) -> (PathModel<<W::Surface as Scatterable>::Color, W::Ray>, <W::Surface as Scatterable>::Rng) where
    W: Hittable,
    W::Surface: Scatterable<Ray = W::Ray>,
 {
    follow(PathModel::start(r, depth as int), world, t_min, t_max, rng)
}

/// What the caller makes of light: the three things that turn a path into a
/// colour.
#[verifier::reject_recursive_types(C)]
#[verifier::reject_recursive_types(R)]
#[verifier::reject_recursive_types(L)]
pub struct Shading<C, R, L> {
    /// No light at all.
    pub black: L,
    /// The light of the background, seen along a ray that left the scene.
    pub background: spec_fn(R) -> L,
    /// The light that an attenuation leaves of a light.
    pub weaken: spec_fn(C, L) -> L,
}

impl<C, R, L> Shading<C, R, L> {
    /// The light with which a path ended: that of the background where its
    /// ray left the scene, else none.
    pub open spec fn light_at_end(self, path: PathModel<C, R>) -> L {
        if path.end == Some(PathEnd::Escaped) {
            (self.background)(path.ray)
        } else {
            self.black
        }
    }

    /// The colour of a path: the light with which it ended, weakened by the
    /// attenuations from the last one back to the first.
    pub open spec fn colour_of(self, path: PathModel<C, R>) -> L {
        path.attenuations.fold_right(self.weaken, self.light_at_end(path))
    }
}

/// The light that reaches the eye along the ray `r`, with `depth` bounces
/// allowed.
///
/// Without a bounce left there is none. Else the ray is sent on one leg. Where
/// it meets nothing, the light is that of the background. Where a surface
/// absorbs it, there is none. Where a surface scatters it, the light is the
/// one that reaches the surface along the outgoing ray, with one bounce less
/// allowed, weakened by the attenuation.
pub open spec fn radiance<W, L>(
    r: W::Ray,
    world: &W,
    depth: int,
    t_min: Key,
    t_max: Key,
    rng: <W::Surface as Scatterable>::Rng,
    shading: Shading<<W::Surface as Scatterable>::Color, W::Ray, L>,
) -> L where W: Hittable, W::Surface: Scatterable<Ray = W::Ray>
    decreases depth,
{
    if depth <= 0 {
        shading.black
    } else {
        let (found, rng_after) = probe_spec(world, &r, t_min, t_max, rng);
        match found {
            Bounce::Miss => (shading.background)(r),
            Bounce::Absorbed => shading.black,
            Bounce::Scattered { attenuation, ray } => (shading.weaken)(
                attenuation,
                radiance(ray, world, depth - 1, t_min, t_max, rng_after, shading),
            ),
        }
    }
}

proof fn lemma_colour_of_followed_path<W, L>(
    path: PathModel<<W::Surface as Scatterable>::Color, W::Ray>,
    world: &W,
    t_min: Key,
    t_max: Key,
    rng: <W::Surface as Scatterable>::Rng,
    shading: Shading<<W::Surface as Scatterable>::Color, W::Ray, L>,
) where W: Hittable, W::Surface: Scatterable<Ray = W::Ray>
    requires
        path.end is None,
        !path.spent(),
    ensures
        shading.colour_of(follow(path, world, t_min, t_max, rng).0) == path.attenuations.fold_right(
            shading.weaken,
            radiance(
                path.ray,
                world,
                path.budget - path.attenuations.len(),
                t_min,
                t_max,
                rng,
                shading,
            ),
        ),
    decreases path.legs_left(),
{
    let (found, rng_after) = probe_spec(world, &path.ray, t_min, t_max, rng);
    let next = path.step(found);
    assert(follow(path, world, t_min, t_max, rng) == follow(next, world, t_min, t_max, rng_after));
    match found {
        Bounce::Scattered { attenuation, ray } => {
            assert(next.attenuations.drop_last() =~= path.attenuations);
            if next.end is None {
                lemma_colour_of_followed_path(next, world, t_min, t_max, rng_after, shading);
            } else {
                assert(follow(next, world, t_min, t_max, rng_after).0 == next);
                assert(radiance(ray, world, 0, t_min, t_max, rng_after, shading) == shading.black);
            }
        },
        _ => {
            assert(follow(next, world, t_min, t_max, rng_after).0 == next);
        },
    }
}

/// The colour of a traced path is the light that reaches the eye along the
/// ray: to follow the path to its end and then to weaken the
/// light at its end by the attenuations, from the last one back to the first,
/// comes to the same as to weaken, bounce by bounce, what each outgoing ray
/// brings. This holds whatever the caller takes for light and for weakening.
pub proof fn lemma_colour_of_trace_is_radiance<W, L>(
    r: W::Ray,
    world: &W,
    depth: i32,
    t_min: Key,
    t_max: Key,
    rng: <W::Surface as Scatterable>::Rng,
    shading: Shading<<W::Surface as Scatterable>::Color, W::Ray, L>,
) where W: Hittable, W::Surface: Scatterable<Ray = W::Ray>
    ensures
        shading.colour_of(trace_spec(r, world, depth, t_min, t_max, rng).0) == radiance(
            r,
            world,
            depth as int,
            t_min,
            t_max,
            rng,
            shading,
        ),
{
    let start = PathModel::<<W::Surface as Scatterable>::Color, W::Ray>::start(r, depth as int);
    if depth > 0 {
        lemma_colour_of_followed_path(start, world, t_min, t_max, rng, shading);
    }
}

/// Without a bounce allowed no light reaches the eye, whatever the ray and
/// the scene.
pub proof fn lemma_no_light_without_bounces<W, L>(
    r: W::Ray,
    world: &W,
    depth: i32,
    t_min: Key,
    t_max: Key,
    rng: <W::Surface as Scatterable>::Rng,
    shading: Shading<<W::Surface as Scatterable>::Color, W::Ray, L>,
) where W: Hittable, W::Surface: Scatterable<Ray = W::Ray>
    requires
        depth <= 0,
    ensures
        shading.colour_of(trace_spec(r, world, depth, t_min, t_max, rng).0) == shading.black,
{
}

/// Follows the ray `r` through `world` for at most `depth` bounces.
///
/// Every leg looks for the nearest hit with a parameter above 0.001
/// ([`T_MIN`]), however far away.
///
/// With a depth of zero or less the path is exhausted before its first leg:
/// it has no attenuation and carries no light, and no random number is drawn.
pub fn trace<W>(
    r: W::Ray,
    world: &W,
    depth: i32,
    rng: &mut <W::Surface as Scatterable>::Rng,
) -> (path: LightPath<<W::Surface as Scatterable>::Color, W::Ray>) where
    W: Hittable,
    W::Surface: Scatterable<Ray = W::Ray>,

    ensures
        (path@, *final(rng)) == trace_spec(r, world, depth, T_MIN, INFINITY, *old(rng)),
        depth <= 0 ==> {
            &&& path.end == Some(PathEnd::Exhausted)
            &&& path.attenuations@.len() == 0
            &&& *final(rng) == *old(rng)
        },
        path.end is Some,
        path.budget == depth,
        path.end == Some(PathEnd::Exhausted) <==> path@.spent(),
        depth > 0 ==> path.attenuations@.len() <= depth,
        path.attenuations@.len() == 0 ==> path.ray == r,
        path.end == Some(PathEnd::Escaped) ==> world.hit_spec(&path.ray, T_MIN, INFINITY) is None,
        path.end == Some(PathEnd::Absorbed) ==> world.hit_spec(&path.ray, T_MIN, INFINITY) is Some,
        depth > 0 && world.hit_spec(&r, T_MIN, INFINITY) is None ==> {
            &&& path.end == Some(PathEnd::Escaped)
            &&& path.attenuations@.len() == 0
            &&& *final(rng) == *old(rng)
        },
{
    let mut path = LightPath::start(r, depth);
    while path.end.is_none()
        invariant
            follow(path@, world, T_MIN, INFINITY, *rng) == trace_spec(
                r,
                world,
                depth,
                T_MIN,
                INFINITY,
                *old(rng),
            ),
            depth <= 0 ==> path.attenuations@.len() == 0 && *rng == *old(rng),
            path.budget == depth,
            path.end is None ==> !path@.spent(),
            path.end == Some(PathEnd::Exhausted) <==> path@.spent(),
            depth > 0 ==> path.attenuations@.len() <= depth,
            path.attenuations@.len() == 0 ==> path.ray == r,
            path.end == Some(PathEnd::Escaped) ==> world.hit_spec(&path.ray, T_MIN, INFINITY) is None,
            path.end == Some(PathEnd::Absorbed) ==> world.hit_spec(&path.ray, T_MIN, INFINITY) is Some,
            depth > 0 && world.hit_spec(&r, T_MIN, INFINITY) is None ==> {
                &&& path.end is None || path.end == Some(PathEnd::Escaped)
                &&& path.attenuations@.len() == 0
                &&& *rng == *old(rng)
            },
        decreases path@.legs_left(),
    {
        let found = probe(world, &path.ray, T_MIN, INFINITY, rng);
        path = path.step(found);
    }
    path
}

} // verus!
