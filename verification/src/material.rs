//! The materials of the surfaces, and what a surface does with the light
//! that reaches it.
//!
//! A material is plain data: the parameters of one of three kinds of
//! surface. The library keeps the parameters in their ranges; the directions
//! in which a material sends a ray on are the caller's to calculate.
use crate::scalar::{clamp, clamp_spec, Key, ONE, ZERO};
use vstd::prelude::*;

verus! {

/// A diffuse surface, which scatters light into every direction.
#[derive(Clone, Copy, Debug)]
pub struct Lambertian<C> {
    /// The share of the light that the surface sends on, channel by channel.
    pub albedo: C,
}

impl<C> Lambertian<C> {
    /// A diffuse surface of the colour `albedo`.
    pub fn new(albedo: C) -> (material: Self)
        ensures
            material.albedo == albedo,
    {
        Lambertian { albedo }
    }
}

/// A metal, which mirrors light, the less sharply the larger its fuzz.
#[derive(Clone, Copy, Debug)]
pub struct Metal<C> {
    /// The share of the light that the surface sends on, channel by channel.
    pub albedo: C,
    /// The key of the fuzz, a scalar from zero to one.
    pub fuzz: Key,
}

impl<C> Metal<C> {
    /// Whether the fuzz lies in its range, from zero to one.
    pub open spec fn wf(self) -> bool {
        ZERO <= self.fuzz <= ONE
    }

    /// A metal of the colour `albedo`, with the fuzz `fuz` brought into its
    /// range: a fuzz below zero becomes zero, a fuzz above one becomes one.
    pub fn new(albedo: C, fuz: Key) -> (material: Self)
        ensures
            material.albedo == albedo,
            material.fuzz == clamp_spec(fuz as int, ZERO as int, ONE as int),
            material.wf(),
            ZERO <= fuz <= ONE ==> material.fuzz == fuz,
    {
        Metal { albedo, fuzz: clamp(fuz, ZERO, ONE) }
    }
}

/// Glass, which bends light or mirrors it.
#[derive(Clone, Copy, Debug)]
pub struct Glass {
    /// The key of the index of refraction.
    pub ir: Key,
}

impl Glass {
    /// Glass with the index of refraction `ir`.
    pub fn new(ir: Key) -> (material: Self)
        ensures
            material.ir == ir,
    {
        Glass { ir }
    }
}

/// The material of a surface: one of the three kinds, with its parameters.
#[derive(Clone, Copy, Debug)]
pub enum Material<C> {
    /// A diffuse surface.
    Lambertian(Lambertian<C>),
    /// A metal.
    Metal(Metal<C>),
    /// Glass.
    Glass(Glass),
}

/// A surface that scatters or absorbs the rays that reach it.
///
/// A surface may decide by chance. Every random number that it uses is drawn
/// from the generator that it is handed, so what it does depends on the
/// surface, the incoming ray and the state of that generator alone;
/// [`Scatterable::scatter_spec`] is the name of it. Code that is compiled
/// without the verifier has to give `scatter_spec` a body as well; it is never
/// run.
pub trait Scatterable {
    /// The rays that reach the surface and leave it.
    type Ray;

    /// The colours by which the surface weakens light.
    type Color;

    /// The generator of the random numbers that the surface draws.
    type Rng;

    /// The answer of [`Scatterable::scatter`], and the generator as the call
    /// leaves it.
    spec fn scatter_spec(&self, r_in: &Self::Ray, rng: Self::Rng) -> (
        Option<(Self::Color, Self::Ray)>,
        Self::Rng,
    );

    /// The attenuation and the outgoing ray for the incoming ray `r_in`, or
    /// `None` where the surface absorbs the ray.
    fn scatter(&self, r_in: &Self::Ray, rng: &mut Self::Rng) -> (res: Option<
        (Self::Color, Self::Ray),
    >)
        ensures
            res == self.scatter_spec(r_in, *old(rng)).0,
            *final(rng) == self.scatter_spec(r_in, *old(rng)).1,
    ;
}

} // verus!
