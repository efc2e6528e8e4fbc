use rand::rngs::StdRng;
use rand::{Rng, SeedableRng};
use ray_tracer::hittable::{HitRecord, Hittable};
use ray_tracer::hittable_list::HittableList;
use ray_tracer::material::Scatterable;
use ray_tracer::path::{trace, PathEnd};
use ray_tracer::raster::Raster;
use ray_tracer::raster::clamp_channel;
use ray_tracer::scalar::{bits_of_key, key_of_bits};
use ray_tracer::sphere::choose_root;

// A small tracer around the library: what the library leaves to its caller,
// written out in floating point.

#[derive(Clone, Copy, Debug, PartialEq)]
struct V(f64, f64, f64);

fn plus(a: V, b: V) -> V {
    V(a.0 + b.0, a.1 + b.1, a.2 + b.2)
}

fn minus(a: V, b: V) -> V {
    V(a.0 - b.0, a.1 - b.1, a.2 - b.2)
}

fn times(a: V, b: V) -> V {
    V(a.0 * b.0, a.1 * b.1, a.2 * b.2)
}

fn scaled(a: V, s: f64) -> V {
    V(a.0 * s, a.1 * s, a.2 * s)
}

fn dot(a: V, b: V) -> f64 {
    a.0 * b.0 + a.1 * b.1 + a.2 * b.2
}

fn unit(a: V) -> V {
    scaled(a, 1.0 / dot(a, a).sqrt())
}

fn key(x: f64) -> i64 {
    key_of_bits(x.to_bits())
}

fn scalar(k: i64) -> f64 {
    f64::from_bits(bits_of_key(k))
}

#[derive(Clone, Copy, Debug, PartialEq)]
struct Ray {
    origin: V,
    direction: V,
}

#[derive(Clone, Copy, Debug, PartialEq)]
enum Material {
    Lambertian(V),
    Metal(V),
}

#[derive(Clone, Copy, Debug, PartialEq)]
struct Surface {
    p: V,
    normal: V,
    front_face: bool,
    material: Material,
}

struct Sphere {
    center: V,
    radius: f64,
    material: Material,
}

impl Hittable for Sphere {
    type Ray = Ray;
    type Surface = Surface;

    fn hit_spec(&self, _r: &Ray, _t_min: i64, _t_max: i64) -> Option<HitRecord<Surface>> {
        unreachable!()
    }

    fn hit(&self, r: &Ray, t_min: i64, t_max: i64) -> Option<HitRecord<Surface>> {
        let oc = minus(r.origin, self.center);
        let a = dot(r.direction, r.direction);
        let half_b = dot(oc, r.direction);
        let c = dot(oc, oc) - self.radius * self.radius;
        let discriminant = half_b * half_b - a * c;
        if discriminant < 0.0 {
            return None;
        }
        let sqrtd = discriminant.sqrt();
        let near = (-half_b - sqrtd) / a;
        let far = (-half_b + sqrtd) / a;
        let t = choose_root(key(near), key(far), t_min, t_max)?;
        let p = plus(r.origin, scaled(r.direction, scalar(t)));
        let outward = scaled(minus(p, self.center), 1.0 / self.radius);
        let front_face = dot(r.direction, outward) < 0.0;
        let normal = if front_face { outward } else { scaled(outward, -1.0) };
        Some(HitRecord { t, surface: Surface { p, normal, front_face, material: self.material } })
    }
}

fn random_unit_vector(rng: &mut StdRng) -> V {
    loop {
        let p = V(rng.gen_range(-1.0..1.0), rng.gen_range(-1.0..1.0), rng.gen_range(-1.0..1.0));
        if dot(p, p) < 1.0 {
            return unit(p);
        }
    }
}

impl Scatterable for Surface {
    type Ray = Ray;
    type Color = V;
    type Rng = StdRng;

    fn scatter_spec(&self, _r_in: &Ray, _rng: StdRng) -> (Option<(V, Ray)>, StdRng) {
        unreachable!()
    }

    fn scatter(&self, r_in: &Ray, rng: &mut StdRng) -> Option<(V, Ray)> {
        match self.material {
            Material::Lambertian(albedo) => {
                let direction = plus(self.normal, random_unit_vector(rng));
                Some((albedo, Ray { origin: self.p, direction }))
            }
            Material::Metal(albedo) => {
                let v = unit(r_in.direction);
                let reflected = minus(v, scaled(self.normal, 2.0 * dot(v, self.normal)));
                if dot(reflected, self.normal) > 0.0 {
                    Some((albedo, Ray { origin: self.p, direction: reflected }))
                } else {
                    None
                }
            }
        }
    }
}

fn ray_color(r: Ray, world: &HittableList<Sphere>, depth: i32, rng: &mut StdRng) -> V {
    let path = trace(r, world, depth, rng);
    let mut color = if path.is_lit() {
        let t = 0.5 * (unit(path.ray.direction).1 + 1.0);
        plus(scaled(V(1.0, 1.0, 1.0), 1.0 - t), scaled(V(0.5, 0.7, 1.0), t))
    } else {
        V(0.0, 0.0, 0.0)
    };
    for attenuation in path.attenuations.iter().rev() {
        color = times(*attenuation, color);
    }
    color
}

fn channel(x: f64) -> u8 {
    let kept = scalar(clamp_channel(key(x.sqrt())));
    (256.0 * kept) as u8
}

fn two_spheres() -> HittableList<Sphere> {
    HittableList {
        objects: vec![
            Sphere {
                center: V(0.0, 0.0, -1.0),
                radius: 0.5,
                material: Material::Lambertian(V(0.7, 0.3, 0.3)),
            },
            Sphere {
                center: V(0.0, -100.5, -1.0),
                radius: 100.0,
                material: Material::Lambertian(V(0.8, 0.8, 0.0)),
            },
        ],
    }
}

/// One sample of the pixel in column `i` and row `j` of an image of 400 by
/// 225 pixels, seen from the origin down the negative z axis.
fn sample(world: &HittableList<Sphere>, i: u32, j: u32, seed: u64) -> (u8, u8, u8) {
    let mut rng = StdRng::seed_from_u64(seed);
    let u = (i as f64 + rng.gen_range(0.0..1.0)) / 399.0;
    let v = (j as f64 + rng.gen_range(0.0..1.0)) / 224.0;
    let width = 2.0 * 16.0 / 9.0;
    let direction = V(-width / 2.0 + u * width, -1.0 + v * 2.0, -1.0);
    let color = ray_color(Ray { origin: V(0.0, 0.0, 0.0), direction }, world, 50, &mut rng);
    (channel(color.0), channel(color.1), channel(color.2))
}

#[test]
fn a_sphere_one_unit_ahead_is_hit_at_its_near_side() {
    let world = HittableList {
        objects: vec![Sphere {
            center: V(0.0, 0.0, -1.0),
            radius: 0.5,
            material: Material::Lambertian(V(0.5, 0.5, 0.5)),
        }],
    };
    let r = Ray { origin: V(0.0, 0.0, 0.0), direction: V(0.0, 0.0, -1.0) };
    let rec = world.hit(&r, key(0.001), key(f64::INFINITY)).unwrap();
    assert_eq!(scalar(rec.t), 0.5);
    assert_eq!(rec.surface.p, V(0.0, 0.0, -0.5));
    assert_eq!(rec.surface.normal, V(0.0, 0.0, 1.0));
    assert!(rec.surface.front_face);
}

#[test]
fn a_ray_through_the_centre_crosses_at_distance_less_and_plus_radius() {
    let world = HittableList {
        objects: vec![Sphere {
            center: V(0.0, 0.0, -5.0),
            radius: 2.0,
            material: Material::Lambertian(V(0.5, 0.5, 0.5)),
        }],
    };
    let r = Ray { origin: V(0.0, 0.0, 0.0), direction: V(0.0, 0.0, -1.0) };
    let near = world.hit(&r, key(0.001), key(f64::INFINITY)).unwrap();
    assert_eq!(scalar(near.t), 3.0);
    assert!(near.surface.front_face);
    // Past the near side the far side is what is hit, from inside.
    let far = world.hit(&r, key(3.0), key(f64::INFINITY)).unwrap();
    assert_eq!(scalar(far.t), 7.0);
    assert!(!far.surface.front_face);
    assert_eq!(far.surface.normal, V(0.0, 0.0, 1.0));
    assert!(world.hit(&r, key(7.0), key(f64::INFINITY)).is_none());
    assert!(world.hit(&r, key(0.001), key(3.0)).is_none());
}

#[test]
fn a_ray_that_passes_the_sphere_hits_nothing() {
    let world = two_spheres();
    let up = Ray { origin: V(0.0, 0.0, 0.0), direction: V(0.0, 1.0, 0.0) };
    assert!(world.hit(&up, key(0.001), key(f64::INFINITY)).is_none());
    let away = Ray { origin: V(0.0, 0.0, 0.0), direction: V(0.0, 0.2, 1.0) };
    assert!(world.hit(&away, key(0.001), key(f64::INFINITY)).is_none());
}

#[test]
fn the_small_sphere_hides_the_ground_behind_it() {
    let world = two_spheres();
    let ahead = Ray { origin: V(0.0, 0.0, 0.0), direction: V(0.0, 0.0, -1.0) };
    let rec = world.hit(&ahead, key(0.001), key(f64::INFINITY)).unwrap();
    assert_eq!(scalar(rec.t), 0.5);
    assert_eq!(rec.surface.material, Material::Lambertian(V(0.7, 0.3, 0.3)));
    let down = Ray { origin: V(0.0, 0.0, 0.0), direction: V(0.0, -1.0, 0.0) };
    let rec = world.hit(&down, key(0.001), key(f64::INFINITY)).unwrap();
    // The ground lies 100.5 - sqrt(100^2 - 1) below the origin.
    assert!((scalar(rec.t) - 0.505).abs() < 1e-6);
    assert_eq!(rec.surface.material, Material::Lambertian(V(0.8, 0.8, 0.0)));
}

#[test]
fn without_bounces_every_ray_is_black() {
    let world = two_spheres();
    let none: HittableList<Sphere> = HittableList { objects: Vec::new() };
    let mut rng = StdRng::seed_from_u64(1);
    let fresh = StdRng::seed_from_u64(1);
    for direction in [V(0.0, 0.0, -1.0), V(0.0, 1.0, 0.0), V(0.3, -0.2, -1.0)] {
        let r = Ray { origin: V(0.0, 0.0, 0.0), direction };
        assert_eq!(ray_color(r, &world, 0, &mut rng), V(0.0, 0.0, 0.0));
        assert_eq!(ray_color(r, &none, 0, &mut rng), V(0.0, 0.0, 0.0));
        assert_eq!(ray_color(r, &world, -3, &mut rng), V(0.0, 0.0, 0.0));
    }
    // No random number was drawn.
    assert_eq!(rng, fresh);
}

#[test]
fn the_background_runs_from_white_to_blue() {
    let none: HittableList<Sphere> = HittableList { objects: Vec::new() };
    let mut rng = StdRng::seed_from_u64(1);
    let up = Ray { origin: V(0.0, 0.0, 0.0), direction: V(0.0, 1.0, 0.0) };
    assert_eq!(ray_color(up, &none, 50, &mut rng), V(0.5, 0.7, 1.0));
    let down = Ray { origin: V(0.0, 0.0, 0.0), direction: V(0.0, -1.0, 0.0) };
    assert_eq!(ray_color(down, &none, 50, &mut rng), V(1.0, 1.0, 1.0));
}

#[test]
fn a_mirror_weakens_the_background_by_its_albedo() {
    let world = HittableList {
        objects: vec![Sphere {
            center: V(0.0, -2.0, 0.0),
            radius: 1.0,
            material: Material::Metal(V(0.5, 0.25, 1.0)),
        }],
    };
    let mut rng = StdRng::seed_from_u64(1);
    // Straight down onto the top of the sphere, and straight back up.
    let down = Ray { origin: V(0.0, 0.0, 0.0), direction: V(0.0, -1.0, 0.0) };
    let path = trace(down, &world, 50, &mut rng);
    assert_eq!(path.end, Some(PathEnd::Escaped));
    assert_eq!(path.attenuations, vec![V(0.5, 0.25, 1.0)]);
    assert_eq!(path.ray, Ray { origin: V(0.0, -1.0, 0.0), direction: V(0.0, 1.0, 0.0) });
    assert_eq!(ray_color(down, &world, 50, &mut rng), V(0.25, 0.175, 1.0));
    // With one bounce only, the path is exhausted on the mirror.
    assert_eq!(ray_color(down, &world, 1, &mut rng), V(0.0, 0.0, 0.0));
}

#[test]
fn the_same_seed_gives_the_same_pixel() {
    let world = two_spheres();
    let first = sample(&world, 200, 100, 17);
    let again = sample(&world, 200, 100, 17);
    assert_eq!(first, again);
    let ground = sample(&world, 10, 5, 23);
    assert_eq!(ground, sample(&world, 10, 5, 23));
}

#[test]
fn the_same_seed_gives_the_same_path() {
    let world = two_spheres();
    let r = Ray { origin: V(0.0, 0.0, 0.0), direction: V(0.1, -0.3, -1.0) };
    let mut one = StdRng::seed_from_u64(99);
    let mut two = StdRng::seed_from_u64(99);
    let a = trace(r, &world, 50, &mut one);
    let b = trace(r, &world, 50, &mut two);
    assert!(!a.attenuations.is_empty());
    assert_eq!(a.attenuations, b.attenuations);
    assert_eq!(a.ray, b.ray);
    assert_eq!(a.end, b.end);
    assert_eq!(one, two);
}

#[test]
fn a_pixel_of_sky_above_the_spheres() {
    // The top row looks past both spheres, whatever the jitter.
    let world = two_spheres();
    let (r, g, b) = sample(&world, 0, 224, 5);
    assert!(r < g && g < b);
    assert_eq!(b, 255);
}

#[test]
fn the_image_is_sampled_from_the_top_row_down() {
    let world = two_spheres();
    let raster = Raster::new(4, 3);
    let mut rows = Vec::new();
    for k in 0..raster.pixel_count() {
        let (i, j) = raster.pixel_at(k).unwrap();
        // Spread the small image over the large one.
        let pixel = sample(&world, i * 133, j * 112, 3);
        rows.push((j, pixel));
    }
    assert_eq!(rows.len(), 12);
    assert_eq!(rows.iter().map(|(j, _)| *j).collect::<Vec<_>>(), vec![2, 2, 2, 2, 1, 1, 1, 1, 0, 0, 0, 0]);
    // The top row is sky, the bottom row is ground.
    assert!(rows[0..4].iter().all(|(_, (_, _, b))| *b == 255));
    assert!(rows[8..12].iter().all(|(_, (_, _, b))| *b < 128));
}
