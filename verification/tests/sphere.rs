use ray_tracer::scalar::key_of_bits;
use ray_tracer::sphere::choose_root;

fn key(x: f64) -> i64 {
    key_of_bits(x.to_bits())
}

#[test]
fn the_nearer_root_is_preferred() {
    assert_eq!(choose_root(3, 7, 0, 100), Some(3));
}

#[test]
fn the_farther_root_counts_where_the_nearer_is_behind_the_lower_bound() {
    assert_eq!(choose_root(3, 7, 4, 100), Some(7));
    assert_eq!(choose_root(-2, 7, 0, 100), Some(7));
}

#[test]
fn no_root_counts_where_both_are_out_of_range() {
    assert_eq!(choose_root(3, 7, 8, 100), None);
    assert_eq!(choose_root(3, 7, 0, 2), None);
    assert_eq!(choose_root(3, 7, 4, 6), None);
    assert_eq!(choose_root(3, 7, 10, 0), None);
}

#[test]
fn the_bounds_themselves_are_out_of_range() {
    assert_eq!(choose_root(3, 7, 3, 7), None);
    assert_eq!(choose_root(3, 7, 3, 8), Some(7));
    assert_eq!(choose_root(3, 7, 2, 7), Some(3));
    assert_eq!(choose_root(3, 7, 2, 3), None);
}

#[test]
fn a_touching_line_has_one_root() {
    assert_eq!(choose_root(5, 5, 0, 100), Some(5));
    assert_eq!(choose_root(5, 5, 5, 100), None);
}

#[test]
fn roots_of_a_unit_ray_towards_a_sphere_one_unit_away() {
    // A sphere of radius 0.5 centred one unit ahead is crossed at 0.5 and 1.5.
    let got = choose_root(key(0.5), key(1.5), key(0.001), key(f64::INFINITY));
    assert_eq!(got, Some(key(0.5)));
    // From inside the sphere the nearer crossing lies behind the origin.
    let inside = choose_root(key(-0.5), key(0.5), key(0.001), key(f64::INFINITY));
    assert_eq!(inside, Some(key(0.5)));
    // A sphere wholly behind the origin is not hit.
    let behind = choose_root(key(-1.5), key(-0.5), key(0.001), key(f64::INFINITY));
    assert_eq!(behind, None);
}
